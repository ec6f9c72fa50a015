use quilt_installer::error::ResolveError;
use quilt_installer::manifest::{
    has_shared_destination, manifest_from_resolution, Artifact, InstallManifest, Resolution,
};

fn file(name: &str, destination: &str) -> Artifact {
    Artifact {
        coordinate: name.to_string(),
        download_url: format!("https://maven.example/{}", name),
        digest: format!("digest-of-{}", name),
        size_bytes: 7,
        destination_path: destination.to_string(),
    }
}

#[test]
fn manifest_keeps_what_it_is_given() {
    let artifacts = vec![file("a", "libraries/a.jar"), file("b", "libraries/b.jar")];
    let manifest =
        InstallManifest::new(artifacts.clone(), "org.Main".to_string(), "quilt-1".to_string())
            .unwrap();
    assert_eq!(manifest.artifacts(), &artifacts);
    assert_eq!(manifest.main_class(), "org.Main");
    assert_eq!(manifest.profile_id(), "quilt-1");
    let copy = manifest.clone();
    assert_eq!(copy.artifacts(), &artifacts);
    assert_eq!(copy.main_class(), "org.Main");
    assert_eq!(copy.profile_id(), "quilt-1");
}

#[test]
fn manifest_rejects_a_shared_destination() {
    let artifacts =
        vec![file("a", "libraries/x.jar"), file("b", "libraries/b.jar"), file("c", "libraries/x.jar")];
    assert!(has_shared_destination(&artifacts));
    let manifest = InstallManifest::new(artifacts, "org.Main".to_string(), "quilt-1".to_string());
    assert_eq!(manifest.err(), Some(ResolveError::Parse));
}

#[test]
fn manifest_may_be_empty() {
    assert!(!has_shared_destination(&Vec::new()));
    let manifest =
        InstallManifest::new(Vec::new(), "org.Main".to_string(), "quilt-1".to_string()).unwrap();
    assert!(manifest.artifacts().is_empty());
}

#[test]
fn same_artifact_twice_is_a_shared_destination() {
    let artifacts = vec![file("a", "libraries/a.jar"), file("a", "libraries/a.jar")];
    assert!(has_shared_destination(&artifacts));
    assert!(!has_shared_destination(&vec![file("a", "p"), file("a", "q")]));
}

#[test]
fn resolution_names_each_failure() {
    assert_eq!(
        manifest_from_resolution(Resolution::Unreachable).err(),
        Some(ResolveError::Network)
    );
    assert_eq!(
        manifest_from_resolution(Resolution::Missing).err(),
        Some(ResolveError::UnsupportedCombination)
    );
    assert_eq!(manifest_from_resolution(Resolution::Malformed).err(), Some(ResolveError::Parse));
    let clash = Resolution::Document {
        artifacts: vec![file("a", "same"), file("b", "same")],
        main_class: "org.Main".to_string(),
        profile_id: "quilt-1".to_string(),
    };
    assert_eq!(manifest_from_resolution(clash).err(), Some(ResolveError::Parse));
}

#[test]
fn resolution_with_a_document_gives_its_manifest() {
    let artifacts = vec![file("a", "one"), file("b", "two"), file("c", "three")];
    let document = Resolution::Document {
        artifacts: artifacts.clone(),
        main_class: "org.quiltmc.Main".to_string(),
        profile_id: "quilt-loader-0.20.0-1.20.1".to_string(),
    };
    let manifest = manifest_from_resolution(document).unwrap();
    assert_eq!(manifest.artifacts(), &artifacts);
    assert_eq!(manifest.main_class(), "org.quiltmc.Main");
    assert_eq!(manifest.profile_id(), "quilt-loader-0.20.0-1.20.1");
}
