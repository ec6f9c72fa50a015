use quilt_installer::manifest::{Artifact, InstallManifest};
use quilt_installer::writer::{
    classpath_of, client_write_plan, has_server_jar, launch_script, server_write_plan,
    upsert_profile, version_descriptor, ProfileEntry, ScriptFlavor,
};

fn entry(id: &str, version: &str) -> ProfileEntry {
    ProfileEntry { id: id.to_string(), last_version_id: version.to_string() }
}

fn jar(name: &str, destination: &str) -> Artifact {
    Artifact {
        coordinate: format!("org.example:{}:1.0", name),
        download_url: format!("https://maven.example/{}.jar", name),
        digest: format!("digest-of-{}", name),
        size_bytes: 1,
        destination_path: destination.to_string(),
    }
}

fn manifest_of(artifacts: Vec<Artifact>) -> InstallManifest {
    InstallManifest::new(
        artifacts,
        "org.quiltmc.loader.impl.launch.knot.KnotClient".to_string(),
        "quilt-loader-0.20.0-1.20.1".to_string(),
    )
    .unwrap()
}

#[test]
fn upsert_appends_a_new_entry() {
    let registry = vec![entry("vanilla", "1.20.1"), entry("forge", "1.19")];
    assert_eq!(
        upsert_profile(registry, entry("quilt", "quilt-1")),
        vec![entry("vanilla", "1.20.1"), entry("forge", "1.19"), entry("quilt", "quilt-1")]
    );
    assert_eq!(upsert_profile(Vec::new(), entry("quilt", "q")), vec![entry("quilt", "q")]);
}

#[test]
fn upsert_replaces_what_was_kept_under_the_id() {
    let registry = vec![entry("quilt", "old"), entry("vanilla", "1.20.1"), entry("quilt", "older")];
    assert_eq!(
        upsert_profile(registry, entry("quilt", "new")),
        vec![entry("vanilla", "1.20.1"), entry("quilt", "new")]
    );
}

#[test]
fn upsert_twice_leaves_one_entry() {
    let registry = vec![entry("vanilla", "1.20.1")];
    let once = upsert_profile(registry, entry("quilt", "quilt-1"));
    let twice = upsert_profile(once.clone(), entry("quilt", "quilt-1"));
    assert_eq!(once, twice);
    assert_eq!(twice.iter().filter(|kept| kept.id == "quilt").count(), 1);
}

#[test]
fn descriptor_lists_one_library_for_each_artifact() {
    let manifest = manifest_of(vec![jar("a", "libraries/a.jar"), jar("b", "libraries/b.jar")]);
    let descriptor = version_descriptor(&manifest);
    assert_eq!(descriptor.id, "quilt-loader-0.20.0-1.20.1");
    assert_eq!(descriptor.main_class, "org.quiltmc.loader.impl.launch.knot.KnotClient");
    assert_eq!(descriptor.libraries.len(), 2);
    assert_eq!(descriptor.libraries[0].name, "org.example:a:1.0");
    assert_eq!(descriptor.libraries[0].url, "https://maven.example/a.jar");
    assert_eq!(descriptor.libraries[1].name, "org.example:b:1.0");
    assert_eq!(descriptor.libraries[1].url, "https://maven.example/b.jar");
}

#[test]
fn client_plan_enters_a_profile_only_when_asked() {
    let manifest = manifest_of(vec![jar("a", "libraries/a.jar")]);
    let with = client_write_plan(&manifest, true);
    assert_eq!(
        with.profile,
        Some(entry("quilt-loader-0.20.0-1.20.1", "quilt-loader-0.20.0-1.20.1"))
    );
    assert_eq!(with.descriptor.id, "quilt-loader-0.20.0-1.20.1");
    let without = client_write_plan(&manifest, false);
    assert_eq!(without.profile, None);
    assert_eq!(without.descriptor.libraries.len(), 1);
}

#[test]
fn unix_launch_script_is_exact() {
    let classpath = vec!["server.jar".to_string(), "libraries/a.jar".to_string()];
    assert_eq!(
        launch_script(ScriptFlavor::Unix, "org.Main", &classpath),
        "#!/bin/sh\njava -cp \"server.jar:libraries/a.jar\" org.Main\n"
    );
}

#[test]
fn windows_launch_script_is_exact() {
    let classpath = vec!["server.jar".to_string(), "libraries/a.jar".to_string()];
    assert_eq!(
        launch_script(ScriptFlavor::Windows, "org.Main", &classpath),
        "java -cp \"server.jar;libraries/a.jar\" org.Main\r\n"
    );
}

#[test]
fn launch_script_with_short_classpaths() {
    assert_eq!(
        launch_script(ScriptFlavor::Unix, "M", &Vec::new()),
        "#!/bin/sh\njava -cp \"\" M\n"
    );
    assert_eq!(
        launch_script(ScriptFlavor::Windows, "M", &vec!["only.jar".to_string()]),
        "java -cp \"only.jar\" M\r\n"
    );
    assert_eq!(
        launch_script(
            ScriptFlavor::Unix,
            "M",
            &vec!["a".to_string(), "b".to_string(), "c".to_string()]
        ),
        "#!/bin/sh\njava -cp \"a:b:c\" M\n"
    );
}

#[test]
fn classpath_follows_the_manifest() {
    let manifest = manifest_of(vec![jar("a", "libraries/a.jar"), jar("b", "libraries/b.jar")]);
    assert_eq!(classpath_of(&manifest), vec!["libraries/a.jar", "libraries/b.jar"]);
}

#[test]
fn server_jar_is_found_by_its_path() {
    assert!(has_server_jar(&manifest_of(vec![jar("a", "x"), jar("server", "server.jar")])));
    assert!(!has_server_jar(&manifest_of(vec![jar("a", "x"), jar("server", "libs/server.jar")])));
    assert!(!has_server_jar(&manifest_of(Vec::new())));
}

#[test]
fn server_plan_fetches_the_jar_only_when_needed() {
    let without = manifest_of(vec![jar("a", "libraries/a.jar")]);
    let with = manifest_of(vec![jar("server", "server.jar")]);
    assert!(server_write_plan(&without, true, false, ScriptFlavor::Unix).fetch_server_jar);
    assert!(!server_write_plan(&without, false, false, ScriptFlavor::Unix).fetch_server_jar);
    assert!(!server_write_plan(&with, true, false, ScriptFlavor::Unix).fetch_server_jar);
    assert!(!server_write_plan(&with, false, false, ScriptFlavor::Unix).fetch_server_jar);
}

#[test]
fn server_plan_writes_the_script_only_when_asked() {
    let manifest = manifest_of(vec![jar("a", "libraries/a.jar"), jar("b", "libraries/b.jar")]);
    assert_eq!(server_write_plan(&manifest, true, false, ScriptFlavor::Unix).launch_script, None);
    assert_eq!(
        server_write_plan(&manifest, true, true, ScriptFlavor::Unix).launch_script,
        Some((
            "start.sh".to_string(),
            "#!/bin/sh\njava -cp \"libraries/a.jar:libraries/b.jar\" org.quiltmc.loader.impl.launch.knot.KnotClient\n"
                .to_string()
        ))
    );
    assert_eq!(
        server_write_plan(&manifest, true, true, ScriptFlavor::Windows).launch_script,
        Some((
            "start.bat".to_string(),
            "java -cp \"libraries/a.jar;libraries/b.jar\" org.quiltmc.loader.impl.launch.knot.KnotClient\r\n"
                .to_string()
        ))
    );
}
