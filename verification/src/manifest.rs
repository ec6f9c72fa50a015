//! The manifest of an installation: every file that one pair of versions
//! needs, with where it comes from, what it must hash to, and where it goes.
//!
//! A manifest is resolved in full before anything is fetched, and is not
//! changed afterwards. No two of its artifacts go to the same place, so no
//! two transfers ever write the same file.
use crate::error::ResolveError;
use vstd::prelude::*;
use vstd::std_specs::cmp::PartialEqSpecImpl;

verus! {

/// One file to fetch and verify.
#[derive(Debug)]
pub struct Artifact {
    /// The name by which the artifact is known upstream.
    pub coordinate: String,
    /// Where its bytes are fetched from.
    pub download_url: String,
    /// The digest that its bytes must have.
    pub digest: String,
    /// How many bytes it has.
    pub size_bytes: u64,
    /// Where it goes, relative to the installation root.
    pub destination_path: String,
}

/// The model of an [`Artifact`].
pub struct ArtifactView {
    pub coordinate: Seq<char>,
    pub download_url: Seq<char>,
    pub digest: Seq<char>,
    pub size_bytes: u64,
    pub destination_path: Seq<char>,
}

impl View for Artifact {
    type V = ArtifactView;

    open spec fn view(&self) -> ArtifactView {
        ArtifactView {
            coordinate: self.coordinate@,
            download_url: self.download_url@,
            digest: self.digest@,
            size_bytes: self.size_bytes,
            destination_path: self.destination_path@,
        }
    }
}

impl DeepView for Artifact {
    type V = ArtifactView;

    open spec fn deep_view(&self) -> ArtifactView {
        self@
    }
}

impl Clone for Artifact {
    fn clone(&self) -> (copy: Self)
        ensures
            copy == *self,
    {
        Artifact {
            coordinate: self.coordinate.clone(),
            download_url: self.download_url.clone(),
            digest: self.digest.clone(),
            size_bytes: self.size_bytes,
            destination_path: self.destination_path.clone(),
        }
    }
}

impl PartialEq for Artifact {
    fn eq(&self, other: &Self) -> (equal: bool) {
        self.coordinate == other.coordinate && self.download_url == other.download_url
            && self.digest == other.digest && self.size_bytes == other.size_bytes
            && self.destination_path == other.destination_path
    }
}

impl Eq for Artifact {

}

impl PartialEqSpecImpl for Artifact {
    open spec fn obeys_eq_spec() -> bool {
        true
    }

    open spec fn eq_spec(&self, other: &Self) -> bool {
        self@ == other@
    }
}

/// Whether no two of `artifacts` go to the same place.
pub open spec fn distinct_destinations(artifacts: Seq<ArtifactView>) -> bool {
    forall|i: int, j: int|
        0 <= i < j < artifacts.len() ==> (#[trigger] artifacts[i]).destination_path != (
        #[trigger] artifacts[j]).destination_path
}

/// Whether two of `artifacts` go to the same place.
pub fn has_shared_destination(artifacts: &Vec<Artifact>) -> (shared: bool)
    ensures
        shared == !distinct_destinations(artifacts.deep_view()),
{
    let ghost models = artifacts.deep_view();
    let mut j: usize = 0;
    while j < artifacts.len()
        invariant
            j <= artifacts.len(),
            models == artifacts.deep_view(),
            forall|a: int, b: int|
                0 <= a < b < j ==> (#[trigger] models[a]).destination_path != (
                #[trigger] models[b]).destination_path,
        decreases artifacts.len() - j,
    {
        let mut i: usize = 0;
        while i < j
            invariant
                i <= j < artifacts.len(),
                models == artifacts.deep_view(),
                forall|a: int|
                    0 <= a < i ==> (#[trigger] models[a]).destination_path != models[j as
                        int].destination_path,
            decreases j - i,
        {
            if artifacts[i].destination_path == artifacts[j].destination_path {
                assert(models[i as int].destination_path == models[j as int].destination_path);
                return true;
            }
            i += 1;
        }
        j += 1;
    }
    false
}

/// What one pair of versions needs: its artifacts in the order given
/// upstream, the class that starts the loader, and the id of the profile
/// under which the installation is known.
#[derive(Debug)]
pub struct InstallManifest {
    artifacts: Vec<Artifact>,
    main_class: String,
    profile_id: String,
}

/// The model of an [`InstallManifest`].
pub struct InstallManifestView {
    pub artifacts: Seq<ArtifactView>,
    pub main_class: Seq<char>,
    pub profile_id: Seq<char>,
}

impl View for InstallManifest {
    type V = InstallManifestView;

    closed spec fn view(&self) -> InstallManifestView {
        InstallManifestView {
            artifacts: self.artifacts.deep_view(),
            main_class: self.main_class@,
            profile_id: self.profile_id@,
        }
    }
}

impl DeepView for InstallManifest {
    type V = InstallManifestView;

    open spec fn deep_view(&self) -> InstallManifestView {
        self@
    }
}

impl InstallManifest {
    /// Every manifest keeps its artifacts' destinations apart.
    #[verifier::type_invariant]
    spec fn well_formed(self) -> bool {
        distinct_destinations(self.artifacts.deep_view())
    }

    /// The manifest of these artifacts, or [`ResolveError::Parse`] where two
    /// of them go to the same place.
    pub fn new(artifacts: Vec<Artifact>, main_class: String, profile_id: String) -> (manifest:
        Result<InstallManifest, ResolveError>)
        ensures
            match manifest {
                Ok(made) => distinct_destinations(artifacts.deep_view()) && made@ == (
                InstallManifestView {
                    artifacts: artifacts.deep_view(),
                    main_class: main_class@,
                    profile_id: profile_id@,
                }),
                Err(error) => !distinct_destinations(artifacts.deep_view()) && error
                    == ResolveError::Parse,
            },
    {
        if has_shared_destination(&artifacts) {
            Err(ResolveError::Parse)
        } else {
            Ok(InstallManifest { artifacts, main_class, profile_id })
        }
    }

    /// The artifacts, in the order given upstream. No two of them go to the
    /// same place.
    pub fn artifacts(&self) -> (artifacts: &Vec<Artifact>)
        ensures
            artifacts.deep_view() == self@.artifacts,
            distinct_destinations(artifacts.deep_view()),
    {
        proof {
            use_type_invariant(self);
        }
        &self.artifacts
    }

    /// The class that starts the loader.
    pub fn main_class(&self) -> (name: &String)
        ensures
            name@ == self@.main_class,
    {
        &self.main_class
    }

    /// The id of the profile under which the installation is known.
    pub fn profile_id(&self) -> (id: &String)
        ensures
            id@ == self@.profile_id,
    {
        &self.profile_id
    }
}

impl Clone for InstallManifest {
    fn clone(&self) -> (copy: Self)
        ensures
            copy@ == self@,
    {
        proof {
            use_type_invariant(self);
        }
        let mut artifacts: Vec<Artifact> = Vec::new();
        let mut i: usize = 0;
        while i < self.artifacts.len()
            invariant
                i <= self.artifacts.len(),
                artifacts.deep_view() == self.artifacts.deep_view().take(i as int),
            decreases self.artifacts.len() - i,
        {
            let ghost before = artifacts.deep_view();
            artifacts.push(self.artifacts[i].clone());
            proof {
                assert(artifacts.deep_view() =~= before.push(self.artifacts[i as int]@));
                assert(self.artifacts.deep_view().take(i + 1) =~= self.artifacts.deep_view().take(
                    i as int,
                ).push(self.artifacts[i as int]@));
            }
            i += 1;
        }
        proof {
            assert(self.artifacts.deep_view().take(i as int) =~= self.artifacts.deep_view());
        }
        InstallManifest {
            artifacts,
            main_class: self.main_class.clone(),
            profile_id: self.profile_id.clone(),
        }
    }
}

/// What came of asking the metadata endpoint about one pair of versions.
#[derive(Debug)]
pub enum Resolution {
    /// The request failed in transport.
    Unreachable,
    /// The endpoint has no entry for the pair.
    Missing,
    /// An answer came, and it was not a well-formed manifest.
    Malformed,
    /// The parts of the manifest, as the endpoint gave them.
    Document { artifacts: Vec<Artifact>, main_class: String, profile_id: String },
}

/// What [`manifest_from_resolution`] makes of an answer.
pub open spec fn resolved(resolution: Resolution) -> Result<InstallManifestView, ResolveError> {
    match resolution {
        Resolution::Unreachable => Err(ResolveError::Network),
        Resolution::Missing => Err(ResolveError::UnsupportedCombination),
        Resolution::Malformed => Err(ResolveError::Parse),
        Resolution::Document { artifacts, main_class, profile_id } => if distinct_destinations(
            artifacts.deep_view(),
        ) {
            Ok(
                InstallManifestView {
                    artifacts: artifacts.deep_view(),
                    main_class: main_class@,
                    profile_id: profile_id@,
                },
            )
        } else {
            Err(ResolveError::Parse)
        },
    }
}

/// The manifest that the endpoint's answer amounts to, or the reason there
/// is none: a transport failure, no entry for the pair, or a document that
/// is no manifest, which one that sends two artifacts to the same place is
/// not.
pub fn manifest_from_resolution(resolution: Resolution) -> (manifest: Result<
    InstallManifest,
    ResolveError,
>)
    ensures
        match manifest {
            Ok(made) => resolved(resolution) == Ok::<InstallManifestView, ResolveError>(made@),
            Err(error) => resolved(resolution) == Err::<InstallManifestView, ResolveError>(error),
        },
{
    match resolution {
        Resolution::Unreachable => Err(ResolveError::Network),
        Resolution::Missing => Err(ResolveError::UnsupportedCombination),
        Resolution::Malformed => Err(ResolveError::Parse),
        Resolution::Document { artifacts, main_class, profile_id } => InstallManifest::new(
            artifacts,
            main_class,
            profile_id,
        ),
    }
}

} // verus!
