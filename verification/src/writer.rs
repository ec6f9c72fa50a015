//! What is written once the artifacts are in place: for a client, the
//! version descriptor and the entry in the launcher's profile registry; for a
//! server, the launch script, and whether the base game's jar is still to be
//! fetched.
//!
//! Nothing here touches a file. Each function says what the file is to hold;
//! writing it twice gives the same file, not a longer one.
use crate::manifest::{ArtifactView, InstallManifest, InstallManifestView};
use vstd::prelude::*;
use vstd::std_specs::cmp::PartialEqSpecImpl;

verus! {

/// One entry of the launcher's profile registry.
#[derive(Debug)]
pub struct ProfileEntry {
    /// The id under which the registry keeps the entry.
    pub id: String,
    /// The id of the version that the profile starts.
    pub last_version_id: String,
}

/// The model of a [`ProfileEntry`].
pub struct ProfileEntryView {
    pub id: Seq<char>,
    pub last_version_id: Seq<char>,
}

impl View for ProfileEntry {
    type V = ProfileEntryView;

    open spec fn view(&self) -> ProfileEntryView {
        ProfileEntryView { id: self.id@, last_version_id: self.last_version_id@ }
    }
}

impl DeepView for ProfileEntry {
    type V = ProfileEntryView;

    open spec fn deep_view(&self) -> ProfileEntryView {
        self@
    }
}

impl Clone for ProfileEntry {
    fn clone(&self) -> (copy: Self)
        ensures
            copy == *self,
    {
        ProfileEntry { id: self.id.clone(), last_version_id: self.last_version_id.clone() }
    }
}

impl PartialEq for ProfileEntry {
    fn eq(&self, other: &Self) -> (equal: bool) {
        self.id == other.id && self.last_version_id == other.last_version_id
    }
}

impl Eq for ProfileEntry {

}

impl PartialEqSpecImpl for ProfileEntry {
    open spec fn obeys_eq_spec() -> bool {
        true
    }

    open spec fn eq_spec(&self, other: &Self) -> bool {
        self@ == other@
    }
}

/// The entries of `registry` that are kept under another id than `id`, in
/// their order.
pub open spec fn entries_beside(registry: Seq<ProfileEntryView>, id: Seq<char>) -> Seq<
    ProfileEntryView,
> {
    registry.filter(|kept: ProfileEntryView| kept.id != id)
}

/// The entries of `registry` that are kept under `id`, in their order.
pub open spec fn entries_under(registry: Seq<ProfileEntryView>, id: Seq<char>) -> Seq<
    ProfileEntryView,
> {
    registry.filter(|kept: ProfileEntryView| kept.id == id)
}

/// The registry once `entry` has been entered: every entry under another id
/// stays, in its place among those; whatever was kept under the id of
/// `entry` is gone; and `entry` stands at the end.
pub open spec fn upserted(registry: Seq<ProfileEntryView>, entry: ProfileEntryView) -> Seq<
    ProfileEntryView,
> {
    entries_beside(registry, entry.id).push(entry)
}

/// Keeping what satisfies a predicate, of a sequence where everything does,
/// keeps everything; where nothing does, it keeps nothing.
pub proof fn filter_of_uniform<A>(items: Seq<A>, keep: spec_fn(A) -> bool)
    ensures
        (forall|i: int| 0 <= i < items.len() ==> keep(#[trigger] items[i])) ==> items.filter(keep)
            == items,
        (forall|i: int| 0 <= i < items.len() ==> !keep(#[trigger] items[i])) ==> items.filter(
            keep,
        ) == Seq::<A>::empty(),
    decreases items.len(),
{
    reveal(Seq::filter);
    if items.len() > 0 {
        let front = items.drop_last();
        filter_of_uniform(front, keep);
        if forall|i: int| 0 <= i < items.len() ==> keep(#[trigger] items[i]) {
            assert forall|i: int| 0 <= i < front.len() implies keep(#[trigger] front[i]) by {
                assert(front[i] == items[i]);
            }
            assert(keep(items.last()));
            assert(front.push(items.last()) =~= items);
        }
        if forall|i: int| 0 <= i < items.len() ==> !keep(#[trigger] items[i]) {
            assert forall|i: int| 0 <= i < front.len() implies !keep(#[trigger] front[i]) by {
                assert(front[i] == items[i]);
            }
            assert(!keep(items.last()));
        }
    } else {
        assert(items.filter(keep) =~= items);
    }
}

/// After an entry has been entered, the registry holds exactly one entry
/// under its id, which is that entry, and the entries under every other id
/// are what they were.
pub proof fn upsert_leaves_one_entry(registry: Seq<ProfileEntryView>, entry: ProfileEntryView)
    ensures
        entries_under(upserted(registry, entry), entry.id) == seq![entry],
        entries_beside(upserted(registry, entry), entry.id) == entries_beside(registry, entry.id),
{
    let beside = |kept: ProfileEntryView| kept.id != entry.id;
    let under = |kept: ProfileEntryView| kept.id == entry.id;
    let others = registry.filter(beside);
    assert forall|i: int| 0 <= i < others.len() implies beside(#[trigger] others[i]) by {
        registry.lemma_filter_pred(beside, i);
    }
    filter_of_uniform(others, beside);
    filter_of_uniform(others, under);
    Seq::lemma_filter_push(others, entry, beside);
    Seq::lemma_filter_push(others, entry, under);
    assert(others.push(entry).filter(under) =~= seq![entry]);
}

/// Entering the same entry a second time changes nothing.
pub proof fn upsert_is_idempotent(registry: Seq<ProfileEntryView>, entry: ProfileEntryView)
    ensures
        upserted(upserted(registry, entry), entry) == upserted(registry, entry),
{
    upsert_leaves_one_entry(registry, entry);
}

/// Enters `entry` in `registry`: what was kept under its id gives way to it,
/// and everything else stays.
pub fn upsert_profile(registry: Vec<ProfileEntry>, entry: ProfileEntry) -> (merged: Vec<
    ProfileEntry,
>)
    ensures
        merged.deep_view() == upserted(registry.deep_view(), entry@),
{
    let ghost models = registry.deep_view();
    let ghost beside = |kept: ProfileEntryView| kept.id != entry@.id;
    let mut merged: Vec<ProfileEntry> = Vec::new();
    let mut i: usize = 0;
    proof {
        assert(models.take(0) =~= Seq::<ProfileEntryView>::empty());
        assert(merged.deep_view() =~= models.take(0).filter(beside));
    }
    while i < registry.len()
        invariant
            i <= registry.len(),
            models == registry.deep_view(),
            beside == (|kept: ProfileEntryView| kept.id != entry@.id),
            merged.deep_view() == models.take(i as int).filter(beside),
        decreases registry.len() - i,
    {
        let ghost before = merged.deep_view();
        let keep = registry[i].id != entry.id;
        if keep {
            merged.push(registry[i].clone());
        }
        proof {
            let prefix = models.take(i as int);
            assert(models.take(i + 1) =~= prefix.push(models[i as int]));
            Seq::lemma_filter_push(prefix, models[i as int], beside);
            if keep {
                assert(merged.deep_view() =~= before.push(models[i as int]));
            } else {
                assert(merged.deep_view() =~= before);
            }
        }
        i += 1;
    }
    let ghost kept = merged.deep_view();
    merged.push(entry);
    proof {
        assert(models.take(i as int) =~= models);
        assert(merged.deep_view() =~= kept.push(entry@));
    }
    merged
}

/// One library of a version descriptor.
#[derive(Debug)]
pub struct Library {
    /// The name by which the library is known upstream.
    pub name: String,
    /// Where it was fetched from.
    pub url: String,
}

/// The model of a [`Library`].
pub struct LibraryView {
    pub name: Seq<char>,
    pub url: Seq<char>,
}

impl View for Library {
    type V = LibraryView;

    open spec fn view(&self) -> LibraryView {
        LibraryView { name: self.name@, url: self.url@ }
    }
}

impl DeepView for Library {
    type V = LibraryView;

    open spec fn deep_view(&self) -> LibraryView {
        self@
    }
}

/// What the launcher is told of an installed version.
#[derive(Debug)]
pub struct VersionDescriptor {
    /// The id of the version.
    pub id: String,
    /// The class that starts the loader.
    pub main_class: String,
    /// The libraries of the version, in the order of the manifest.
    pub libraries: Vec<Library>,
}

/// The model of a [`VersionDescriptor`].
pub struct VersionDescriptorView {
    pub id: Seq<char>,
    pub main_class: Seq<char>,
    pub libraries: Seq<LibraryView>,
}

impl View for VersionDescriptor {
    type V = VersionDescriptorView;

    open spec fn view(&self) -> VersionDescriptorView {
        VersionDescriptorView {
            id: self.id@,
            main_class: self.main_class@,
            libraries: self.libraries.deep_view(),
        }
    }
}

/// The library that stands for `artifact` in a version descriptor.
pub open spec fn library_of(artifact: ArtifactView) -> LibraryView {
    LibraryView { name: artifact.coordinate, url: artifact.download_url }
}

/// The descriptor of the version that `manifest` installs: named by the
/// profile id, started by the manifest's main class, with one library for
/// each artifact.
pub open spec fn described(manifest: InstallManifestView) -> VersionDescriptorView {
    VersionDescriptorView {
        id: manifest.profile_id,
        main_class: manifest.main_class,
        libraries: manifest.artifacts.map_values(|artifact: ArtifactView| library_of(artifact)),
    }
}

/// The entry under which the version that `manifest` installs is kept in the
/// profile registry.
pub open spec fn profile_of(manifest: InstallManifestView) -> ProfileEntryView {
    ProfileEntryView { id: manifest.profile_id, last_version_id: manifest.profile_id }
}

/// The descriptor of the version that `manifest` installs.
pub fn version_descriptor(manifest: &InstallManifest) -> (descriptor: VersionDescriptor)
    ensures
        descriptor@ == described(manifest@),
{
    let artifacts = manifest.artifacts();
    let ghost models = artifacts.deep_view();
    let mut libraries: Vec<Library> = Vec::new();
    let mut i: usize = 0;
    while i < artifacts.len()
        invariant
            i <= artifacts.len(),
            models == artifacts.deep_view(),
            libraries.deep_view() == models.take(i as int).map_values(
                |artifact: ArtifactView| library_of(artifact),
            ),
        decreases artifacts.len() - i,
    {
        let ghost before = libraries.deep_view();
        libraries.push(
            Library {
                name: artifacts[i].coordinate.clone(),
                url: artifacts[i].download_url.clone(),
            },
        );
        proof {
            assert(libraries.deep_view() =~= before.push(library_of(models[i as int])));
            assert(models.take(i + 1) =~= models.take(i as int).push(models[i as int]));
            assert(libraries.deep_view() =~= models.take(i + 1).map_values(
                |artifact: ArtifactView| library_of(artifact),
            ));
        }
        i += 1;
    }
    proof {
        assert(models.take(i as int) =~= models);
    }
    VersionDescriptor {
        id: manifest.profile_id().clone(),
        main_class: manifest.main_class().clone(),
        libraries,
    }
}

/// What is written for a client.
#[derive(Debug)]
pub struct ClientWritePlan {
    /// The version descriptor, which is always written.
    pub descriptor: VersionDescriptor,
    /// The entry to enter in the profile registry, where one is asked for.
    pub profile: Option<ProfileEntry>,
}

/// What is written for a client that installs `manifest`: the descriptor,
/// and the registry entry exactly when `generate_profile` is set.
pub fn client_write_plan(manifest: &InstallManifest, generate_profile: bool) -> (plan:
    ClientWritePlan)
    ensures
        plan.descriptor@ == described(manifest@),
        plan.profile.deep_view() == if generate_profile {
            Some(profile_of(manifest@))
        } else {
            None
        },
{
    let profile = if generate_profile {
        Some(
            ProfileEntry {
                id: manifest.profile_id().clone(),
                last_version_id: manifest.profile_id().clone(),
            },
        )
    } else {
        None
    };
    ClientWritePlan { descriptor: version_descriptor(manifest), profile }
}

/// The kind of shell that a launch script is written for.
#[derive(Debug, Clone, Copy, PartialEq, Eq, Structural)]
pub enum ScriptFlavor {
    /// A POSIX shell.
    Unix,
    /// The Windows command interpreter.
    Windows,
}

/// The path, relative to the installation root, of the base game's server
/// jar.
pub open spec fn server_jar_path() -> Seq<char> {
    "server.jar"@
}

/// `parts`, one after the other, with `separator` between each two.
pub open spec fn joined(parts: Seq<Seq<char>>, separator: char) -> Seq<char>
    decreases parts.len(),
{
    if parts.len() == 0 {
        Seq::empty()
    } else if parts.len() == 1 {
        parts[0]
    } else {
        joined(parts.drop_last(), separator) + seq![separator] + parts.last()
    }
}

/// What separates the entries of a class path.
pub open spec fn path_separator(flavor: ScriptFlavor) -> char {
    match flavor {
        ScriptFlavor::Unix => ':',
        ScriptFlavor::Windows => ';',
    }
}

/// The first line of a launch script, with its line end, where the shell
/// wants one.
pub open spec fn script_head(flavor: ScriptFlavor) -> Seq<char> {
    match flavor {
        ScriptFlavor::Unix => "#!/bin/sh\n"@,
        ScriptFlavor::Windows => Seq::empty(),
    }
}

/// The line end of a launch script.
pub open spec fn line_end(flavor: ScriptFlavor) -> Seq<char> {
    match flavor {
        ScriptFlavor::Unix => "\n"@,
        ScriptFlavor::Windows => "\r\n"@,
    }
}

/// The name of the launch script.
pub open spec fn script_name(flavor: ScriptFlavor) -> Seq<char> {
    match flavor {
        ScriptFlavor::Unix => "start.sh"@,
        ScriptFlavor::Windows => "start.bat"@,
    }
}

/// The text of the launch script: the head, then one line that starts the
/// main class on the class path.
pub open spec fn script_text(flavor: ScriptFlavor, main_class: Seq<char>, classpath: Seq<Seq<char>>) -> Seq<
    char,
> {
    script_head(flavor) + "java -cp \""@ + joined(classpath, path_separator(flavor)) + "\" "@
        + main_class + line_end(flavor)
}

/// The paths of `artifacts`, in their order.
pub open spec fn destinations(artifacts: Seq<ArtifactView>) -> Seq<Seq<char>> {
    artifacts.map_values(|artifact: ArtifactView| artifact.destination_path)
}

/// Whether one of `artifacts` is the base game's server jar.
pub open spec fn brings_server_jar(artifacts: Seq<ArtifactView>) -> bool {
    exists|i: int|
        0 <= i < artifacts.len() && (#[trigger] artifacts[i]).destination_path == server_jar_path()
}

/// The class path of `classpath` joined for `flavor`.
fn join_classpath(flavor: ScriptFlavor, classpath: &Vec<String>) -> (text: String)
    ensures
        text@ == joined(classpath.deep_view(), path_separator(flavor)),
{
    let separator = match flavor {
        ScriptFlavor::Unix => ":",
        ScriptFlavor::Windows => ";",
    };
    proof {
        reveal_strlit(":");
        reveal_strlit(";");
        assert(separator@ =~= seq![path_separator(flavor)]);
    }
    let ghost parts = classpath.deep_view();
    let mut text = String::new();
    let mut i: usize = 0;
    proof {
        assert(parts.take(0) =~= Seq::<Seq<char>>::empty());
    }
    while i < classpath.len()
        invariant
            i <= classpath.len(),
            parts == classpath.deep_view(),
            separator@ == seq![path_separator(flavor)],
            text@ == joined(parts.take(i as int), path_separator(flavor)),
        decreases classpath.len() - i,
    {
        proof {
            let next = parts.take(i + 1);
            assert(next.drop_last() =~= parts.take(i as int));
            assert(next.last() == parts[i as int]);
            assert(parts[i as int] == classpath[i as int]@);
        }
        if i > 0 {
            text.append(separator);
        }
        text.append(classpath[i].as_str());
        proof {
            if i == 0 {
                assert(text@ =~= parts.take(1)[0]);
            }
        }
        i += 1;
    }
    proof {
        assert(parts.take(i as int) =~= parts);
    }
    text
}

/// The text of the launch script that starts `main_class` on `classpath`.
pub fn launch_script(flavor: ScriptFlavor, main_class: &str, classpath: &Vec<String>) -> (text:
    String)
    ensures
        text@ == script_text(flavor, main_class@, classpath.deep_view()),
{
    let mut text = String::new();
    match flavor {
        ScriptFlavor::Unix => {
            text.append("#!/bin/sh\n");
        },
        ScriptFlavor::Windows => {},
    }
    proof {
        assert(text@ =~= script_head(flavor));
    }
    text.append("java -cp \"");
    let joined_paths = join_classpath(flavor, classpath);
    text.append(joined_paths.as_str());
    text.append("\" ");
    text.append(main_class);
    match flavor {
        ScriptFlavor::Unix => {
            text.append("\n");
        },
        ScriptFlavor::Windows => {
            text.append("\r\n");
        },
    }
    text
}

/// What is written for a server.
#[derive(Debug)]
pub struct ServerWritePlan {
    /// Whether the base game's server jar is still to be fetched.
    pub fetch_server_jar: bool,
    /// The launch script, where one is asked for: its name, and its text.
    pub launch_script: Option<(String, String)>,
}

/// The paths of the artifacts of `manifest`, in their order.
pub fn classpath_of(manifest: &InstallManifest) -> (classpath: Vec<String>)
    ensures
        classpath.deep_view() == destinations(manifest@.artifacts),
{
    let artifacts = manifest.artifacts();
    let ghost models = artifacts.deep_view();
    let mut classpath: Vec<String> = Vec::new();
    let mut i: usize = 0;
    while i < artifacts.len()
        invariant
            i <= artifacts.len(),
            models == artifacts.deep_view(),
            classpath.deep_view() == destinations(models.take(i as int)),
        decreases artifacts.len() - i,
    {
        let ghost before = classpath.deep_view();
        classpath.push(artifacts[i].destination_path.clone());
        proof {
            assert(classpath.deep_view() =~= before.push(models[i as int].destination_path));
            assert(models.take(i + 1) =~= models.take(i as int).push(models[i as int]));
            assert(classpath.deep_view() =~= destinations(models.take(i + 1)));
        }
        i += 1;
    }
    proof {
        assert(models.take(i as int) =~= models);
    }
    classpath
}

/// Whether the artifacts of `manifest` bring the base game's server jar.
pub fn has_server_jar(manifest: &InstallManifest) -> (found: bool)
    ensures
        found == brings_server_jar(manifest@.artifacts),
{
    let artifacts = manifest.artifacts();
    let server_jar = "server.jar".to_string();
    let ghost models = artifacts.deep_view();
    let mut i: usize = 0;
    while i < artifacts.len()
        invariant
            i <= artifacts.len(),
            models == artifacts.deep_view(),
            models == manifest@.artifacts,
            server_jar@ == server_jar_path(),
            forall|k: int|
                0 <= k < i ==> (#[trigger] models[k]).destination_path != server_jar_path(),
        decreases artifacts.len() - i,
    {
        if artifacts[i].destination_path == server_jar {
            assert(models[i as int].destination_path == server_jar_path());
            return true;
        }
        assert(models[i as int].destination_path != server_jar_path());
        i += 1;
    }
    false
}

/// What is written for a server that installs `manifest`.
///
/// The server jar is to be fetched exactly when that is asked for and the
/// manifest does not bring it. The launch script is written exactly when it
/// is asked for; it starts the manifest's main class on the paths of its
/// artifacts.
pub fn server_write_plan(
    manifest: &InstallManifest,
    download_base_jar: bool,
    generate_launch_script: bool,
    flavor: ScriptFlavor,
) -> (plan: ServerWritePlan)
    ensures
        plan.fetch_server_jar == (download_base_jar && !brings_server_jar(manifest@.artifacts)),
        plan.launch_script.deep_view() == if generate_launch_script {
            Some(
                (
                    script_name(flavor),
                    script_text(
                        flavor,
                        manifest@.main_class,
                        destinations(manifest@.artifacts),
                    ),
                ),
            )
        } else {
            None
        },
{
    let fetch_server_jar = download_base_jar && !has_server_jar(manifest);
    let launch_script = if generate_launch_script {
        let name = match flavor {
            ScriptFlavor::Unix => "start.sh".to_string(),
            ScriptFlavor::Windows => "start.bat".to_string(),
        };
        let classpath = classpath_of(manifest);
        let text = launch_script(flavor, manifest.main_class().as_str(), &classpath);
        Some((name, text))
    } else {
        None
    };
    ServerWritePlan { fetch_server_jar, launch_script }
}

} // verus!
