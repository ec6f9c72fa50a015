//! The single-form installer window as a state machine: one form for both
//! kinds of installation, with the catalogs, the two locations and the
//! options side by side.
//!
//! As in [`crate::gui`], nothing here draws or does I/O: [`State::update`]
//! says what the caller has to do, and [`State::view`] says what the form
//! shows.
use crate::catalog::{BaseVersion, BaseVersionView, Entry, LoaderVersion, LoaderVersionView};
use crate::error::{CatalogError, InstallError, InstallErrorView};
use crate::install::{
    ClientInstallRequest,
    ClientInstallRequestView,
    Installation,
    ServerInstallRequest,
    ServerInstallRequestView,
};
use crate::selector::{
    contains_entry,
    default_entry,
    default_is_a_release,
    default_model,
    reselect,
    reselected,
    reselection_is_visible,
    visible_means_shown,
    visible_models,
    visible_subset,
};
use vstd::prelude::*;

verus! {

/// The share of an installation that is shown as done before it has ended.
pub const PROGRESS_STARTED: u8 = 0;

/// The share of an installation that is shown as done once it has ended.
pub const PROGRESS_FINISHED: u8 = 100;

/// Something that went wrong and is to be reported.
#[derive(Debug)]
pub enum Failure {
    /// A catalog could not be had.
    Catalog(CatalogError),
    /// An installation failed.
    Install(InstallError),
    /// The directory dialog failed, with what it said of it.
    Dialog(String),
}

/// The model of a [`Failure`].
pub enum FailureView {
    Catalog(CatalogError),
    Install(InstallErrorView),
    Dialog(Seq<char>),
}

impl View for Failure {
    type V = FailureView;

    open spec fn view(&self) -> FailureView {
        match self {
            Failure::Catalog(error) => FailureView::Catalog(*error),
            Failure::Install(error) => FailureView::Install(error@),
            Failure::Dialog(text) => FailureView::Dialog(text@),
        }
    }
}

/// What the user can do to the form.
#[derive(Debug)]
pub enum Interaction {
    /// The client location was typed in.
    ChangeClientLocation(String),
    /// The button beside the client location was pressed.
    BrowseClientLocation,
    /// The install button was pressed.
    Install,
    /// A kind of installation was picked.
    SelectInstallation(Installation),
    /// A loader version was picked.
    SelectLoaderVersion(LoaderVersion),
    /// A base version was picked.
    SelectMcVersion(BaseVersion),
    /// The box "show snapshots" was set or cleared.
    EnableSnapshots(bool),
    /// The box "show betas" was set or cleared.
    EnableBetas(bool),
    /// The box "generate launch script" was set or cleared.
    GenerateLaunchScript(bool),
    /// The box "generate profile" was set or cleared.
    GenerateProfile(bool),
    /// The server location was typed in.
    ChangeServerLocation(String),
    /// The button beside the server location was pressed.
    BrowseServerLocation,
    /// The box "download server jar" was set or cleared.
    DownloadServerJar(bool),
}

impl Clone for Interaction {
    fn clone(&self) -> (copy: Self) {
        match self {
            Interaction::ChangeClientLocation(location) => Interaction::ChangeClientLocation(
                location.clone(),
            ),
            Interaction::BrowseClientLocation => Interaction::BrowseClientLocation,
            Interaction::Install => Interaction::Install,
            Interaction::SelectInstallation(installation) => Interaction::SelectInstallation(
                *installation,
            ),
            Interaction::SelectLoaderVersion(version) => Interaction::SelectLoaderVersion(
                version.clone(),
            ),
            Interaction::SelectMcVersion(version) => Interaction::SelectMcVersion(version.clone()),
            Interaction::EnableSnapshots(enable) => Interaction::EnableSnapshots(*enable),
            Interaction::EnableBetas(enable) => Interaction::EnableBetas(*enable),
            Interaction::GenerateLaunchScript(value) => Interaction::GenerateLaunchScript(*value),
            Interaction::GenerateProfile(value) => Interaction::GenerateProfile(*value),
            Interaction::ChangeServerLocation(location) => Interaction::ChangeServerLocation(
                location.clone(),
            ),
            Interaction::BrowseServerLocation => Interaction::BrowseServerLocation,
            Interaction::DownloadServerJar(value) => Interaction::DownloadServerJar(*value),
        }
    }
}

/// What can happen to the form.
#[derive(Debug)]
pub enum Message {
    /// The user did something.
    Interaction(Interaction),
    /// Start the installation that the form describes.
    Install,
    /// Let the user pick the client location.
    BrowseClientLocation,
    /// Let the user pick the server location.
    BrowseServerLocation,
    /// The catalog of base versions has arrived, or could not be had.
    SetMcVersions(Result<Vec<BaseVersion>, CatalogError>),
    /// The catalog of loader versions has arrived, or could not be had.
    SetLoaderVersions(Result<Vec<LoaderVersion>, CatalogError>),
    /// The installation has ended.
    DoneInstalling(Result<(), InstallError>),
    /// Something went wrong outside the form.
    Error(Failure),
}

/// What the caller has to do after a message.
#[derive(Debug)]
pub enum Command {
    /// Nothing.
    Nothing,
    /// Fetch the two catalogs, each on its own, and answer with
    /// [`Message::SetMcVersions`] and [`Message::SetLoaderVersions`].
    FetchVersions,
    /// Let the user pick the directory for this kind of installation. The
    /// dialog starts at `start` if `probe` is a directory, else at the
    /// working directory if there is one. A choice is answered with the
    /// interaction that changes that location, a failure with
    /// [`Message::Error`].
    PickDirectory { target: Installation, probe: String, start: String },
    /// Carry out this installation and answer with
    /// [`Message::DoneInstalling`].
    InstallClient(ClientInstallRequest),
    /// Carry out this installation and answer with
    /// [`Message::DoneInstalling`].
    InstallServer(ServerInstallRequest),
    /// Report this failure.
    Report(Failure),
}

/// The model of a [`Command`].
pub enum CommandView {
    Nothing,
    FetchVersions,
    PickDirectory { target: Installation, probe: Seq<char>, start: Seq<char> },
    InstallClient(ClientInstallRequestView),
    InstallServer(ServerInstallRequestView),
    Report(FailureView),
}

impl View for Command {
    type V = CommandView;

    open spec fn view(&self) -> CommandView {
        match self {
            Command::Nothing => CommandView::Nothing,
            Command::FetchVersions => CommandView::FetchVersions,
            Command::PickDirectory { target, probe, start } => CommandView::PickDirectory {
                target: *target,
                probe: probe@,
                start: start@,
            },
            Command::InstallClient(request) => CommandView::InstallClient(request@),
            Command::InstallServer(request) => CommandView::InstallServer(request@),
            Command::Report(failure) => CommandView::Report(failure@),
        }
    }
}

/// The state of the form.
#[derive(Debug)]
pub struct State {
    minecraft_versions: Vec<BaseVersion>,
    selected_minecraft_version: Option<BaseVersion>,
    show_snapshots: bool,
    loader_versions: Vec<LoaderVersion>,
    selected_loader_version: Option<LoaderVersion>,
    show_betas: bool,
    selected_installation: Installation,
    client_location: String,
    generate_profile: bool,
    server_location: String,
    download_server_jar: bool,
    generate_launch_script: bool,
    is_installing: bool,
    progress: u8,
}

/// The model of a [`State`].
pub struct StateModel {
    /// The catalog of base versions, in the feed's order.
    pub minecraft_versions: Seq<BaseVersionView>,
    /// The base version that is selected, if any.
    pub selected_minecraft_version: Option<BaseVersionView>,
    /// Whether snapshots are listed.
    pub show_snapshots: bool,
    /// The catalog of loader versions, in the feed's order.
    pub loader_versions: Seq<LoaderVersionView>,
    /// The loader version that is selected, if any.
    pub selected_loader_version: Option<LoaderVersionView>,
    /// Whether beta builds are listed.
    pub show_betas: bool,
    /// The kind of installation that is selected.
    pub selected_installation: Installation,
    /// The directory of a client installation.
    pub client_location: Seq<char>,
    /// Whether a launcher profile is to be generated.
    pub generate_profile: bool,
    /// The directory of a server installation.
    pub server_location: Seq<char>,
    /// Whether the base game's server jar is to be fetched.
    pub download_server_jar: bool,
    /// Whether a launch script is to be written.
    pub generate_launch_script: bool,
    /// Whether an installation is under way.
    pub is_installing: bool,
    /// The share of the installation that is shown as done, in hundredths.
    pub progress: u8,
}

impl State {
    /// The model of this state.
    pub closed spec fn model(&self) -> StateModel {
        StateModel {
            minecraft_versions: self.minecraft_versions.deep_view(),
            selected_minecraft_version: self.selected_minecraft_version.deep_view(),
            show_snapshots: self.show_snapshots,
            loader_versions: self.loader_versions.deep_view(),
            selected_loader_version: self.selected_loader_version.deep_view(),
            show_betas: self.show_betas,
            selected_installation: self.selected_installation,
            client_location: self.client_location@,
            generate_profile: self.generate_profile,
            server_location: self.server_location@,
            download_server_jar: self.download_server_jar,
            generate_launch_script: self.generate_launch_script,
            is_installing: self.is_installing,
            progress: self.progress,
        }
    }
}

/// What the form shows.
#[derive(Debug)]
pub struct Form {
    /// The kinds of installation on offer.
    pub installations: Vec<Installation>,
    /// The kind that is selected. It decides which location and which
    /// options are shown.
    pub selected_installation: Installation,
    /// The base versions on offer: those of the catalog that are visible.
    pub minecraft_versions: Vec<BaseVersion>,
    /// The base version that is selected.
    pub selected_minecraft_version: Option<BaseVersion>,
    /// The state of the box "show snapshots".
    pub show_snapshots: bool,
    /// The loader versions on offer: those of the catalog that are visible.
    pub loader_versions: Vec<LoaderVersion>,
    /// The loader version that is selected.
    pub selected_loader_version: Option<LoaderVersion>,
    /// The state of the box "show betas".
    pub show_betas: bool,
    /// The directory of a client installation.
    pub client_location: String,
    /// The state of the box "generate profile".
    pub generate_profile: bool,
    /// The directory of a server installation.
    pub server_location: String,
    /// The state of the box "download server jar".
    pub download_server_jar: bool,
    /// The state of the box "generate launch script".
    pub generate_launch_script: bool,
    /// Whether the install button can be pressed.
    pub install_enabled: bool,
    /// The share of the installation that the bar shows as done, in
    /// hundredths.
    pub progress: u8,
}

/// The model of a [`Form`].
pub struct FormView {
    pub installations: Seq<Installation>,
    pub selected_installation: Installation,
    pub minecraft_versions: Seq<BaseVersionView>,
    pub selected_minecraft_version: Option<BaseVersionView>,
    pub show_snapshots: bool,
    pub loader_versions: Seq<LoaderVersionView>,
    pub selected_loader_version: Option<LoaderVersionView>,
    pub show_betas: bool,
    pub client_location: Seq<char>,
    pub generate_profile: bool,
    pub server_location: Seq<char>,
    pub download_server_jar: bool,
    pub generate_launch_script: bool,
    pub install_enabled: bool,
    pub progress: u8,
}

impl View for Form {
    type V = FormView;

    open spec fn view(&self) -> FormView {
        FormView {
            installations: self.installations@,
            selected_installation: self.selected_installation,
            minecraft_versions: self.minecraft_versions.deep_view(),
            selected_minecraft_version: self.selected_minecraft_version.deep_view(),
            show_snapshots: self.show_snapshots,
            loader_versions: self.loader_versions.deep_view(),
            selected_loader_version: self.selected_loader_version.deep_view(),
            show_betas: self.show_betas,
            client_location: self.client_location@,
            generate_profile: self.generate_profile,
            server_location: self.server_location@,
            download_server_jar: self.download_server_jar,
            generate_launch_script: self.generate_launch_script,
            install_enabled: self.install_enabled,
            progress: self.progress,
        }
    }
}

/// The form as it opens: a client installation, empty catalogs, nothing
/// selected, pre-releases hidden, every option set.
pub open spec fn initial(client_location: Seq<char>, server_location: Seq<char>) -> StateModel {
    StateModel {
        minecraft_versions: Seq::empty(),
        selected_minecraft_version: None,
        show_snapshots: false,
        loader_versions: Seq::empty(),
        selected_loader_version: None,
        show_betas: false,
        selected_installation: Installation::Client,
        client_location,
        generate_profile: true,
        server_location,
        download_server_jar: true,
        generate_launch_script: true,
        is_installing: false,
        progress: PROGRESS_STARTED,
    }
}

/// The base versions that the form offers.
pub open spec fn offered_minecraft_versions(state: StateModel) -> Seq<BaseVersionView> {
    visible_models::<BaseVersion>(state.minecraft_versions, state.show_snapshots)
}

/// The loader versions that the form offers.
pub open spec fn offered_loader_versions(state: StateModel) -> Seq<LoaderVersionView> {
    visible_models::<LoaderVersion>(state.loader_versions, state.show_betas)
}

/// The selection once `catalog` has replaced the catalog held: a selection
/// that the new catalog still offers stays, any other gives way to the
/// default of what is offered, and where nothing was selected the catalog's
/// default is.
pub open spec fn selection_in_new_catalog<E: Entry>(
    selected: Option<E::V>,
    catalog: Seq<E::V>,
    show_prerelease: bool,
) -> Option<E::V> {
    match selected {
        None => default_model::<E>(catalog),
        Some(_) => reselected::<E>(selected, visible_models::<E>(catalog, show_prerelease)),
    }
}

/// The client installation that the form describes.
pub open spec fn requested_client(state: StateModel) -> ClientInstallRequestView {
    ClientInstallRequestView {
        base_version: state.selected_minecraft_version,
        loader_version: state.selected_loader_version,
        install_root: state.client_location,
        generate_profile: state.generate_profile,
    }
}

/// The server installation that the form describes.
pub open spec fn requested_server(state: StateModel) -> ServerInstallRequestView {
    ServerInstallRequestView {
        base_version: state.selected_minecraft_version,
        loader_version: state.selected_loader_version,
        install_root: state.server_location,
        download_base_jar: state.download_server_jar,
        generate_launch_script: state.generate_launch_script,
    }
}

/// The state and the command that follow the start of an installation: the
/// form is marked as installing with nothing done yet, and the request goes
/// out as it stands. Whether it names both versions is for the installation
/// to judge, before it does anything else.
pub open spec fn start_install(state: StateModel) -> (StateModel, CommandView) {
    (
        StateModel { is_installing: true, progress: PROGRESS_STARTED, ..state },
        match state.selected_installation {
            Installation::Client => CommandView::InstallClient(requested_client(state)),
            Installation::Server => CommandView::InstallServer(requested_server(state)),
        },
    )
}

/// The command that lets the user pick the client location.
pub open spec fn browse_client(state: StateModel) -> CommandView {
    CommandView::PickDirectory {
        target: Installation::Client,
        probe: state.client_location,
        start: state.client_location,
    }
}

/// The command that lets the user pick the server location. The dialog
/// starts there if the client location is a directory.
pub open spec fn browse_server(state: StateModel) -> CommandView {
    CommandView::PickDirectory {
        target: Installation::Server,
        probe: state.client_location,
        start: state.server_location,
    }
}

/// The state that follows `state` when the user does `interaction`, and the
/// command that goes with it.
pub open spec fn interact(state: StateModel, interaction: Interaction) -> (
    StateModel,
    CommandView,
) {
    match interaction {
        Interaction::ChangeClientLocation(location) => (
            StateModel { client_location: location@, ..state },
            CommandView::Nothing,
        ),
        Interaction::BrowseClientLocation => (state, browse_client(state)),
        Interaction::Install => start_install(state),
        Interaction::SelectInstallation(installation) => (
            StateModel { selected_installation: installation, ..state },
            CommandView::Nothing,
        ),
        Interaction::SelectLoaderVersion(version) => (
            if offered_loader_versions(state).contains(version@) {
                StateModel { selected_loader_version: Some(version@), ..state }
            } else {
                state
            },
            CommandView::Nothing,
        ),
        Interaction::SelectMcVersion(version) => (
            if offered_minecraft_versions(state).contains(version@) {
                StateModel { selected_minecraft_version: Some(version@), ..state }
            } else {
                state
            },
            CommandView::Nothing,
        ),
        Interaction::EnableSnapshots(enable) => (
            StateModel {
                show_snapshots: enable,
                selected_minecraft_version: reselected::<BaseVersion>(
                    state.selected_minecraft_version,
                    visible_models::<BaseVersion>(state.minecraft_versions, enable),
                ),
                ..state
            },
            CommandView::Nothing,
        ),
        Interaction::EnableBetas(enable) => (
            StateModel {
                show_betas: enable,
                selected_loader_version: reselected::<LoaderVersion>(
                    state.selected_loader_version,
                    visible_models::<LoaderVersion>(state.loader_versions, enable),
                ),
                ..state
            },
            CommandView::Nothing,
        ),
        Interaction::GenerateLaunchScript(value) => (
            StateModel { generate_launch_script: value, ..state },
            CommandView::Nothing,
        ),
        Interaction::GenerateProfile(value) => (
            StateModel { generate_profile: value, ..state },
            CommandView::Nothing,
        ),
        Interaction::ChangeServerLocation(location) => (
            StateModel { server_location: location@, ..state },
            CommandView::Nothing,
        ),
        Interaction::BrowseServerLocation => (state, browse_server(state)),
        Interaction::DownloadServerJar(value) => (
            StateModel { download_server_jar: value, ..state },
            CommandView::Nothing,
        ),
    }
}

/// The state that follows `state` on `message`, and the command that goes
/// with it.
///
/// - A catalog that arrives replaces the one held; see
///   [`selection_in_new_catalog`] for the selection. One that could not be
///   had changes nothing and is reported.
/// - The end of an installation clears the mark, fills the bar, and reports
///   the failure if there was one.
pub open spec fn step(state: StateModel, message: Message) -> (StateModel, CommandView) {
    match message {
        Message::Interaction(interaction) => interact(state, interaction),
        Message::Install => start_install(state),
        Message::BrowseClientLocation => (state, browse_client(state)),
        Message::BrowseServerLocation => (state, browse_server(state)),
        Message::SetMcVersions(result) => match result {
            Ok(versions) => (
                StateModel {
                    minecraft_versions: versions.deep_view(),
                    selected_minecraft_version: selection_in_new_catalog::<BaseVersion>(
                        state.selected_minecraft_version,
                        versions.deep_view(),
                        state.show_snapshots,
                    ),
                    ..state
                },
                CommandView::Nothing,
            ),
            Err(error) => (state, CommandView::Report(FailureView::Catalog(error))),
        },
        Message::SetLoaderVersions(result) => match result {
            Ok(versions) => (
                StateModel {
                    loader_versions: versions.deep_view(),
                    selected_loader_version: selection_in_new_catalog::<LoaderVersion>(
                        state.selected_loader_version,
                        versions.deep_view(),
                        state.show_betas,
                    ),
                    ..state
                },
                CommandView::Nothing,
            ),
            Err(error) => (state, CommandView::Report(FailureView::Catalog(error))),
        },
        Message::DoneInstalling(result) => (
            StateModel { is_installing: false, progress: PROGRESS_FINISHED, ..state },
            match result {
                Ok(_) => CommandView::Nothing,
                Err(error) => CommandView::Report(FailureView::Install(error@)),
            },
        ),
        Message::Error(failure) => (state, CommandView::Report(failure@)),
    }
}

/// What the form shows in `state`.
pub open spec fn form(state: StateModel) -> FormView {
    FormView {
        installations: seq![Installation::Client, Installation::Server],
        selected_installation: state.selected_installation,
        minecraft_versions: offered_minecraft_versions(state),
        selected_minecraft_version: state.selected_minecraft_version,
        show_snapshots: state.show_snapshots,
        loader_versions: offered_loader_versions(state),
        selected_loader_version: state.selected_loader_version,
        show_betas: state.show_betas,
        client_location: state.client_location,
        generate_profile: state.generate_profile,
        server_location: state.server_location,
        download_server_jar: state.download_server_jar,
        generate_launch_script: state.generate_launch_script,
        install_enabled: !state.is_installing,
        progress: state.progress,
    }
}

/// Whether each selection of `state` is among the versions that the form
/// offers.
pub open spec fn selection_is_offered(state: StateModel) -> bool {
    &&& state.selected_minecraft_version matches Some(version) ==> offered_minecraft_versions(
        state,
    ).contains(version)
    &&& state.selected_loader_version matches Some(version) ==> offered_loader_versions(
        state,
    ).contains(version)
}

/// Whatever was selected, the selection in a new catalog is none or an entry
/// that the new catalog offers.
pub proof fn selection_in_new_catalog_is_offered<E: Entry>(
    selected: Option<E::V>,
    catalog: Seq<E::V>,
    show_prerelease: bool,
)
    ensures
        selection_in_new_catalog::<E>(selected, catalog, show_prerelease) matches Some(model)
            ==> visible_models::<E>(catalog, show_prerelease).contains(model),
{
    let visible = visible_models::<E>(catalog, show_prerelease);
    match selected {
        None => {
            default_is_a_release::<E>(catalog);
            match default_model::<E>(catalog) {
                Some(chosen) => {
                    visible_means_shown::<E>(catalog, show_prerelease, chosen);
                },
                None => {},
            }
        },
        Some(_) => {
            reselection_is_visible::<E>(selected, visible);
        },
    }
}

/// The form opens with every selection among the versions on offer.
pub proof fn initial_selection_is_offered(client_location: Seq<char>, server_location: Seq<char>)
    ensures
        selection_is_offered(initial(client_location, server_location)),
{
}

/// No message takes a selection out of the versions on offer.
pub proof fn step_keeps_selection_offered(state: StateModel, message: Message)
    requires
        selection_is_offered(state),
    ensures
        selection_is_offered(step(state, message).0),
{
    match message {
        Message::Interaction(interaction) => match interaction {
            Interaction::EnableSnapshots(enable) => {
                reselection_is_visible::<BaseVersion>(
                    state.selected_minecraft_version,
                    visible_models::<BaseVersion>(state.minecraft_versions, enable),
                );
            },
            Interaction::EnableBetas(enable) => {
                reselection_is_visible::<LoaderVersion>(
                    state.selected_loader_version,
                    visible_models::<LoaderVersion>(state.loader_versions, enable),
                );
            },
            _ => {},
        },
        Message::SetMcVersions(result) => match result {
            Ok(versions) => {
                selection_in_new_catalog_is_offered::<BaseVersion>(
                    state.selected_minecraft_version,
                    versions.deep_view(),
                    state.show_snapshots,
                );
            },
            Err(_) => {},
        },
        Message::SetLoaderVersions(result) => match result {
            Ok(versions) => {
                selection_in_new_catalog_is_offered::<LoaderVersion>(
                    state.selected_loader_version,
                    versions.deep_view(),
                    state.show_betas,
                );
            },
            Err(_) => {},
        },
        _ => {},
    }
}

/// Setting or clearing a visibility flag never leaves a selection outside
/// what the form then offers, whatever was selected before.
pub proof fn toggle_leaves_selection_offered(state: StateModel, enable: bool)
    ensures
        ({
            let next = interact(state, Interaction::EnableSnapshots(enable)).0;
            next.selected_minecraft_version matches Some(version) ==> offered_minecraft_versions(
                next,
            ).contains(version)
        }),
        ({
            let next = interact(state, Interaction::EnableBetas(enable)).0;
            next.selected_loader_version matches Some(version) ==> offered_loader_versions(
                next,
            ).contains(version)
        }),
{
    reselection_is_visible::<BaseVersion>(
        state.selected_minecraft_version,
        visible_models::<BaseVersion>(state.minecraft_versions, enable),
    );
    reselection_is_visible::<LoaderVersion>(
        state.selected_loader_version,
        visible_models::<LoaderVersion>(state.loader_versions, enable),
    );
}

/// The selection once `catalog` has replaced the catalog held.
fn select_in_new_catalog<E: Entry>(selected: Option<E>, catalog: &Vec<E>, show_prerelease: bool) -> (kept:
    Option<E>)
    ensures
        kept.deep_view() == selection_in_new_catalog::<E>(
            selected.deep_view(),
            catalog.deep_view(),
            show_prerelease,
        ),
{
    match selected {
        None => default_entry(catalog),
        Some(entry) => {
            let visible = visible_subset(catalog, show_prerelease);
            reselect(Some(entry), &visible)
        },
    }
}

impl State {
    /// The form as it opens, with the two locations to start from, and the
    /// command to fetch the two catalogs.
    pub fn new(client_location: String, server_location: String) -> (start: (State, Command))
        ensures
            start.0.model() == initial(client_location@, server_location@),
            start.1@ == CommandView::FetchVersions,
    {
        let state = State {
            minecraft_versions: Vec::new(),
            selected_minecraft_version: None,
            show_snapshots: false,
            loader_versions: Vec::new(),
            selected_loader_version: None,
            show_betas: false,
            selected_installation: Installation::Client,
            client_location,
            generate_profile: true,
            server_location,
            download_server_jar: true,
            generate_launch_script: true,
            is_installing: false,
            progress: PROGRESS_STARTED,
        };
        proof {
            assert(state.minecraft_versions.deep_view() =~= Seq::<BaseVersionView>::empty());
            assert(state.loader_versions.deep_view() =~= Seq::<LoaderVersionView>::empty());
        }
        (state, Command::FetchVersions)
    }

    /// The title of the window.
    pub fn title(&self) -> (title: String)
        ensures
            title@ == "Quilt Installer"@,
    {
        "Quilt Installer".to_string()
    }

    /// Marks the form as installing and hands out the request.
    fn install(&mut self) -> (command: Command)
        ensures
            (final(self).model(), command@) == start_install(old(self).model()),
    {
        self.is_installing = true;
        self.progress = PROGRESS_STARTED;
        match self.selected_installation {
            Installation::Client => Command::InstallClient(
                ClientInstallRequest {
                    base_version: self.selected_minecraft_version.clone(),
                    loader_version: self.selected_loader_version.clone(),
                    install_root: self.client_location.clone(),
                    generate_profile: self.generate_profile,
                },
            ),
            Installation::Server => Command::InstallServer(
                ServerInstallRequest {
                    base_version: self.selected_minecraft_version.clone(),
                    loader_version: self.selected_loader_version.clone(),
                    install_root: self.server_location.clone(),
                    download_base_jar: self.download_server_jar,
                    generate_launch_script: self.generate_launch_script,
                },
            ),
        }
    }

    /// The command that lets the user pick the client location.
    fn pick_client_location(&self) -> (command: Command)
        ensures
            command@ == browse_client(self.model()),
    {
        Command::PickDirectory {
            target: Installation::Client,
            probe: self.client_location.clone(),
            start: self.client_location.clone(),
        }
    }

    /// The command that lets the user pick the server location.
    fn pick_server_location(&self) -> (command: Command)
        ensures
            command@ == browse_server(self.model()),
    {
        Command::PickDirectory {
            target: Installation::Server,
            probe: self.client_location.clone(),
            start: self.server_location.clone(),
        }
    }

    /// Takes in what the user did.
    fn interaction(&mut self, interaction: Interaction) -> (command: Command)
        ensures
            (final(self).model(), command@) == interact(old(self).model(), interaction),
    {
        match interaction {
            Interaction::ChangeClientLocation(location) => {
                self.client_location = location;
                Command::Nothing
            },
            Interaction::BrowseClientLocation => self.pick_client_location(),
            Interaction::Install => self.install(),
            Interaction::SelectInstallation(installation) => {
                self.selected_installation = installation;
                Command::Nothing
            },
            Interaction::SelectLoaderVersion(version) => {
                proof {
                    visible_means_shown::<LoaderVersion>(
                        self.loader_versions.deep_view(),
                        self.show_betas,
                        version@,
                    );
                }
                if (self.show_betas || !version.is_prerelease()) && contains_entry(
                    &self.loader_versions,
                    &version,
                ) {
                    self.selected_loader_version = Some(version);
                }
                Command::Nothing
            },
            Interaction::SelectMcVersion(version) => {
                proof {
                    visible_means_shown::<BaseVersion>(
                        self.minecraft_versions.deep_view(),
                        self.show_snapshots,
                        version@,
                    );
                }
                if (self.show_snapshots || !version.is_prerelease()) && contains_entry(
                    &self.minecraft_versions,
                    &version,
                ) {
                    self.selected_minecraft_version = Some(version);
                }
                Command::Nothing
            },
            Interaction::EnableSnapshots(enable) => {
                self.show_snapshots = enable;
                let visible = visible_subset(&self.minecraft_versions, enable);
                let selected = self.selected_minecraft_version.take();
                self.selected_minecraft_version = reselect(selected, &visible);
                Command::Nothing
            },
            Interaction::EnableBetas(enable) => {
                self.show_betas = enable;
                let visible = visible_subset(&self.loader_versions, enable);
                let selected = self.selected_loader_version.take();
                self.selected_loader_version = reselect(selected, &visible);
                Command::Nothing
            },
            Interaction::GenerateLaunchScript(value) => {
                self.generate_launch_script = value;
                Command::Nothing
            },
            Interaction::GenerateProfile(value) => {
                self.generate_profile = value;
                Command::Nothing
            },
            Interaction::ChangeServerLocation(location) => {
                self.server_location = location;
                Command::Nothing
            },
            Interaction::BrowseServerLocation => self.pick_server_location(),
            Interaction::DownloadServerJar(value) => {
                self.download_server_jar = value;
                Command::Nothing
            },
        }
    }

    /// Takes `message` in: the state becomes what [`step`] says, and the
    /// command that [`step`] gives is returned for the caller to carry out.
    pub fn update(&mut self, message: Message) -> (command: Command)
        ensures
            (final(self).model(), command@) == step(old(self).model(), message),
            selection_is_offered(old(self).model()) ==> selection_is_offered(final(self).model()),
    {
        proof {
            if selection_is_offered(self.model()) {
                step_keeps_selection_offered(self.model(), message);
            }
        }
        match message {
            Message::Interaction(interaction) => self.interaction(interaction),
            Message::Install => self.install(),
            Message::BrowseClientLocation => self.pick_client_location(),
            Message::BrowseServerLocation => self.pick_server_location(),
            Message::SetMcVersions(result) => match result {
                Ok(versions) => {
                    let selected = self.selected_minecraft_version.take();
                    self.selected_minecraft_version = select_in_new_catalog(
                        selected,
                        &versions,
                        self.show_snapshots,
                    );
                    self.minecraft_versions = versions;
                    Command::Nothing
                },
                Err(error) => Command::Report(Failure::Catalog(error)),
            },
            Message::SetLoaderVersions(result) => match result {
                Ok(versions) => {
                    let selected = self.selected_loader_version.take();
                    self.selected_loader_version = select_in_new_catalog(
                        selected,
                        &versions,
                        self.show_betas,
                    );
                    self.loader_versions = versions;
                    Command::Nothing
                },
                Err(error) => Command::Report(Failure::Catalog(error)),
            },
            Message::DoneInstalling(result) => {
                self.is_installing = false;
                self.progress = PROGRESS_FINISHED;
                match result {
                    Ok(_) => Command::Nothing,
                    Err(error) => Command::Report(Failure::Install(error)),
                }
            },
            Message::Error(failure) => Command::Report(failure),
        }
    }

    /// What the form shows.
    pub fn view(&self) -> (shown: Form)
        ensures
            shown@ == form(self.model()),
    {
        Form {
            installations: Installation::all(),
            selected_installation: self.selected_installation,
            minecraft_versions: visible_subset(&self.minecraft_versions, self.show_snapshots),
            selected_minecraft_version: self.selected_minecraft_version.clone(),
            show_snapshots: self.show_snapshots,
            loader_versions: visible_subset(&self.loader_versions, self.show_betas),
            selected_loader_version: self.selected_loader_version.clone(),
            show_betas: self.show_betas,
            client_location: self.client_location.clone(),
            generate_profile: self.generate_profile,
            server_location: self.server_location.clone(),
            download_server_jar: self.download_server_jar,
            generate_launch_script: self.generate_launch_script,
            install_enabled: !self.is_installing,
            progress: self.progress,
        }
    }
}

} // verus!
