//! The installer window as a state machine: what it holds, how each message
//! changes it, what it asks the outside world to do, and what it shows.
//!
//! Nothing here draws, fetches or opens a dialog. [`Installer::update`] takes
//! a message and says which [`Command`] the caller has to carry out; the
//! caller hands back what came of it as a further message.
//! [`Installer::view`] says what is on the screen, as plain values.
use crate::catalog::{BaseVersion, BaseVersionView, Entry, LoaderVersion, LoaderVersionView};
use crate::install::{ClientInstallRequest, ClientInstallRequestView};
use crate::selector::{
    contains_entry,
    default_base_version,
    default_is_a_release,
    default_loader_version,
    default_model,
    reselect,
    reselected,
    reselection_is_visible,
    shown,
    visible_means_shown,
    visible_models,
    visible_subset,
};
use vstd::prelude::*;

verus! {

/// The pages of the window.
#[derive(Debug, Clone, Copy, PartialEq, Eq, Structural)]
pub enum Page {
    /// The entry page.
    Main,
    /// Shown in place of the client page until the base versions are there.
    ClientInstallLoading,
    /// The form for a client installation.
    ClientInstall,
    /// The page for a server download.
    ServerDownload,
}

/// What can happen to the window.
#[derive(Debug)]
pub enum Message {
    /// Go to a page.
    UpdatePage(Page),
    /// The client installation was asked for.
    EnterClientInstall,
    /// Fetch both catalogs again.
    Retry,
    /// The catalog of base versions has arrived.
    SetMinecraftVersions(Vec<BaseVersion>),
    /// The catalog of base versions could not be had.
    FailMinecraftVersions,
    /// A base version was picked from the list.
    SelectMinecraftVersion(BaseVersion),
    /// The catalog of loader versions has arrived.
    SetLoaderVersions(Vec<LoaderVersion>),
    /// The catalog of loader versions could not be had.
    FailLoaderVersions,
    /// A loader version was picked from the list.
    SelectLoaderVersion(LoaderVersion),
    /// The button that changes the directory was pressed.
    DirectoryInputChangeButtonPressed,
    /// The directory dialog was closed, with the directory that was chosen
    /// or with none.
    DirectoryPicked(Option<String>),
    /// The box "show snapshots" was set or cleared.
    ShowMinecraftSnapshotsCheckmarkChanged(bool),
    /// The box "show loader betas" was set or cleared.
    ShowLoaderBetasCheckmarkChanged(bool),
    /// The box "create profile" was set or cleared.
    CreateProfileCheckmarkChanged(bool),
    /// The install button was pressed.
    Install,
    /// The installation has ended.
    InstallationDone,
}

impl Clone for Message {
    fn clone(&self) -> (copy: Self) {
        match self {
            Message::UpdatePage(page) => Message::UpdatePage(*page),
            Message::EnterClientInstall => Message::EnterClientInstall,
            Message::Retry => Message::Retry,
            Message::SetMinecraftVersions(versions) => Message::SetMinecraftVersions(
                versions.clone(),
            ),
            Message::FailMinecraftVersions => Message::FailMinecraftVersions,
            Message::SelectMinecraftVersion(version) => Message::SelectMinecraftVersion(
                version.clone(),
            ),
            Message::SetLoaderVersions(versions) => Message::SetLoaderVersions(versions.clone()),
            Message::FailLoaderVersions => Message::FailLoaderVersions,
            Message::SelectLoaderVersion(version) => Message::SelectLoaderVersion(version.clone()),
            Message::DirectoryInputChangeButtonPressed => Message::DirectoryInputChangeButtonPressed,
            Message::DirectoryPicked(choice) => Message::DirectoryPicked(choice.clone()),
            Message::ShowMinecraftSnapshotsCheckmarkChanged(show) => {
                Message::ShowMinecraftSnapshotsCheckmarkChanged(*show)
            },
            Message::ShowLoaderBetasCheckmarkChanged(show) => {
                Message::ShowLoaderBetasCheckmarkChanged(*show)
            },
            Message::CreateProfileCheckmarkChanged(create) => {
                Message::CreateProfileCheckmarkChanged(*create)
            },
            Message::Install => Message::Install,
            Message::InstallationDone => Message::InstallationDone,
        }
    }
}

/// What the caller has to do after a message.
#[derive(Debug)]
pub enum Command {
    /// Nothing.
    Nothing,
    /// Fetch the two catalogs, each on its own, and answer each with its
    /// `Set…Versions` or `Fail…Versions` message.
    FetchVersions,
    /// Let the user pick a directory, starting at `start` if that is one, and
    /// answer with [`Message::DirectoryPicked`].
    PickDirectory { start: String },
    /// Carry out this installation and answer with
    /// [`Message::InstallationDone`].
    InstallClient(ClientInstallRequest),
}

/// The model of a [`Command`].
pub enum CommandView {
    Nothing,
    FetchVersions,
    PickDirectory { start: Seq<char> },
    InstallClient(ClientInstallRequestView),
}

impl View for Command {
    type V = CommandView;

    open spec fn view(&self) -> CommandView {
        match self {
            Command::Nothing => CommandView::Nothing,
            Command::FetchVersions => CommandView::FetchVersions,
            Command::PickDirectory { start } => CommandView::PickDirectory { start: start@ },
            Command::InstallClient(request) => CommandView::InstallClient(request@),
        }
    }
}

/// The state of the installer window.
#[derive(Debug)]
pub struct Installer {
    page: Page,
    have_minecraft_versions_loaded: Option<bool>,
    minecraft_versions: Vec<BaseVersion>,
    selected_minecraft_version: Option<BaseVersion>,
    show_minecraft_snapshots: bool,
    have_loader_versions_loaded: Option<bool>,
    loader_versions: Vec<LoaderVersion>,
    selected_loader_version: Option<LoaderVersion>,
    show_loader_betas: bool,
    directory: String,
    create_profile: bool,
    is_installing: bool,
}

/// The model of an [`Installer`].
pub struct InstallerModel {
    /// The page that is shown.
    pub page: Page,
    /// `None` while the base versions are being fetched, then whether they
    /// arrived.
    pub have_minecraft_versions_loaded: Option<bool>,
    /// The catalog of base versions, in the feed's order.
    pub minecraft_versions: Seq<BaseVersionView>,
    /// The base version that is selected, if any.
    pub selected_minecraft_version: Option<BaseVersionView>,
    /// Whether snapshots are listed.
    pub show_minecraft_snapshots: bool,
    /// `None` while the loader versions are being fetched.
    pub have_loader_versions_loaded: Option<bool>,
    /// The catalog of loader versions, in the feed's order.
    pub loader_versions: Seq<LoaderVersionView>,
    /// The loader version that is selected, if any.
    pub selected_loader_version: Option<LoaderVersionView>,
    /// Whether beta builds are listed.
    pub show_loader_betas: bool,
    /// The directory to install into.
    pub directory: Seq<char>,
    /// Whether a launcher profile is to be created.
    pub create_profile: bool,
    /// Whether an installation is under way.
    pub is_installing: bool,
}

impl Installer {
    /// The model of this state.
    pub closed spec fn model(&self) -> InstallerModel {
        InstallerModel {
            page: self.page,
            have_minecraft_versions_loaded: self.have_minecraft_versions_loaded,
            minecraft_versions: self.minecraft_versions.deep_view(),
            selected_minecraft_version: self.selected_minecraft_version.deep_view(),
            show_minecraft_snapshots: self.show_minecraft_snapshots,
            have_loader_versions_loaded: self.have_loader_versions_loaded,
            loader_versions: self.loader_versions.deep_view(),
            selected_loader_version: self.selected_loader_version.deep_view(),
            show_loader_betas: self.show_loader_betas,
            directory: self.directory@,
            create_profile: self.create_profile,
            is_installing: self.is_installing,
        }
    }
}

/// What the form for a client installation shows.
#[derive(Debug)]
pub struct ClientInstallForm {
    /// The base versions on offer: those of the catalog that are visible.
    pub minecraft_versions: Vec<BaseVersion>,
    /// The base version that is selected.
    pub selected_minecraft_version: Option<BaseVersion>,
    /// The loader versions on offer: those of the catalog that are visible.
    pub loader_versions: Vec<LoaderVersion>,
    /// The loader version that is selected.
    pub selected_loader_version: Option<LoaderVersion>,
    /// The directory to install into.
    pub directory: String,
    /// The state of the box "show snapshots".
    pub show_minecraft_snapshots: bool,
    /// The state of the box "show loader betas".
    pub show_loader_betas: bool,
    /// The state of the box "create profile".
    pub create_profile: bool,
    /// Whether the note that an installation is under way is shown.
    pub is_installing: bool,
}

/// The model of a [`ClientInstallForm`].
pub struct ClientInstallFormView {
    pub minecraft_versions: Seq<BaseVersionView>,
    pub selected_minecraft_version: Option<BaseVersionView>,
    pub loader_versions: Seq<LoaderVersionView>,
    pub selected_loader_version: Option<LoaderVersionView>,
    pub directory: Seq<char>,
    pub show_minecraft_snapshots: bool,
    pub show_loader_betas: bool,
    pub create_profile: bool,
    pub is_installing: bool,
}

impl View for ClientInstallForm {
    type V = ClientInstallFormView;

    open spec fn view(&self) -> ClientInstallFormView {
        ClientInstallFormView {
            minecraft_versions: self.minecraft_versions.deep_view(),
            selected_minecraft_version: self.selected_minecraft_version.deep_view(),
            loader_versions: self.loader_versions.deep_view(),
            selected_loader_version: self.selected_loader_version.deep_view(),
            directory: self.directory@,
            show_minecraft_snapshots: self.show_minecraft_snapshots,
            show_loader_betas: self.show_loader_betas,
            create_profile: self.create_profile,
            is_installing: self.is_installing,
        }
    }
}

/// What is on the screen, below the banner.
#[derive(Debug)]
pub enum Screen {
    /// The greeting, and the button that leads to the client installation.
    Main,
    /// The note that the catalogs are loading.
    Loading,
    /// The note that loading failed, and the button to try again.
    LoadFailed,
    /// The form for a client installation.
    ClientInstall(ClientInstallForm),
    /// The page for a server download, which shows nothing.
    ServerDownload,
}

/// The model of a [`Screen`].
pub enum ScreenView {
    Main,
    Loading,
    LoadFailed,
    ClientInstall(ClientInstallFormView),
    ServerDownload,
}

impl View for Screen {
    type V = ScreenView;

    open spec fn view(&self) -> ScreenView {
        match self {
            Screen::Main => ScreenView::Main,
            Screen::Loading => ScreenView::Loading,
            Screen::LoadFailed => ScreenView::LoadFailed,
            Screen::ClientInstall(form) => ScreenView::ClientInstall(form@),
            Screen::ServerDownload => ScreenView::ServerDownload,
        }
    }
}

/// The window as it opens: on the entry page, with empty catalogs, nothing
/// selected, pre-releases hidden, and a profile to be created.
pub open spec fn initial(directory: Seq<char>) -> InstallerModel {
    InstallerModel {
        page: Page::Main,
        have_minecraft_versions_loaded: None,
        minecraft_versions: Seq::empty(),
        selected_minecraft_version: None,
        show_minecraft_snapshots: false,
        have_loader_versions_loaded: None,
        loader_versions: Seq::empty(),
        selected_loader_version: None,
        show_loader_betas: false,
        directory,
        create_profile: true,
        is_installing: false,
    }
}

/// The base versions that the window offers.
pub open spec fn offered_minecraft_versions(state: InstallerModel) -> Seq<BaseVersionView> {
    visible_models::<BaseVersion>(state.minecraft_versions, state.show_minecraft_snapshots)
}

/// The loader versions that the window offers.
pub open spec fn offered_loader_versions(state: InstallerModel) -> Seq<LoaderVersionView> {
    visible_models::<LoaderVersion>(state.loader_versions, state.show_loader_betas)
}

/// The installation that the window asks for when the install button is
/// pressed: what is selected, into the directory shown.
pub open spec fn requested(state: InstallerModel) -> ClientInstallRequestView {
    ClientInstallRequestView {
        base_version: state.selected_minecraft_version,
        loader_version: state.selected_loader_version,
        install_root: state.directory,
        generate_profile: state.create_profile,
    }
}

/// The state that follows `state` on `message`, and the command that goes
/// with it.
///
/// - A catalog that arrives replaces the one held, and its default choice
///   becomes the selection.
/// - A version that is picked becomes the selection if the window offers it,
///   and is ignored if not.
/// - A change of a visibility flag keeps a selection that is still offered
///   and replaces any other by the default of what is now offered.
/// - The install button hands out the request as it stands. Whether it names
///   both versions is for the installation to judge, before it does anything
///   else.
pub open spec fn step(state: InstallerModel, message: Message) -> (InstallerModel, CommandView) {
    match message {
        Message::UpdatePage(page) => (InstallerModel { page, ..state }, CommandView::Nothing),
        Message::EnterClientInstall => (
            InstallerModel {
                page: if state.have_minecraft_versions_loaded == Some(true) {
                    Page::ClientInstall
                } else {
                    Page::ClientInstallLoading
                },
                ..state
            },
            CommandView::Nothing,
        ),
        Message::Retry => (
            InstallerModel {
                have_minecraft_versions_loaded: None,
                have_loader_versions_loaded: None,
                ..state
            },
            CommandView::FetchVersions,
        ),
        Message::SetMinecraftVersions(versions) => (
            InstallerModel {
                minecraft_versions: versions.deep_view(),
                selected_minecraft_version: default_model::<BaseVersion>(versions.deep_view()),
                have_minecraft_versions_loaded: Some(true),
                page: if state.page == Page::ClientInstallLoading {
                    Page::ClientInstall
                } else {
                    state.page
                },
                ..state
            },
            CommandView::Nothing,
        ),
        Message::FailMinecraftVersions => (
            InstallerModel { have_minecraft_versions_loaded: Some(false), ..state },
            CommandView::Nothing,
        ),
        Message::SelectMinecraftVersion(version) => (
            if offered_minecraft_versions(state).contains(version@) {
                InstallerModel { selected_minecraft_version: Some(version@), ..state }
            } else {
                state
            },
            CommandView::Nothing,
        ),
        Message::SetLoaderVersions(versions) => (
            InstallerModel {
                loader_versions: versions.deep_view(),
                selected_loader_version: default_model::<LoaderVersion>(versions.deep_view()),
                ..state
            },
            CommandView::Nothing,
        ),
        Message::FailLoaderVersions => (state, CommandView::Nothing),
        Message::SelectLoaderVersion(version) => (
            if offered_loader_versions(state).contains(version@) {
                InstallerModel { selected_loader_version: Some(version@), ..state }
            } else {
                state
            },
            CommandView::Nothing,
        ),
        Message::DirectoryInputChangeButtonPressed => (
            state,
            CommandView::PickDirectory { start: state.directory },
        ),
        Message::DirectoryPicked(choice) => (
            match choice {
                Some(directory) => InstallerModel { directory: directory@, ..state },
                None => state,
            },
            CommandView::Nothing,
        ),
        Message::ShowMinecraftSnapshotsCheckmarkChanged(show) => (
            InstallerModel {
                show_minecraft_snapshots: show,
                selected_minecraft_version: reselected::<BaseVersion>(
                    state.selected_minecraft_version,
                    visible_models::<BaseVersion>(state.minecraft_versions, show),
                ),
                ..state
            },
            CommandView::Nothing,
        ),
        Message::ShowLoaderBetasCheckmarkChanged(show) => (
            InstallerModel {
                show_loader_betas: show,
                selected_loader_version: reselected::<LoaderVersion>(
                    state.selected_loader_version,
                    visible_models::<LoaderVersion>(state.loader_versions, show),
                ),
                ..state
            },
            CommandView::Nothing,
        ),
        Message::CreateProfileCheckmarkChanged(create) => (
            InstallerModel { create_profile: create, ..state },
            CommandView::Nothing,
        ),
        Message::Install => (
            InstallerModel { is_installing: true, ..state },
            CommandView::InstallClient(requested(state)),
        ),
        Message::InstallationDone => (
            InstallerModel { is_installing: false, ..state },
            CommandView::Nothing,
        ),
    }
}

/// What the window shows in `state`.
pub open spec fn screen(state: InstallerModel) -> ScreenView {
    match state.page {
        Page::Main => ScreenView::Main,
        Page::ClientInstallLoading => if state.have_minecraft_versions_loaded == Some(false) {
            ScreenView::LoadFailed
        } else {
            ScreenView::Loading
        },
        Page::ClientInstall => ScreenView::ClientInstall(
            ClientInstallFormView {
                minecraft_versions: offered_minecraft_versions(state),
                selected_minecraft_version: state.selected_minecraft_version,
                loader_versions: offered_loader_versions(state),
                selected_loader_version: state.selected_loader_version,
                directory: state.directory,
                show_minecraft_snapshots: state.show_minecraft_snapshots,
                show_loader_betas: state.show_loader_betas,
                create_profile: state.create_profile,
                is_installing: state.is_installing,
            },
        ),
        Page::ServerDownload => ScreenView::ServerDownload,
    }
}

/// Whether each selection of `state` is among the versions that the window
/// offers: an entry of its catalog that the visibility flag shows.
pub open spec fn selection_is_offered(state: InstallerModel) -> bool {
    &&& state.selected_minecraft_version matches Some(version) ==> offered_minecraft_versions(
        state,
    ).contains(version)
    &&& state.selected_loader_version matches Some(version) ==> offered_loader_versions(
        state,
    ).contains(version)
}

/// The window opens with every selection among the versions on offer.
pub proof fn initial_selection_is_offered(directory: Seq<char>)
    ensures
        selection_is_offered(initial(directory)),
{
}

/// No message takes a selection out of the versions on offer: if every
/// selection is offered before a message, every selection is offered after
/// it.
pub proof fn step_keeps_selection_offered(state: InstallerModel, message: Message)
    requires
        selection_is_offered(state),
    ensures
        selection_is_offered(step(state, message).0),
{
    let next = step(state, message).0;
    match message {
        Message::SetMinecraftVersions(versions) => {
            let catalog = versions.deep_view();
            default_is_a_release::<BaseVersion>(catalog);
            match default_model::<BaseVersion>(catalog) {
                Some(chosen) => {
                    visible_means_shown::<BaseVersion>(
                        catalog,
                        state.show_minecraft_snapshots,
                        chosen,
                    );
                },
                None => {},
            }
        },
        Message::SetLoaderVersions(versions) => {
            let catalog = versions.deep_view();
            default_is_a_release::<LoaderVersion>(catalog);
            match default_model::<LoaderVersion>(catalog) {
                Some(chosen) => {
                    visible_means_shown::<LoaderVersion>(catalog, state.show_loader_betas, chosen);
                },
                None => {},
            }
        },
        Message::ShowMinecraftSnapshotsCheckmarkChanged(show) => {
            reselection_is_visible::<BaseVersion>(
                state.selected_minecraft_version,
                visible_models::<BaseVersion>(state.minecraft_versions, show),
            );
        },
        Message::ShowLoaderBetasCheckmarkChanged(show) => {
            reselection_is_visible::<LoaderVersion>(
                state.selected_loader_version,
                visible_models::<LoaderVersion>(state.loader_versions, show),
            );
        },
        _ => {},
    }
}

/// Setting or clearing a visibility flag never leaves a selection outside
/// what the window then offers, whatever was selected before.
pub proof fn toggle_leaves_selection_offered(state: InstallerModel, show: bool)
    ensures
        ({
            let next = step(state, Message::ShowMinecraftSnapshotsCheckmarkChanged(show)).0;
            next.selected_minecraft_version matches Some(version) ==> offered_minecraft_versions(
                next,
            ).contains(version)
        }),
        ({
            let next = step(state, Message::ShowLoaderBetasCheckmarkChanged(show)).0;
            next.selected_loader_version matches Some(version) ==> offered_loader_versions(
                next,
            ).contains(version)
        }),
{
    reselection_is_visible::<BaseVersion>(
        state.selected_minecraft_version,
        visible_models::<BaseVersion>(state.minecraft_versions, show),
    );
    reselection_is_visible::<LoaderVersion>(
        state.selected_loader_version,
        visible_models::<LoaderVersion>(state.loader_versions, show),
    );
}

/// Showing pre-releases changes no selection that is an entry of its
/// catalog: the list grows around it.
pub proof fn showing_more_keeps_selection(state: InstallerModel)
    ensures
        state.selected_minecraft_version matches Some(version) && state.minecraft_versions.contains(
            version,
        ) ==> step(
            state,
            Message::ShowMinecraftSnapshotsCheckmarkChanged(true),
        ).0.selected_minecraft_version == state.selected_minecraft_version,
        state.selected_loader_version matches Some(version) && state.loader_versions.contains(
            version,
        ) ==> step(
            state,
            Message::ShowLoaderBetasCheckmarkChanged(true),
        ).0.selected_loader_version == state.selected_loader_version,
{
    match state.selected_minecraft_version {
        Some(version) => {
            visible_means_shown::<BaseVersion>(state.minecraft_versions, true, version);
        },
        None => {},
    }
    match state.selected_loader_version {
        Some(version) => {
            visible_means_shown::<LoaderVersion>(state.loader_versions, true, version);
        },
        None => {},
    }
}

impl Installer {
    /// The window as it opens, installing into `directory`, and the command
    /// to fetch the two catalogs.
    pub fn new(directory: String) -> (start: (Installer, Command))
        ensures
            start.0.model() == initial(directory@),
            start.1@ == CommandView::FetchVersions,
    {
        let installer = Installer {
            page: Page::Main,
            have_minecraft_versions_loaded: None,
            minecraft_versions: Vec::new(),
            selected_minecraft_version: None,
            show_minecraft_snapshots: false,
            have_loader_versions_loaded: None,
            loader_versions: Vec::new(),
            selected_loader_version: None,
            show_loader_betas: false,
            directory,
            create_profile: true,
            is_installing: false,
        };
        proof {
            assert(installer.minecraft_versions.deep_view() =~= Seq::<BaseVersionView>::empty());
            assert(installer.loader_versions.deep_view() =~= Seq::<LoaderVersionView>::empty());
        }
        (installer, Command::FetchVersions)
    }

    /// The title of the window.
    pub fn title(&self) -> (title: String)
        ensures
            title@ == "Quilt Installer"@,
    {
        "Quilt Installer".to_string()
    }

    /// Takes `message` in: the state becomes what [`step`] says, and the
    /// command that [`step`] gives is returned for the caller to carry out.
    pub fn update(&mut self, message: Message) -> (command: Command)
        ensures
            (final(self).model(), command@) == step(old(self).model(), message),
            selection_is_offered(old(self).model()) ==> selection_is_offered(final(self).model()),
    {
        proof {
            if selection_is_offered(self.model()) {
                step_keeps_selection_offered(self.model(), message);
            }
        }
        match message {
            Message::UpdatePage(page) => {
                self.page = page;
                Command::Nothing
            },
            Message::EnterClientInstall => {
                if matches!(self.have_minecraft_versions_loaded, Some(true)) {
                    self.page = Page::ClientInstall;
                } else {
                    self.page = Page::ClientInstallLoading;
                }
                Command::Nothing
            },
            Message::Retry => {
                self.have_minecraft_versions_loaded = None;
                self.have_loader_versions_loaded = None;
                Command::FetchVersions
            },
            Message::SetMinecraftVersions(versions) => {
                self.selected_minecraft_version = default_base_version(&versions);
                self.minecraft_versions = versions;
                self.have_minecraft_versions_loaded = Some(true);
                if self.page == Page::ClientInstallLoading {
                    self.page = Page::ClientInstall;
                }
                Command::Nothing
            },
            Message::FailMinecraftVersions => {
                self.have_minecraft_versions_loaded = Some(false);
                Command::Nothing
            },
            Message::SelectMinecraftVersion(version) => {
                proof {
                    visible_means_shown::<BaseVersion>(
                        self.minecraft_versions.deep_view(),
                        self.show_minecraft_snapshots,
                        version@,
                    );
                }
                if (self.show_minecraft_snapshots || !version.is_prerelease()) && contains_entry(
                    &self.minecraft_versions,
                    &version,
                ) {
                    self.selected_minecraft_version = Some(version);
                }
                Command::Nothing
            },
            Message::SetLoaderVersions(versions) => {
                self.selected_loader_version = default_loader_version(&versions);
                self.loader_versions = versions;
                Command::Nothing
            },
            Message::FailLoaderVersions => Command::Nothing,
            Message::SelectLoaderVersion(version) => {
                proof {
                    visible_means_shown::<LoaderVersion>(
                        self.loader_versions.deep_view(),
                        self.show_loader_betas,
                        version@,
                    );
                }
                if (self.show_loader_betas || !version.is_prerelease()) && contains_entry(
                    &self.loader_versions,
                    &version,
                ) {
                    self.selected_loader_version = Some(version);
                }
                Command::Nothing
            },
            Message::DirectoryInputChangeButtonPressed => Command::PickDirectory {
                start: self.directory.clone(),
            },
            Message::DirectoryPicked(choice) => {
                match choice {
                    Some(directory) => {
                        self.directory = directory;
                    },
                    None => {},
                }
                Command::Nothing
            },
            Message::ShowMinecraftSnapshotsCheckmarkChanged(show) => {
                self.show_minecraft_snapshots = show;
                let visible = visible_subset(&self.minecraft_versions, show);
                let selected = self.selected_minecraft_version.take();
                self.selected_minecraft_version = reselect(selected, &visible);
                Command::Nothing
            },
            Message::ShowLoaderBetasCheckmarkChanged(show) => {
                self.show_loader_betas = show;
                let visible = visible_subset(&self.loader_versions, show);
                let selected = self.selected_loader_version.take();
                self.selected_loader_version = reselect(selected, &visible);
                Command::Nothing
            },
            Message::CreateProfileCheckmarkChanged(create) => {
                self.create_profile = create;
                Command::Nothing
            },
            Message::Install => {
                self.is_installing = true;
                Command::InstallClient(
                    ClientInstallRequest {
                        base_version: self.selected_minecraft_version.clone(),
                        loader_version: self.selected_loader_version.clone(),
                        install_root: self.directory.clone(),
                        generate_profile: self.create_profile,
                    },
                )
            },
            Message::InstallationDone => {
                self.is_installing = false;
                Command::Nothing
            },
        }
    }

    /// What the window shows, below the banner.
    pub fn view(&self) -> (shown: Screen)
        ensures
            shown@ == screen(self.model()),
    {
        match self.page {
            Page::Main => Screen::Main,
            Page::ClientInstallLoading => {
                if matches!(self.have_minecraft_versions_loaded, Some(false)) {
                    Screen::LoadFailed
                } else {
                    Screen::Loading
                }
            },
            Page::ClientInstall => Screen::ClientInstall(
                ClientInstallForm {
                    minecraft_versions: visible_subset(
                        &self.minecraft_versions,
                        self.show_minecraft_snapshots,
                    ),
                    selected_minecraft_version: self.selected_minecraft_version.clone(),
                    loader_versions: visible_subset(&self.loader_versions, self.show_loader_betas),
                    selected_loader_version: self.selected_loader_version.clone(),
                    directory: self.directory.clone(),
                    show_minecraft_snapshots: self.show_minecraft_snapshots,
                    show_loader_betas: self.show_loader_betas,
                    create_profile: self.create_profile,
                    is_installing: self.is_installing,
                },
            ),
            Page::ServerDownload => Screen::ServerDownload,
        }
    }
}

} // verus!
