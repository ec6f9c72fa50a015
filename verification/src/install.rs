//! Installation requests, and the order of the stages that carry one out.
//!
//! An installation resolves its manifest, brings the artifacts into place,
//! and writes what the runtime reads, in that order. Nothing here does any of
//! it: [`InstallSession`] says which stage is due, takes what came of it, and
//! says what is due next. The first failure ends the installation, and is
//! handed on as it is; no stage is tried again.
use crate::catalog::{BaseVersion, BaseVersionView, LoaderVersion, LoaderVersionView};
use crate::error::{DownloadError, InstallError, InstallErrorView, ResolveError, WriteError};
use crate::manifest::{InstallManifest, InstallManifestView};
use crate::writer::{
    ClientWritePlan,
    ProfileEntryView,
    ScriptFlavor,
    ServerWritePlan,
    VersionDescriptorView,
    brings_server_jar,
    client_write_plan,
    described,
    destinations,
    profile_of,
    script_name,
    script_text,
    server_write_plan,
};
use vstd::prelude::*;
use vstd::std_specs::cmp::PartialEqSpecImpl;

verus! {

/// The two things that can be installed.
#[derive(Debug, Clone, Copy, PartialEq, Eq, Structural)]
pub enum Installation {
    /// The loader in a player's game directory.
    Client,
    /// The loader in the directory of a dedicated server.
    Server,
}

impl Default for Installation {
    fn default() -> (installation: Self)
        ensures
            installation == Installation::Client,
    {
        Installation::Client
    }
}

impl Installation {
    /// Every kind of installation, in the order in which they are offered.
    pub fn all() -> (kinds: Vec<Installation>)
        ensures
            kinds@ == seq![Installation::Client, Installation::Server],
    {
        let mut kinds = Vec::new();
        kinds.push(Installation::Client);
        kinds.push(Installation::Server);
        kinds
    }

    /// The name under which this kind of installation is offered.
    pub fn label(&self) -> (name: &'static str)
        ensures
            name@ == match self {
                Installation::Client => "Client"@,
                Installation::Server => "Server"@,
            },
    {
        match self {
            Installation::Client => "Client",
            Installation::Server => "Server",
        }
    }
}

/// A request to install the loader for a player.
#[derive(Debug)]
pub struct ClientInstallRequest {
    /// The base version to install for, if one is selected.
    pub base_version: Option<BaseVersion>,
    /// The loader version to install, if one is selected.
    pub loader_version: Option<LoaderVersion>,
    /// The directory to install into.
    pub install_root: String,
    /// Whether to enter the installed version in the launcher's profile
    /// registry.
    pub generate_profile: bool,
}

/// The model of a [`ClientInstallRequest`].
pub struct ClientInstallRequestView {
    pub base_version: Option<BaseVersionView>,
    pub loader_version: Option<LoaderVersionView>,
    pub install_root: Seq<char>,
    pub generate_profile: bool,
}

impl View for ClientInstallRequest {
    type V = ClientInstallRequestView;

    open spec fn view(&self) -> ClientInstallRequestView {
        ClientInstallRequestView {
            base_version: self.base_version.deep_view(),
            loader_version: self.loader_version.deep_view(),
            install_root: self.install_root@,
            generate_profile: self.generate_profile,
        }
    }
}

impl DeepView for ClientInstallRequest {
    type V = ClientInstallRequestView;

    open spec fn deep_view(&self) -> ClientInstallRequestView {
        self@
    }
}

impl Clone for ClientInstallRequest {
    fn clone(&self) -> (copy: Self)
        ensures
            copy == *self,
    {
        ClientInstallRequest {
            base_version: self.base_version.clone(),
            loader_version: self.loader_version.clone(),
            install_root: self.install_root.clone(),
            generate_profile: self.generate_profile,
        }
    }
}

impl PartialEq for ClientInstallRequest {
    fn eq(&self, other: &Self) -> (equal: bool) {
        self.base_version == other.base_version && self.loader_version == other.loader_version
            && self.install_root == other.install_root && self.generate_profile
            == other.generate_profile
    }
}

impl Eq for ClientInstallRequest {

}

impl PartialEqSpecImpl for ClientInstallRequest {
    open spec fn obeys_eq_spec() -> bool {
        true
    }

    open spec fn eq_spec(&self, other: &Self) -> bool {
        self@ == other@
    }
}

/// A request to install the loader for a dedicated server.
#[derive(Debug)]
pub struct ServerInstallRequest {
    /// The base version to install for, if one is selected.
    pub base_version: Option<BaseVersion>,
    /// The loader version to install, if one is selected.
    pub loader_version: Option<LoaderVersion>,
    /// The directory to install into.
    pub install_root: String,
    /// Whether to fetch the base game's server jar where the manifest does
    /// not bring it.
    pub download_base_jar: bool,
    /// Whether to write a script that starts the server.
    pub generate_launch_script: bool,
}

/// The model of a [`ServerInstallRequest`].
pub struct ServerInstallRequestView {
    pub base_version: Option<BaseVersionView>,
    pub loader_version: Option<LoaderVersionView>,
    pub install_root: Seq<char>,
    pub download_base_jar: bool,
    pub generate_launch_script: bool,
}

impl View for ServerInstallRequest {
    type V = ServerInstallRequestView;

    open spec fn view(&self) -> ServerInstallRequestView {
        ServerInstallRequestView {
            base_version: self.base_version.deep_view(),
            loader_version: self.loader_version.deep_view(),
            install_root: self.install_root@,
            download_base_jar: self.download_base_jar,
            generate_launch_script: self.generate_launch_script,
        }
    }
}

impl DeepView for ServerInstallRequest {
    type V = ServerInstallRequestView;

    open spec fn deep_view(&self) -> ServerInstallRequestView {
        self@
    }
}

impl Clone for ServerInstallRequest {
    fn clone(&self) -> (copy: Self)
        ensures
            copy == *self,
    {
        ServerInstallRequest {
            base_version: self.base_version.clone(),
            loader_version: self.loader_version.clone(),
            install_root: self.install_root.clone(),
            download_base_jar: self.download_base_jar,
            generate_launch_script: self.generate_launch_script,
        }
    }
}

impl PartialEq for ServerInstallRequest {
    fn eq(&self, other: &Self) -> (equal: bool) {
        self.base_version == other.base_version && self.loader_version == other.loader_version
            && self.install_root == other.install_root && self.download_base_jar
            == other.download_base_jar && self.generate_launch_script
            == other.generate_launch_script
    }
}

impl Eq for ServerInstallRequest {

}

impl PartialEqSpecImpl for ServerInstallRequest {
    open spec fn obeys_eq_spec() -> bool {
        true
    }

    open spec fn eq_spec(&self, other: &Self) -> bool {
        self@ == other@
    }
}

/// The pair of versions to ask the metadata endpoint about.
#[derive(Debug)]
pub struct ResolveQuery {
    /// The id of the base version.
    pub base_id: String,
    /// The version text of the loader build.
    pub loader_version: String,
}

/// The model of a [`ResolveQuery`].
pub struct ResolveQueryView {
    pub base_id: Seq<char>,
    pub loader_version: Seq<char>,
}

impl View for ResolveQuery {
    type V = ResolveQueryView;

    open spec fn view(&self) -> ResolveQueryView {
        ResolveQueryView { base_id: self.base_id@, loader_version: self.loader_version@ }
    }
}

/// What is installed, with the options that go with it.
#[derive(Debug, Clone, Copy, PartialEq, Eq, Structural)]
pub enum InstallTarget {
    /// A client, with or without an entry in the profile registry.
    Client { generate_profile: bool },
    /// A server, with or without the base game's jar and a launch script for
    /// the given shell.
    Server { download_base_jar: bool, generate_launch_script: bool, flavor: ScriptFlavor },
}

/// The stage that an installation is in.
#[derive(Debug)]
pub enum InstallStage {
    /// The manifest is being resolved.
    Resolving,
    /// The artifacts of this manifest are being brought into place.
    Downloading(InstallManifest),
    /// The runtime's files are being written.
    Writing,
    /// The installation has ended.
    Finished(Result<(), InstallError>),
}

/// The model of an [`InstallStage`].
pub enum InstallStageView {
    Resolving,
    Downloading(InstallManifestView),
    Writing,
    Finished(Result<(), InstallErrorView>),
}

/// The model of the end of an installation.
pub open spec fn end_view(end: Result<(), InstallError>) -> Result<(), InstallErrorView> {
    match end {
        Ok(_) => Ok(()),
        Err(error) => Err(error@),
    }
}

impl View for InstallStage {
    type V = InstallStageView;

    open spec fn view(&self) -> InstallStageView {
        match self {
            InstallStage::Resolving => InstallStageView::Resolving,
            InstallStage::Downloading(manifest) => InstallStageView::Downloading(manifest@),
            InstallStage::Writing => InstallStageView::Writing,
            InstallStage::Finished(end) => InstallStageView::Finished(end_view(*end)),
        }
    }
}

/// What came of a stage.
#[derive(Debug)]
pub enum InstallEvent {
    /// The manifest was resolved, or could not be.
    Resolved(Result<InstallManifest, ResolveError>),
    /// The artifacts were brought into place, or could not be.
    Downloaded(Result<(), DownloadError>),
    /// The runtime's files were written, or could not be.
    Written(Result<(), WriteError>),
}

/// What the caller has to do next.
#[derive(Debug)]
pub enum InstallAction {
    /// Ask the metadata endpoint about this pair and answer with
    /// [`InstallEvent::Resolved`].
    Resolve(ResolveQuery),
    /// Bring the artifacts of this manifest into place under the root and
    /// answer with [`InstallEvent::Downloaded`].
    Download { manifest: InstallManifest, install_root: String },
    /// Write this under the root and answer with [`InstallEvent::Written`].
    WriteClient { plan: ClientWritePlan, install_root: String },
    /// Write this under the root and answer with [`InstallEvent::Written`].
    WriteServer { plan: ServerWritePlan, install_root: String },
    /// Nothing: the answer of the stage that is due is still awaited.
    Wait,
    /// The installation has ended in this way.
    Finish(Result<(), InstallError>),
}

/// The model of an [`InstallAction`].
pub enum InstallActionView {
    Resolve(ResolveQueryView),
    Download { manifest: InstallManifestView, install_root: Seq<char> },
    WriteClient {
        descriptor: VersionDescriptorView,
        profile: Option<ProfileEntryView>,
        install_root: Seq<char>,
    },
    WriteServer {
        fetch_server_jar: bool,
        launch_script: Option<(Seq<char>, Seq<char>)>,
        install_root: Seq<char>,
    },
    Wait,
    Finish(Result<(), InstallErrorView>),
}

impl View for InstallAction {
    type V = InstallActionView;

    open spec fn view(&self) -> InstallActionView {
        match self {
            InstallAction::Resolve(query) => InstallActionView::Resolve(query@),
            InstallAction::Download { manifest, install_root } => InstallActionView::Download {
                manifest: manifest@,
                install_root: install_root@,
            },
            InstallAction::WriteClient { plan, install_root } => InstallActionView::WriteClient {
                descriptor: plan.descriptor@,
                profile: plan.profile.deep_view(),
                install_root: install_root@,
            },
            InstallAction::WriteServer { plan, install_root } => InstallActionView::WriteServer {
                fetch_server_jar: plan.fetch_server_jar,
                launch_script: plan.launch_script.deep_view(),
                install_root: install_root@,
            },
            InstallAction::Wait => InstallActionView::Wait,
            InstallAction::Finish(end) => InstallActionView::Finish(end_view(*end)),
        }
    }
}

/// One installation under way.
#[derive(Debug)]
pub struct InstallSession {
    target: InstallTarget,
    install_root: String,
    stage: InstallStage,
}

/// The model of an [`InstallSession`].
pub struct SessionModel {
    /// What is installed.
    pub target: InstallTarget,
    /// The directory to install into.
    pub install_root: Seq<char>,
    /// The stage that the installation is in.
    pub stage: InstallStageView,
}

/// Whether `action` reaches out to the network.
pub open spec fn uses_network(action: InstallActionView) -> bool {
    action is Resolve || action is Download
}

/// The stage and the action with which an installation of `target` into
/// `install_root` starts.
///
/// Where the base version or the loader version is missing, it ends at once
/// with [`InstallError::MissingSelection`], before anything is asked of the
/// network. Otherwise the pair is to be resolved.
pub open spec fn session_start(
    base_version: Option<BaseVersionView>,
    loader_version: Option<LoaderVersionView>,
) -> (InstallStageView, InstallActionView) {
    match (base_version, loader_version) {
        (Some(base), Some(loader)) => (
            InstallStageView::Resolving,
            InstallActionView::Resolve(
                ResolveQueryView { base_id: base.id, loader_version: loader.version },
            ),
        ),
        _ => (
            InstallStageView::Finished(Err(InstallErrorView::MissingSelection)),
            InstallActionView::Finish(Err(InstallErrorView::MissingSelection)),
        ),
    }
}

/// What is to be written once the artifacts of `manifest` are in place.
pub open spec fn write_action(session: SessionModel, manifest: InstallManifestView) -> InstallActionView {
    match session.target {
        InstallTarget::Client { generate_profile } => InstallActionView::WriteClient {
            descriptor: described(manifest),
            profile: if generate_profile {
                Some(profile_of(manifest))
            } else {
                None
            },
            install_root: session.install_root,
        },
        InstallTarget::Server {
            download_base_jar,
            generate_launch_script,
            flavor,
        } => InstallActionView::WriteServer {
            fetch_server_jar: download_base_jar && !brings_server_jar(manifest.artifacts),
            launch_script: if generate_launch_script {
                Some(
                    (
                        script_name(flavor),
                        script_text(flavor, manifest.main_class, destinations(manifest.artifacts)),
                    ),
                )
            } else {
                None
            },
            install_root: session.install_root,
        },
    }
}

/// The stage that follows on `event`, and the action that goes with it.
///
/// - The stages follow one another: resolving, downloading, writing.
/// - A stage that fails ends the installation with its error, wrapped by
///   the stage it came from and otherwise unchanged.
/// - An event that is not the answer of the stage that is due changes
///   nothing.
/// - Once the installation has ended, every event is answered with its end:
///   nothing is tried again.
pub open spec fn session_step(session: SessionModel, event: InstallEvent) -> (
    InstallStageView,
    InstallActionView,
) {
    match session.stage {
        InstallStageView::Finished(end) => (session.stage, InstallActionView::Finish(end)),
        InstallStageView::Resolving => match event {
            InstallEvent::Resolved(Ok(manifest)) => (
                InstallStageView::Downloading(manifest@),
                InstallActionView::Download {
                    manifest: manifest@,
                    install_root: session.install_root,
                },
            ),
            InstallEvent::Resolved(Err(error)) => (
                InstallStageView::Finished(Err(InstallErrorView::Resolve(error))),
                InstallActionView::Finish(Err(InstallErrorView::Resolve(error))),
            ),
            _ => (session.stage, InstallActionView::Wait),
        },
        InstallStageView::Downloading(manifest) => match event {
            InstallEvent::Downloaded(Ok(_)) => (
                InstallStageView::Writing,
                write_action(session, manifest),
            ),
            InstallEvent::Downloaded(Err(error)) => (
                InstallStageView::Finished(Err(InstallErrorView::Download(error@))),
                InstallActionView::Finish(Err(InstallErrorView::Download(error@))),
            ),
            _ => (session.stage, InstallActionView::Wait),
        },
        InstallStageView::Writing => match event {
            InstallEvent::Written(Ok(_)) => (
                InstallStageView::Finished(Ok(())),
                InstallActionView::Finish(Ok(())),
            ),
            InstallEvent::Written(Err(error)) => (
                InstallStageView::Finished(Err(InstallErrorView::Write(error))),
                InstallActionView::Finish(Err(InstallErrorView::Write(error))),
            ),
            _ => (session.stage, InstallActionView::Wait),
        },
    }
}

/// An installation that lacks its base version or its loader version ends
/// at once with a missing selection, and its first action does not reach
/// out to the network.
pub proof fn missing_selection_fails_at_once(
    base_version: Option<BaseVersionView>,
    loader_version: Option<LoaderVersionView>,
)
    requires
        base_version is None || loader_version is None,
    ensures
        session_start(base_version, loader_version) == (
            InstallStageView::Finished(Err(InstallErrorView::MissingSelection)),
            InstallActionView::Finish(Err(InstallErrorView::MissingSelection)),
        ),
        !uses_network(session_start(base_version, loader_version).1),
{
}

/// Once an installation has ended, no event changes it or sets a stage going
/// again: the network is left alone, and the end stays what it was.
pub proof fn ended_session_stays_ended(session: SessionModel, event: InstallEvent)
    requires
        session.stage is Finished,
    ensures
        session_step(session, event).0 == session.stage,
        !uses_network(session_step(session, event).1),
        session_step(session, event).1 is Finish,
{
}

/// Nothing is fetched before the manifest is resolved in full: a download is
/// asked for only in answer to a resolved manifest, and it is that manifest
/// which is downloaded.
pub proof fn download_follows_resolution(session: SessionModel, event: InstallEvent)
    requires
        session_step(session, event).1 is Download,
    ensures
        session.stage is Resolving,
        event matches InstallEvent::Resolved(Ok(manifest)) && session_step(session, event).1 == (
        InstallActionView::Download { manifest: manifest@, install_root: session.install_root }),
{
}

impl InstallSession {
    /// The model of this session.
    pub closed spec fn model(&self) -> SessionModel {
        SessionModel {
            target: self.target,
            install_root: self.install_root@,
            stage: self.stage@,
        }
    }

    /// Starts an installation of `target` into `install_root`.
    fn start(
        target: InstallTarget,
        base_version: Option<BaseVersion>,
        loader_version: Option<LoaderVersion>,
        install_root: String,
    ) -> (start: (InstallSession, InstallAction))
        ensures
            start.0.model() == (SessionModel {
                target,
                install_root: install_root@,
                stage: session_start(base_version.deep_view(), loader_version.deep_view()).0,
            }),
            start.1@ == session_start(base_version.deep_view(), loader_version.deep_view()).1,
    {
        match (base_version, loader_version) {
            (Some(base), Some(loader)) => (
                InstallSession { target, install_root, stage: InstallStage::Resolving },
                InstallAction::Resolve(
                    ResolveQuery { base_id: base.id, loader_version: loader.version },
                ),
            ),
            _ => (
                InstallSession {
                    target,
                    install_root,
                    stage: InstallStage::Finished(Err(InstallError::MissingSelection)),
                },
                InstallAction::Finish(Err(InstallError::MissingSelection)),
            ),
        }
    }

    /// How the installation ended, if it has.
    pub fn end(&self) -> (end: Option<Result<(), InstallError>>)
        ensures
            match end {
                Some(ended) => self.model().stage == InstallStageView::Finished(end_view(ended)),
                None => !(self.model().stage is Finished),
            },
    {
        match &self.stage {
            InstallStage::Finished(Ok(_)) => Some(Ok(())),
            InstallStage::Finished(Err(error)) => Some(Err(error.clone())),
            _ => None,
        }
    }

    /// Takes `event` in: the session is in the stage that [`session_step`]
    /// says, and the action that [`session_step`] gives is returned.
    pub fn advance(&mut self, event: InstallEvent) -> (action: InstallAction)
        ensures
            final(self).model() == (SessionModel {
                stage: session_step(old(self).model(), event).0,
                ..old(self).model()
            }),
            action@ == session_step(old(self).model(), event).1,
    {
        let mut stage = InstallStage::Writing;
        core::mem::swap(&mut self.stage, &mut stage);
        match stage {
            InstallStage::Finished(end) => {
                let again = match &end {
                    Ok(_) => Ok(()),
                    Err(error) => Err(error.clone()),
                };
                self.stage = InstallStage::Finished(end);
                InstallAction::Finish(again)
            },
            InstallStage::Resolving => match event {
                InstallEvent::Resolved(Ok(manifest)) => {
                    let copy = manifest.clone();
                    self.stage = InstallStage::Downloading(manifest);
                    InstallAction::Download {
                        manifest: copy,
                        install_root: self.install_root.clone(),
                    }
                },
                InstallEvent::Resolved(Err(error)) => {
                    self.stage = InstallStage::Finished(Err(InstallError::Resolve(error)));
                    InstallAction::Finish(Err(InstallError::Resolve(error)))
                },
                _ => {
                    self.stage = InstallStage::Resolving;
                    InstallAction::Wait
                },
            },
            InstallStage::Downloading(manifest) => match event {
                InstallEvent::Downloaded(Ok(_)) => {
                    let install_root = self.install_root.clone();
                    let action = match self.target {
                        InstallTarget::Client { generate_profile } => InstallAction::WriteClient {
                            plan: client_write_plan(&manifest, generate_profile),
                            install_root,
                        },
                        InstallTarget::Server {
                            download_base_jar,
                            generate_launch_script,
                            flavor,
                        } => InstallAction::WriteServer {
                            plan: server_write_plan(
                                &manifest,
                                download_base_jar,
                                generate_launch_script,
                                flavor,
                            ),
                            install_root,
                        },
                    };
                    self.stage = InstallStage::Writing;
                    action
                },
                InstallEvent::Downloaded(Err(error)) => {
                    self.stage = InstallStage::Finished(
                        Err(InstallError::Download(error.clone())),
                    );
                    InstallAction::Finish(Err(InstallError::Download(error)))
                },
                _ => {
                    self.stage = InstallStage::Downloading(manifest);
                    InstallAction::Wait
                },
            },
            InstallStage::Writing => match event {
                InstallEvent::Written(Ok(_)) => {
                    self.stage = InstallStage::Finished(Ok(()));
                    InstallAction::Finish(Ok(()))
                },
                InstallEvent::Written(Err(error)) => {
                    self.stage = InstallStage::Finished(Err(InstallError::Write(error)));
                    InstallAction::Finish(Err(InstallError::Write(error)))
                },
                _ => {
                    self.stage = InstallStage::Writing;
                    InstallAction::Wait
                },
            },
        }
    }
}

/// Starts the installation that `request` asks for.
///
/// A request that names no base version, or no loader version, ends at once
/// with [`InstallError::MissingSelection`]: its first action is that end, and
/// nothing is asked of the network.
pub fn install_client(request: ClientInstallRequest) -> (start: (InstallSession, InstallAction))
    ensures
        start.0.model() == (SessionModel {
            target: InstallTarget::Client { generate_profile: request.generate_profile },
            install_root: request.install_root@,
            stage: session_start(request@.base_version, request@.loader_version).0,
        }),
        start.1@ == session_start(request@.base_version, request@.loader_version).1,
        request.base_version is None || request.loader_version is None ==> start.1@
            == InstallActionView::Finish(Err(InstallErrorView::MissingSelection)),
{
    InstallSession::start(
        InstallTarget::Client { generate_profile: request.generate_profile },
        request.base_version,
        request.loader_version,
        request.install_root,
    )
}

/// Starts the installation that `request` asks for, with a launch script,
/// where one is asked for, for the shell `flavor`.
///
/// A request that names no base version, or no loader version, ends at once
/// with [`InstallError::MissingSelection`]: its first action is that end, and
/// nothing is asked of the network.
pub fn install_server(request: ServerInstallRequest, flavor: ScriptFlavor) -> (start: (
    InstallSession,
    InstallAction,
))
    ensures
        start.0.model() == (SessionModel {
            target: InstallTarget::Server {
                download_base_jar: request.download_base_jar,
                generate_launch_script: request.generate_launch_script,
                flavor,
            },
            install_root: request.install_root@,
            stage: session_start(request@.base_version, request@.loader_version).0,
        }),
        start.1@ == session_start(request@.base_version, request@.loader_version).1,
        request.base_version is None || request.loader_version is None ==> start.1@
            == InstallActionView::Finish(Err(InstallErrorView::MissingSelection)),
{
    InstallSession::start(
        InstallTarget::Server {
            download_base_jar: request.download_base_jar,
            generate_launch_script: request.generate_launch_script,
            flavor,
        },
        request.base_version,
        request.loader_version,
        request.install_root,
    )
}

} // verus!
