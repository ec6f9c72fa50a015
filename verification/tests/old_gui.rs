use quilt_installer::catalog::{BaseVersion, LoaderVersion};
use quilt_installer::error::{CatalogError, DownloadError, InstallError};
use quilt_installer::install::{ClientInstallRequest, Installation, ServerInstallRequest};
use quilt_installer::old_gui::{
    Command, Failure, Interaction, Message, State, PROGRESS_FINISHED, PROGRESS_STARTED,
};

fn version(id: &str, stable: bool) -> BaseVersion {
    BaseVersion { id: id.to_string(), stable, release_timestamp: 0 }
}

fn build(version: &str) -> LoaderVersion {
    LoaderVersion { version: version.to_string() }
}

fn fresh() -> State {
    let (state, command) = State::new("/home/me/.minecraft".to_string(), "/srv/mc".to_string());
    assert!(matches!(command, Command::FetchVersions));
    state
}

fn filled() -> State {
    let mut state = fresh();
    state.update(Message::SetMcVersions(Ok(vec![
        version("1.20.1", true),
        version("1.21-pre1", false),
    ])));
    state.update(Message::SetLoaderVersions(Ok(vec![build("0.21.0-beta.1"), build("0.20.0")])));
    state
}

#[test]
fn form_opens_with_its_defaults() {
    let state = fresh();
    let form = state.view();
    assert_eq!(form.installations, vec![Installation::Client, Installation::Server]);
    assert_eq!(form.selected_installation, Installation::Client);
    assert!(form.minecraft_versions.is_empty());
    assert!(form.loader_versions.is_empty());
    assert_eq!(form.selected_minecraft_version, None);
    assert_eq!(form.selected_loader_version, None);
    assert!(!form.show_snapshots);
    assert!(!form.show_betas);
    assert_eq!(form.client_location, "/home/me/.minecraft");
    assert_eq!(form.server_location, "/srv/mc");
    assert!(form.generate_profile);
    assert!(form.download_server_jar);
    assert!(form.generate_launch_script);
    assert!(form.install_enabled);
    assert_eq!(form.progress, PROGRESS_STARTED);
    assert_eq!(state.title(), "Quilt Installer");
}

#[test]
fn catalogs_select_their_defaults_when_nothing_is_selected() {
    let state = filled();
    let form = state.view();
    assert_eq!(form.selected_minecraft_version, Some(version("1.20.1", true)));
    assert_eq!(form.selected_loader_version, Some(build("0.20.0")));
    assert_eq!(form.minecraft_versions, vec![version("1.20.1", true)]);
    assert_eq!(form.loader_versions, vec![build("0.20.0")]);
}

#[test]
fn a_new_catalog_keeps_a_selection_that_it_still_offers() {
    let mut state = filled();
    state.update(Message::SetMcVersions(Ok(vec![
        version("1.20.2", true),
        version("1.20.1", true),
    ])));
    assert_eq!(state.view().selected_minecraft_version, Some(version("1.20.1", true)));
}

#[test]
fn a_new_catalog_replaces_a_selection_that_it_lacks() {
    let mut state = filled();
    state.update(Message::SetMcVersions(Ok(vec![
        version("1.21-rc1", false),
        version("1.20.2", true),
    ])));
    assert_eq!(state.view().selected_minecraft_version, Some(version("1.20.2", true)));
    state.update(Message::SetLoaderVersions(Ok(vec![build("0.22.0-beta.1")])));
    assert_eq!(state.view().selected_loader_version, None);
}

#[test]
fn a_catalog_that_fails_is_reported_and_changes_nothing() {
    let mut state = filled();
    match state.update(Message::SetMcVersions(Err(CatalogError::Network))) {
        Command::Report(Failure::Catalog(error)) => assert_eq!(error, CatalogError::Network),
        other => panic!("unexpected command: {:?}", other),
    }
    match state.update(Message::SetLoaderVersions(Err(CatalogError::Parse))) {
        Command::Report(Failure::Catalog(error)) => assert_eq!(error, CatalogError::Parse),
        other => panic!("unexpected command: {:?}", other),
    }
    let form = state.view();
    assert_eq!(form.minecraft_versions, vec![version("1.20.1", true)]);
    assert_eq!(form.selected_loader_version, Some(build("0.20.0")));
}

#[test]
fn enabling_snapshots_widens_the_list_and_keeps_the_selection() {
    let mut state = filled();
    state.update(Message::Interaction(Interaction::EnableSnapshots(true)));
    let form = state.view();
    assert!(form.show_snapshots);
    assert_eq!(
        form.minecraft_versions,
        vec![version("1.20.1", true), version("1.21-pre1", false)]
    );
    assert_eq!(form.selected_minecraft_version, Some(version("1.20.1", true)));
}

#[test]
fn disabling_a_flag_reselects_what_it_hides() {
    let mut state = filled();
    state.update(Message::Interaction(Interaction::EnableSnapshots(true)));
    state.update(Message::Interaction(Interaction::SelectMcVersion(version("1.21-pre1", false))));
    state.update(Message::Interaction(Interaction::EnableBetas(true)));
    state.update(Message::Interaction(Interaction::SelectLoaderVersion(build("0.21.0-beta.1"))));
    let form = state.view();
    assert_eq!(form.selected_minecraft_version, Some(version("1.21-pre1", false)));
    assert_eq!(form.selected_loader_version, Some(build("0.21.0-beta.1")));
    state.update(Message::Interaction(Interaction::EnableSnapshots(false)));
    state.update(Message::Interaction(Interaction::EnableBetas(false)));
    let form = state.view();
    assert_eq!(form.selected_minecraft_version, Some(version("1.20.1", true)));
    assert_eq!(form.selected_loader_version, Some(build("0.20.0")));
}

#[test]
fn selecting_what_is_not_offered_changes_nothing() {
    let mut state = filled();
    state.update(Message::Interaction(Interaction::SelectMcVersion(version("1.21-pre1", false))));
    state.update(Message::Interaction(Interaction::SelectLoaderVersion(build("7.7.7"))));
    let form = state.view();
    assert_eq!(form.selected_minecraft_version, Some(version("1.20.1", true)));
    assert_eq!(form.selected_loader_version, Some(build("0.20.0")));
}

#[test]
fn options_and_locations_follow_the_interactions() {
    let mut state = fresh();
    state.update(Message::Interaction(Interaction::ChangeClientLocation("/a".to_string())));
    state.update(Message::Interaction(Interaction::ChangeServerLocation("/b".to_string())));
    state.update(Message::Interaction(Interaction::GenerateProfile(false)));
    state.update(Message::Interaction(Interaction::GenerateLaunchScript(false)));
    state.update(Message::Interaction(Interaction::DownloadServerJar(false)));
    state.update(Message::Interaction(Interaction::SelectInstallation(Installation::Server)));
    let form = state.view();
    assert_eq!(form.client_location, "/a");
    assert_eq!(form.server_location, "/b");
    assert!(!form.generate_profile);
    assert!(!form.generate_launch_script);
    assert!(!form.download_server_jar);
    assert_eq!(form.selected_installation, Installation::Server);
}

#[test]
fn browsing_asks_for_a_dialog() {
    let mut state = fresh();
    match state.update(Message::Interaction(Interaction::BrowseClientLocation)) {
        Command::PickDirectory { target, probe, start } => {
            assert_eq!(target, Installation::Client);
            assert_eq!(probe, "/home/me/.minecraft");
            assert_eq!(start, "/home/me/.minecraft");
        }
        other => panic!("unexpected command: {:?}", other),
    }
    match state.update(Message::BrowseServerLocation) {
        Command::PickDirectory { target, probe, start } => {
            assert_eq!(target, Installation::Server);
            assert_eq!(probe, "/home/me/.minecraft");
            assert_eq!(start, "/srv/mc");
        }
        other => panic!("unexpected command: {:?}", other),
    }
    assert!(matches!(
        state.update(Message::BrowseClientLocation),
        Command::PickDirectory { target: Installation::Client, .. }
    ));
    assert!(matches!(
        state.update(Message::Interaction(Interaction::BrowseServerLocation)),
        Command::PickDirectory { target: Installation::Server, .. }
    ));
}

#[test]
fn install_hands_out_the_client_request() {
    let mut state = filled();
    match state.update(Message::Interaction(Interaction::Install)) {
        Command::InstallClient(request) => assert_eq!(
            request,
            ClientInstallRequest {
                base_version: Some(version("1.20.1", true)),
                loader_version: Some(build("0.20.0")),
                install_root: "/home/me/.minecraft".to_string(),
                generate_profile: true,
            }
        ),
        other => panic!("unexpected command: {:?}", other),
    }
    let form = state.view();
    assert!(!form.install_enabled);
    assert_eq!(form.progress, 0);
}

#[test]
fn install_hands_out_the_server_request() {
    let mut state = filled();
    state.update(Message::Interaction(Interaction::SelectInstallation(Installation::Server)));
    state.update(Message::Interaction(Interaction::GenerateLaunchScript(false)));
    match state.update(Message::Install) {
        Command::InstallServer(request) => assert_eq!(
            request,
            ServerInstallRequest {
                base_version: Some(version("1.20.1", true)),
                loader_version: Some(build("0.20.0")),
                install_root: "/srv/mc".to_string(),
                download_base_jar: true,
                generate_launch_script: false,
            }
        ),
        other => panic!("unexpected command: {:?}", other),
    }
}

#[test]
fn end_of_installation_fills_the_bar() {
    let mut state = filled();
    state.update(Message::Install);
    assert!(matches!(state.update(Message::DoneInstalling(Ok(()))), Command::Nothing));
    let form = state.view();
    assert!(form.install_enabled);
    assert_eq!(form.progress, PROGRESS_FINISHED);
    assert_eq!(PROGRESS_FINISHED, 100);
}

#[test]
fn failed_installation_is_reported() {
    let mut state = filled();
    state.update(Message::Install);
    let error = InstallError::Download(DownloadError::IntegrityMismatch {
        coordinate: "org.quiltmc:quilt-loader:0.20.0".to_string(),
    });
    match state.update(Message::DoneInstalling(Err(error.clone()))) {
        Command::Report(Failure::Install(reported)) => assert_eq!(reported, error),
        other => panic!("unexpected command: {:?}", other),
    }
    assert!(state.view().install_enabled);
}

#[test]
fn outside_errors_are_reported_as_they_are() {
    let mut state = fresh();
    match state.update(Message::Error(Failure::Dialog("no display".to_string()))) {
        Command::Report(Failure::Dialog(text)) => assert_eq!(text, "no display"),
        other => panic!("unexpected command: {:?}", other),
    }
    match state.update(Message::Error(Failure::Install(InstallError::MissingSelection))) {
        Command::Report(Failure::Install(error)) => {
            assert_eq!(error, InstallError::MissingSelection)
        }
        other => panic!("unexpected command: {:?}", other),
    }
}
