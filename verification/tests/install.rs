use quilt_installer::catalog::{BaseVersion, LoaderVersion};
use quilt_installer::error::{DownloadError, InstallError, ResolveError, WriteError};
use quilt_installer::install::{
    install_client, install_server, ClientInstallRequest, InstallAction, InstallEvent,
    InstallSession, Installation, ServerInstallRequest,
};
use quilt_installer::manifest::{Artifact, InstallManifest};
use quilt_installer::writer::ScriptFlavor;

fn game() -> BaseVersion {
    BaseVersion { id: "1.20.1".to_string(), stable: true, release_timestamp: 0 }
}

fn quilt() -> LoaderVersion {
    LoaderVersion { version: "0.20.0".to_string() }
}

fn client_request(
    base_version: Option<BaseVersion>,
    loader_version: Option<LoaderVersion>,
) -> ClientInstallRequest {
    ClientInstallRequest {
        base_version,
        loader_version,
        install_root: "/home/me/.minecraft".to_string(),
        generate_profile: true,
    }
}

fn server_request(
    base_version: Option<BaseVersion>,
    loader_version: Option<LoaderVersion>,
) -> ServerInstallRequest {
    ServerInstallRequest {
        base_version,
        loader_version,
        install_root: "/srv/mc".to_string(),
        download_base_jar: true,
        generate_launch_script: true,
    }
}

fn three_artifacts() -> InstallManifest {
    let artifacts = ["loader", "intermediary", "asm"]
        .iter()
        .map(|name| Artifact {
            coordinate: format!("org.quiltmc:{}:1", name),
            download_url: format!("https://maven.example/{}.jar", name),
            digest: format!("digest-{}", name),
            size_bytes: 10,
            destination_path: format!("libraries/{}.jar", name),
        })
        .collect();
    InstallManifest::new(artifacts, "org.Main".to_string(), "quilt-1".to_string()).unwrap()
}

fn resolving_client() -> InstallSession {
    let (session, first) = install_client(client_request(Some(game()), Some(quilt())));
    match first {
        InstallAction::Resolve(query) => {
            assert_eq!(query.base_id, "1.20.1");
            assert_eq!(query.loader_version, "0.20.0");
        }
        other => panic!("unexpected action: {:?}", other),
    }
    assert_eq!(session.end(), None);
    session
}

fn assert_missing(session: &InstallSession, first: &InstallAction) {
    assert!(matches!(first, InstallAction::Finish(Err(InstallError::MissingSelection))));
    assert_eq!(session.end(), Some(Err(InstallError::MissingSelection)));
}

#[test]
fn client_install_without_base_version_is_a_missing_selection() {
    let (session, first) = install_client(client_request(None, Some(quilt())));
    assert_missing(&session, &first);
}

#[test]
fn client_install_without_loader_version_is_a_missing_selection() {
    let (session, first) = install_client(client_request(Some(game()), None));
    assert_missing(&session, &first);
    let (session, first) = install_client(client_request(None, None));
    assert_missing(&session, &first);
}

#[test]
fn server_install_without_a_version_is_a_missing_selection() {
    let (session, first) = install_server(server_request(None, Some(quilt())), ScriptFlavor::Unix);
    assert_missing(&session, &first);
    let (session, first) = install_server(server_request(Some(game()), None), ScriptFlavor::Unix);
    assert_missing(&session, &first);
}

#[test]
fn missing_selection_never_reaches_the_network() {
    let (mut session, _) = install_client(client_request(None, None));
    let events = vec![
        InstallEvent::Resolved(Ok(three_artifacts())),
        InstallEvent::Downloaded(Ok(())),
        InstallEvent::Written(Ok(())),
    ];
    for event in events {
        let action = session.advance(event);
        assert!(matches!(action, InstallAction::Finish(Err(InstallError::MissingSelection))));
    }
}

#[test]
fn client_install_runs_its_stages_in_order() {
    let mut session = resolving_client();
    match session.advance(InstallEvent::Resolved(Ok(three_artifacts()))) {
        InstallAction::Download { manifest, install_root } => {
            assert_eq!(manifest.artifacts().len(), 3);
            assert_eq!(manifest.artifacts(), three_artifacts().artifacts());
            assert_eq!(install_root, "/home/me/.minecraft");
        }
        other => panic!("unexpected action: {:?}", other),
    }
    match session.advance(InstallEvent::Downloaded(Ok(()))) {
        InstallAction::WriteClient { plan, install_root } => {
            assert_eq!(plan.descriptor.id, "quilt-1");
            assert_eq!(plan.descriptor.main_class, "org.Main");
            assert_eq!(plan.descriptor.libraries.len(), 3);
            assert_eq!(plan.profile.map(|profile| profile.id), Some("quilt-1".to_string()));
            assert_eq!(install_root, "/home/me/.minecraft");
        }
        other => panic!("unexpected action: {:?}", other),
    }
    assert_eq!(session.end(), None);
    assert!(matches!(
        session.advance(InstallEvent::Written(Ok(()))),
        InstallAction::Finish(Ok(()))
    ));
    assert_eq!(session.end(), Some(Ok(())));
}

#[test]
fn client_install_without_profile_writes_none() {
    let mut request = client_request(Some(game()), Some(quilt()));
    request.generate_profile = false;
    let (mut session, _) = install_client(request);
    session.advance(InstallEvent::Resolved(Ok(three_artifacts())));
    match session.advance(InstallEvent::Downloaded(Ok(()))) {
        InstallAction::WriteClient { plan, .. } => assert_eq!(plan.profile, None),
        other => panic!("unexpected action: {:?}", other),
    }
}

#[test]
fn server_install_runs_its_stages_in_order() {
    let (mut session, first) =
        install_server(server_request(Some(game()), Some(quilt())), ScriptFlavor::Windows);
    assert!(matches!(first, InstallAction::Resolve(_)));
    assert!(matches!(
        session.advance(InstallEvent::Resolved(Ok(three_artifacts()))),
        InstallAction::Download { .. }
    ));
    match session.advance(InstallEvent::Downloaded(Ok(()))) {
        InstallAction::WriteServer { plan, install_root } => {
            assert!(plan.fetch_server_jar);
            assert_eq!(
                plan.launch_script,
                Some((
                    "start.bat".to_string(),
                    "java -cp \"libraries/loader.jar;libraries/intermediary.jar;libraries/asm.jar\" org.Main\r\n"
                        .to_string()
                ))
            );
            assert_eq!(install_root, "/srv/mc");
        }
        other => panic!("unexpected action: {:?}", other),
    }
    assert!(matches!(
        session.advance(InstallEvent::Written(Ok(()))),
        InstallAction::Finish(Ok(()))
    ));
}

#[test]
fn resolve_failure_ends_the_installation() {
    for error in
        [ResolveError::Network, ResolveError::Parse, ResolveError::UnsupportedCombination]
    {
        let mut session = resolving_client();
        match session.advance(InstallEvent::Resolved(Err(error))) {
            InstallAction::Finish(Err(InstallError::Resolve(wrapped))) => {
                assert_eq!(wrapped, error)
            }
            other => panic!("unexpected action: {:?}", other),
        }
        assert_eq!(session.end(), Some(Err(InstallError::Resolve(error))));
    }
}

#[test]
fn corrupted_artifact_ends_the_installation_with_integrity_mismatch() {
    let mut session = resolving_client();
    session.advance(InstallEvent::Resolved(Ok(three_artifacts())));
    let mismatch =
        DownloadError::IntegrityMismatch { coordinate: "org.quiltmc:intermediary:1".to_string() };
    match session.advance(InstallEvent::Downloaded(Err(mismatch.clone()))) {
        InstallAction::Finish(Err(InstallError::Download(error))) => assert_eq!(error, mismatch),
        other => panic!("unexpected action: {:?}", other),
    }
    assert_eq!(session.end(), Some(Err(InstallError::Download(mismatch.clone()))));
    match session.advance(InstallEvent::Written(Ok(()))) {
        InstallAction::Finish(Err(InstallError::Download(error))) => assert_eq!(error, mismatch),
        other => panic!("unexpected action: {:?}", other),
    }
}

#[test]
fn write_failure_does_not_start_the_download_again() {
    let mut session = resolving_client();
    session.advance(InstallEvent::Resolved(Ok(three_artifacts())));
    session.advance(InstallEvent::Downloaded(Ok(())));
    match session.advance(InstallEvent::Written(Err(WriteError::MalformedExistingState))) {
        InstallAction::Finish(Err(InstallError::Write(error))) => {
            assert_eq!(error, WriteError::MalformedExistingState)
        }
        other => panic!("unexpected action: {:?}", other),
    }
    for event in
        [InstallEvent::Downloaded(Ok(())), InstallEvent::Resolved(Ok(three_artifacts()))]
    {
        assert!(matches!(
            session.advance(event),
            InstallAction::Finish(Err(InstallError::Write(WriteError::MalformedExistingState)))
        ));
    }
    let mut other = resolving_client();
    other.advance(InstallEvent::Resolved(Ok(three_artifacts())));
    other.advance(InstallEvent::Downloaded(Ok(())));
    assert!(matches!(
        other.advance(InstallEvent::Written(Err(WriteError::Filesystem))),
        InstallAction::Finish(Err(InstallError::Write(WriteError::Filesystem)))
    ));
}

#[test]
fn answers_out_of_turn_change_nothing() {
    let mut session = resolving_client();
    assert!(matches!(session.advance(InstallEvent::Downloaded(Ok(()))), InstallAction::Wait));
    assert!(matches!(session.advance(InstallEvent::Written(Ok(()))), InstallAction::Wait));
    assert_eq!(session.end(), None);
    session.advance(InstallEvent::Resolved(Ok(three_artifacts())));
    assert!(matches!(
        session.advance(InstallEvent::Resolved(Ok(three_artifacts()))),
        InstallAction::Wait
    ));
    assert!(matches!(session.advance(InstallEvent::Written(Ok(()))), InstallAction::Wait));
    assert!(matches!(
        session.advance(InstallEvent::Downloaded(Ok(()))),
        InstallAction::WriteClient { .. }
    ));
    assert!(matches!(session.advance(InstallEvent::Downloaded(Ok(()))), InstallAction::Wait));
}

#[test]
fn installation_kinds_and_labels() {
    assert_eq!(Installation::all(), vec![Installation::Client, Installation::Server]);
    assert_eq!(Installation::default(), Installation::Client);
    assert_eq!(Installation::Client.label(), "Client");
    assert_eq!(Installation::Server.label(), "Server");
}

#[test]
fn requests_compare_and_clone_by_content() {
    let request = client_request(Some(game()), Some(quilt()));
    assert_eq!(request.clone(), request);
    assert_ne!(request, client_request(Some(game()), None));
    let server = server_request(Some(game()), Some(quilt()));
    assert_eq!(server.clone(), server);
    assert_ne!(server, server_request(None, Some(quilt())));
}
