use quilt_installer::download::{
    fetched, probed, roll_back, settle, staged_positions, ArtifactTask, RetryPolicy, Settlement,
    TaskAction, TaskEvent, TaskOutcome,
};
use quilt_installer::error::DownloadError;
use quilt_installer::manifest::Artifact;

fn artifact(name: &str, digest: &str) -> Artifact {
    Artifact {
        coordinate: format!("org.example:{}:1.0", name),
        download_url: format!("https://maven.example/{}.jar", name),
        digest: digest.to_string(),
        size_bytes: 42,
        destination_path: format!("libraries/{}.jar", name),
    }
}

fn policy(max_attempts: u32) -> RetryPolicy {
    RetryPolicy { max_attempts, base_delay_ms: 250, max_delay_ms: 2_000 }
}

fn started(digest: &str, max_attempts: u32) -> ArtifactTask {
    let (task, first) = ArtifactTask::new(&artifact("lib", digest), policy(max_attempts));
    assert!(matches!(first, TaskAction::Probe));
    task
}

fn mismatch() -> DownloadError {
    DownloadError::IntegrityMismatch { coordinate: "org.example:lib:1.0".to_string() }
}

#[test]
fn backoff_doubles_up_to_the_limit() {
    let p = policy(5);
    assert_eq!(p.delay_after(0), 0);
    assert_eq!(p.delay_after(1), 250);
    assert_eq!(p.delay_after(2), 500);
    assert_eq!(p.delay_after(3), 1_000);
    assert_eq!(p.delay_after(4), 2_000);
    assert_eq!(p.delay_after(5), 2_000);
    assert_eq!(p.delay_after(u32::MAX), 2_000);
}

#[test]
fn backoff_does_not_overflow() {
    let p = RetryPolicy { max_attempts: 3, base_delay_ms: u64::MAX / 2 + 1, max_delay_ms: u64::MAX };
    assert_eq!(p.delay_after(1), u64::MAX / 2 + 1);
    assert_eq!(p.delay_after(2), u64::MAX);
    assert_eq!(p.delay_after(200), u64::MAX);
    let flat = RetryPolicy { max_attempts: 3, base_delay_ms: 0, max_delay_ms: 10 };
    assert_eq!(flat.delay_after(50), 0);
    let capped = RetryPolicy { max_attempts: 3, base_delay_ms: 30, max_delay_ms: 10 };
    assert_eq!(capped.delay_after(1), 10);
}

#[test]
fn zero_attempts_count_as_one() {
    assert_eq!(policy(0).attempts(), 1);
    assert_eq!(policy(1).attempts(), 1);
    assert_eq!(policy(7).attempts(), 7);
}

#[test]
fn present_artifact_is_not_fetched() {
    let mut task = started("abc", 3);
    assert_eq!(task.outcome().is_none(), true);
    let action = task.advance(TaskEvent::Probed(Some("abc".to_string())));
    assert!(matches!(action, TaskAction::Finish(TaskOutcome::Present)));
    assert!(matches!(task.outcome(), Some(TaskOutcome::Present)));
}

#[test]
fn absent_or_stale_artifact_is_fetched_at_once() {
    let mut absent = started("abc", 3);
    assert!(matches!(absent.advance(TaskEvent::Probed(None)), TaskAction::Fetch { delay_ms: 0 }));
    let mut stale = started("abc", 3);
    assert!(matches!(
        stale.advance(TaskEvent::Probed(Some("old".to_string()))),
        TaskAction::Fetch { delay_ms: 0 }
    ));
}

#[test]
fn verified_bytes_are_staged() {
    let mut task = started("abc", 3);
    task.advance(TaskEvent::Probed(None));
    let action = task.advance(TaskEvent::Fetched("abc".to_string()));
    assert!(matches!(action, TaskAction::Finish(TaskOutcome::Staged)));
    assert!(matches!(task.outcome(), Some(TaskOutcome::Staged)));
}

#[test]
fn corrupted_bytes_are_never_staged() {
    let mut task = started("abc", 3);
    task.advance(TaskEvent::Probed(None));
    assert!(matches!(
        task.advance(TaskEvent::Fetched("bad".to_string())),
        TaskAction::Fetch { delay_ms: 250 }
    ));
    assert!(matches!(
        task.advance(TaskEvent::Fetched("bad".to_string())),
        TaskAction::Fetch { delay_ms: 500 }
    ));
    match task.advance(TaskEvent::Fetched("bad".to_string())) {
        TaskAction::Finish(TaskOutcome::Failed(error)) => assert_eq!(error, mismatch()),
        other => panic!("unexpected action: {:?}", other),
    }
    match task.outcome() {
        Some(TaskOutcome::Failed(error)) => assert_eq!(error, mismatch()),
        other => panic!("unexpected outcome: {:?}", other),
    }
}

#[test]
fn failed_transfer_is_retried_within_the_policy() {
    let mut task = started("abc", 2);
    task.advance(TaskEvent::Probed(None));
    assert!(matches!(task.advance(TaskEvent::TransferFailed), TaskAction::Fetch { delay_ms: 250 }));
    match task.advance(TaskEvent::TransferFailed) {
        TaskAction::Finish(TaskOutcome::Failed(error)) => assert_eq!(error, DownloadError::Network),
        other => panic!("unexpected action: {:?}", other),
    }
}

#[test]
fn retry_can_still_succeed() {
    let mut task = started("abc", 3);
    task.advance(TaskEvent::Probed(None));
    task.advance(TaskEvent::TransferFailed);
    task.advance(TaskEvent::Fetched("bad".to_string()));
    assert!(matches!(
        task.advance(TaskEvent::Fetched("abc".to_string())),
        TaskAction::Finish(TaskOutcome::Staged)
    ));
}

#[test]
fn single_attempt_fails_on_the_first_failure() {
    let mut task = started("abc", 0);
    task.advance(TaskEvent::Probed(None));
    match task.advance(TaskEvent::Fetched("bad".to_string())) {
        TaskAction::Finish(TaskOutcome::Failed(error)) => assert_eq!(error, mismatch()),
        other => panic!("unexpected action: {:?}", other),
    }
}

#[test]
fn filesystem_failure_ends_the_artifact_at_once() {
    let mut probing = started("abc", 3);
    match probing.advance(TaskEvent::FilesystemFailed) {
        TaskAction::Finish(TaskOutcome::Failed(error)) => {
            assert_eq!(error, DownloadError::Filesystem)
        }
        other => panic!("unexpected action: {:?}", other),
    }
    let mut fetching = started("abc", 3);
    fetching.advance(TaskEvent::Probed(None));
    match fetching.advance(TaskEvent::FilesystemFailed) {
        TaskAction::Finish(TaskOutcome::Failed(error)) => {
            assert_eq!(error, DownloadError::Filesystem)
        }
        other => panic!("unexpected action: {:?}", other),
    }
}

#[test]
fn unasked_events_change_nothing() {
    let mut task = started("abc", 3);
    assert!(matches!(task.advance(TaskEvent::Fetched("abc".to_string())), TaskAction::Wait));
    assert!(matches!(task.advance(TaskEvent::TransferFailed), TaskAction::Wait));
    assert!(task.outcome().is_none());
    task.advance(TaskEvent::Probed(None));
    assert!(matches!(task.advance(TaskEvent::Probed(Some("abc".to_string()))), TaskAction::Wait));
    assert!(task.outcome().is_none());
    assert!(matches!(
        task.advance(TaskEvent::Fetched("abc".to_string())),
        TaskAction::Finish(TaskOutcome::Staged)
    ));
}

#[test]
fn finished_artifact_stays_finished() {
    let mut task = started("abc", 3);
    task.advance(TaskEvent::Probed(Some("abc".to_string())));
    for event in [
        TaskEvent::Probed(None),
        TaskEvent::Fetched("bad".to_string()),
        TaskEvent::TransferFailed,
        TaskEvent::FilesystemFailed,
    ] {
        assert!(matches!(task.advance(event), TaskAction::Finish(TaskOutcome::Present)));
    }
}

#[test]
fn staged_positions_are_listed_in_order() {
    let outcomes = vec![
        TaskOutcome::Staged,
        TaskOutcome::Present,
        TaskOutcome::Failed(DownloadError::Network),
        TaskOutcome::Staged,
    ];
    assert_eq!(staged_positions(&outcomes), vec![0, 3]);
    assert_eq!(staged_positions(&Vec::new()), Vec::<usize>::new());
}

#[test]
fn settle_commits_when_nothing_failed() {
    let outcomes = vec![TaskOutcome::Present, TaskOutcome::Staged, TaskOutcome::Staged];
    match settle(&outcomes) {
        Settlement::Commit { staged } => assert_eq!(staged, vec![1, 2]),
        other => panic!("unexpected settlement: {:?}", other),
    }
    match settle(&Vec::new()) {
        Settlement::Commit { staged } => assert!(staged.is_empty()),
        other => panic!("unexpected settlement: {:?}", other),
    }
}

#[test]
fn settle_aborts_with_the_first_failure() {
    let outcomes = vec![
        TaskOutcome::Staged,
        TaskOutcome::Failed(mismatch()),
        TaskOutcome::Failed(DownloadError::Network),
        TaskOutcome::Staged,
    ];
    match settle(&outcomes) {
        Settlement::Abort { error, discard } => {
            assert_eq!(error, mismatch());
            assert_eq!(discard, vec![0, 3]);
        }
        other => panic!("unexpected settlement: {:?}", other),
    }
}

#[test]
fn second_run_transfers_nothing() {
    let artifacts = vec![artifact("a", "d1"), artifact("b", "d2"), artifact("c", "d3")];
    let mut outcomes = Vec::new();
    for artifact in artifacts.iter() {
        let (mut task, first) = ArtifactTask::new(artifact, policy(3));
        assert!(matches!(first, TaskAction::Probe));
        let action = task.advance(TaskEvent::Probed(Some(artifact.digest.clone())));
        assert!(!matches!(action, TaskAction::Fetch { .. }));
        outcomes.push(task.outcome().unwrap());
    }
    match settle(&outcomes) {
        Settlement::Commit { staged } => assert!(staged.is_empty()),
        other => panic!("unexpected settlement: {:?}", other),
    }
}

#[test]
fn one_corrupted_artifact_of_three_aborts_the_download() {
    let artifacts = vec![artifact("a", "d1"), artifact("lib", "d2"), artifact("c", "d3")];
    let mut outcomes = Vec::new();
    for artifact in artifacts.iter() {
        let (mut task, _) = ArtifactTask::new(artifact, policy(2));
        task.advance(TaskEvent::Probed(None));
        let remote = if artifact.digest == "d2" { "corrupt" } else { artifact.digest.as_str() };
        let mut action = task.advance(TaskEvent::Fetched(remote.to_string()));
        while matches!(action, TaskAction::Fetch { .. }) {
            action = task.advance(TaskEvent::Fetched(remote.to_string()));
        }
        outcomes.push(task.outcome().unwrap());
    }
    match settle(&outcomes) {
        Settlement::Abort { error, discard } => {
            assert_eq!(error, mismatch());
            assert_eq!(discard, vec![0, 2]);
        }
        other => panic!("unexpected settlement: {:?}", other),
    }
}

#[test]
fn roll_back_splits_at_the_failed_rename() {
    let staged = vec![4, 7, 9];
    let undo = roll_back(&staged, 1);
    assert_eq!(undo.remove, vec![4]);
    assert_eq!(undo.discard, vec![7, 9]);
    let first = roll_back(&staged, 0);
    assert!(first.remove.is_empty());
    assert_eq!(first.discard, vec![4, 7, 9]);
    let beyond = roll_back(&staged, 10);
    assert_eq!(beyond.remove, vec![4, 7, 9]);
    assert!(beyond.discard.is_empty());
}

const SHA1_OF_ABC: &str = "a9993e364706816aba3e25717850c26c9cd0d89d";
const SHA1_OF_NOTHING: &str = "da39a3ee5e6b4b0d3255bfef95601890afd80709";

#[test]
fn transferred_bytes_are_told_by_their_sha1() {
    match fetched(b"abc") {
        TaskEvent::Fetched(digest) => assert_eq!(digest, SHA1_OF_ABC),
        other => panic!("unexpected event: {:?}", other),
    }
    match fetched(b"") {
        TaskEvent::Fetched(digest) => assert_eq!(digest, SHA1_OF_NOTHING),
        other => panic!("unexpected event: {:?}", other),
    }
}

#[test]
fn probed_file_is_told_by_its_sha1() {
    match probed(Some(b"abc")) {
        TaskEvent::Probed(Some(digest)) => assert_eq!(digest, SHA1_OF_ABC),
        other => panic!("unexpected event: {:?}", other),
    }
    assert!(matches!(probed(None), TaskEvent::Probed(None)));
}

#[test]
fn file_with_the_expected_bytes_is_kept() {
    let mut task = started(SHA1_OF_ABC, 3);
    let action = task.advance(probed(Some(b"abc")));
    assert!(matches!(action, TaskAction::Finish(TaskOutcome::Present)));
}

#[test]
fn file_with_other_bytes_is_replaced() {
    let mut task = started(SHA1_OF_ABC, 3);
    let action = task.advance(probed(Some(b"abd")));
    assert!(matches!(action, TaskAction::Fetch { delay_ms: 0 }));
    let action = task.advance(fetched(b"abc"));
    assert!(matches!(action, TaskAction::Finish(TaskOutcome::Staged)));
}

#[test]
fn bytes_with_another_sha1_are_refused() {
    let mut task = started(SHA1_OF_ABC, 1);
    let action = task.advance(probed(None));
    assert!(matches!(action, TaskAction::Fetch { delay_ms: 0 }));
    match task.advance(fetched(b"abc ")) {
        TaskAction::Finish(TaskOutcome::Failed(error)) => assert_eq!(error, mismatch()),
        other => panic!("unexpected action: {:?}", other),
    }
}
