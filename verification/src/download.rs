//! Bringing the artifacts of a manifest into place: what to do with one
//! artifact after each thing that happens to it, and what to do with all of
//! them once each has come to an end.
//!
//! Nothing here transfers or touches a file. The caller reads, fetches into
//! a temporary file beside the destination, and renames; it hands over the
//! bytes that each step brought and is told the next one. Digests are taken
//! here, with SHA-1, and compared here. A file is renamed into place only
//! after every artifact of the manifest is there and verified, so a failure
//! leaves the installation root as it was.
use crate::error::{DownloadError, DownloadErrorView};
use crate::manifest::Artifact;
use vstd::prelude::*;

verus! {

/// How often a transfer is tried, and how long to wait between tries.
#[derive(Debug, Clone, Copy, PartialEq, Eq, Structural)]
pub struct RetryPolicy {
    /// How many transfers one artifact may take. Zero counts as one.
    pub max_attempts: u32,
    /// The wait after the first failure, in milliseconds. It doubles with
    /// each further failure.
    pub base_delay_ms: u64,
    /// The longest wait, in milliseconds.
    pub max_delay_ms: u64,
}

/// `base`, doubled `times` times.
pub open spec fn doubled(base: nat, times: nat) -> nat
    decreases times,
{
    if times == 0 {
        base
    } else {
        2 * doubled(base, (times - 1) as nat)
    }
}

/// The wait before the transfer that follows `failures` failed ones: none
/// before the first transfer, then the base delay doubled once for each
/// failure after the first, and never more than the longest wait.
pub open spec fn backoff(policy: RetryPolicy, failures: nat) -> nat {
    if failures == 0 {
        0
    } else {
        let raw = doubled(policy.base_delay_ms as nat, (failures - 1) as nat);
        if raw < policy.max_delay_ms {
            raw
        } else {
            policy.max_delay_ms as nat
        }
    }
}

/// How many transfers one artifact may take under `policy`.
pub open spec fn attempts_allowed(policy: RetryPolicy) -> nat {
    if policy.max_attempts == 0 {
        1
    } else {
        policy.max_attempts as nat
    }
}

/// Doubling more often gives no less.
pub proof fn doubled_grows(base: nat, fewer: nat, more: nat)
    requires
        fewer <= more,
    ensures
        doubled(base, fewer) <= doubled(base, more),
    decreases more,
{
    if fewer < more {
        doubled_grows(base, fewer, (more - 1) as nat);
    }
}

/// The waits never shrink from one failure to the next, and none is longer
/// than the longest wait.
pub proof fn backoff_grows_to_the_limit(policy: RetryPolicy, earlier: nat, later: nat)
    requires
        earlier <= later,
    ensures
        backoff(policy, earlier) <= backoff(policy, later) <= policy.max_delay_ms,
{
    if earlier > 0 {
        doubled_grows(policy.base_delay_ms as nat, (earlier - 1) as nat, (later - 1) as nat);
    }
}

impl RetryPolicy {
    /// The wait before the transfer that follows `failures` failed ones, in
    /// milliseconds.
    pub fn delay_after(&self, failures: u32) -> (delay_ms: u64)
        ensures
            delay_ms == backoff(*self, failures as nat),
    {
        if failures == 0 {
            return 0;
        }
        let ghost base = self.base_delay_ms as nat;
        let ghost target = (failures - 1) as nat;
        let mut delay: u64 = self.base_delay_ms;
        let mut done: u32 = 1;
        while done < failures
            invariant
                1 <= done <= failures,
                base == self.base_delay_ms,
                target == failures - 1,
                delay == doubled(base, (done - 1) as nat),
            decreases failures - done,
        {
            if delay >= self.max_delay_ms {
                proof {
                    doubled_grows(base, (done - 1) as nat, target);
                }
                return self.max_delay_ms;
            }
            if delay > self.max_delay_ms - delay {
                proof {
                    assert(doubled(base, done as nat) == 2 * doubled(base, (done - 1) as nat));
                    doubled_grows(base, done as nat, target);
                }
                return self.max_delay_ms;
            }
            delay = delay + delay;
            proof {
                assert(doubled(base, done as nat) == 2 * doubled(base, (done - 1) as nat));
            }
            done += 1;
        }
        if delay < self.max_delay_ms {
            delay
        } else {
            self.max_delay_ms
        }
    }

    /// How many transfers one artifact may take.
    pub fn attempts(&self) -> (allowed: u32)
        ensures
            allowed == attempts_allowed(*self),
    {
        if self.max_attempts == 0 {
            1
        } else {
            self.max_attempts
        }
    }
}

/// How one artifact ended.
#[derive(Debug)]
pub enum TaskOutcome {
    /// It was already in place with the right digest, and was left alone.
    Present,
    /// Its verified bytes lie in the temporary file, ready to be renamed.
    Staged,
    /// It could not be had.
    Failed(DownloadError),
}

/// The model of a [`TaskOutcome`].
pub enum TaskOutcomeView {
    Present,
    Staged,
    Failed(DownloadErrorView),
}

impl View for TaskOutcome {
    type V = TaskOutcomeView;

    open spec fn view(&self) -> TaskOutcomeView {
        match self {
            TaskOutcome::Present => TaskOutcomeView::Present,
            TaskOutcome::Staged => TaskOutcomeView::Staged,
            TaskOutcome::Failed(error) => TaskOutcomeView::Failed(error@),
        }
    }
}

impl DeepView for TaskOutcome {
    type V = TaskOutcomeView;

    open spec fn deep_view(&self) -> TaskOutcomeView {
        self@
    }
}

impl Clone for TaskOutcome {
    fn clone(&self) -> (copy: Self)
        ensures
            copy == *self,
    {
        match self {
            TaskOutcome::Present => TaskOutcome::Present,
            TaskOutcome::Staged => TaskOutcome::Staged,
            TaskOutcome::Failed(error) => TaskOutcome::Failed(error.clone()),
        }
    }
}

/// Where one artifact stands.
#[derive(Debug)]
pub enum TaskState {
    /// The digest of what is at its destination has been asked for.
    Probing,
    /// Transfer number `attempt` is under way.
    Fetching { attempt: u32 },
    /// It has come to an end.
    Finished(TaskOutcome),
}

/// The model of a [`TaskState`].
pub enum TaskStateView {
    Probing,
    Fetching { attempt: u32 },
    Finished(TaskOutcomeView),
}

impl View for TaskState {
    type V = TaskStateView;

    open spec fn view(&self) -> TaskStateView {
        match self {
            TaskState::Probing => TaskStateView::Probing,
            TaskState::Fetching { attempt } => TaskStateView::Fetching { attempt: *attempt },
            TaskState::Finished(outcome) => TaskStateView::Finished(outcome@),
        }
    }
}

/// What happened to one artifact.
#[derive(Debug)]
pub enum TaskEvent {
    /// The destination was looked at: the digest of the file there, or
    /// `None` where there is no file. [`probed`] makes one from the bytes.
    Probed(Option<String>),
    /// A transfer ended, with the digest of the bytes now in the temporary
    /// file. [`fetched`] makes one from the bytes.
    Fetched(String),
    /// A transfer failed, or ran out of time.
    TransferFailed,
    /// A file could not be read or written.
    FilesystemFailed,
}

/// The SHA-1 of `bytes`, written as hexadecimal digits in lower case.
pub uninterp spec fn sha1_hex(bytes: Seq<u8>) -> Seq<char>;

/// The digest of `bytes`, by `sha1_smol::Sha1::from`, `Sha1::digest` and the
/// `Display` of the `Digest` that comes out.
///
/// Not proved: that what comes back is the SHA-1 of `bytes` in hexadecimal.
/// The contract claims no more of it than that it depends on the bytes alone.
#[verifier::external_body]
fn hex_digest(bytes: &[u8]) -> (hex: String)
    ensures
        hex@ == sha1_hex(bytes@),
{
    sha1_smol::Sha1::from(bytes).digest().to_string()
}

/// Whether `event` tells of a look at the destination that found `found`
/// there: the bytes of the file, or `None` where there is no file.
pub open spec fn tells_of_probe(event: TaskEvent, found: Option<Seq<u8>>) -> bool {
    match event {
        TaskEvent::Probed(digest) => digest.deep_view() == match found {
            Some(bytes) => Some(sha1_hex(bytes)),
            None => None,
        },
        _ => false,
    }
}

/// Whether `event` tells of a transfer that brought `bytes`.
pub open spec fn tells_of_transfer(event: TaskEvent, bytes: Seq<u8>) -> bool {
    match event {
        TaskEvent::Fetched(digest) => digest@ == sha1_hex(bytes),
        _ => false,
    }
}

/// The event for a look at the destination that found `found` there: the
/// bytes of the file, or `None` where there is no file.
pub fn probed(found: Option<&[u8]>) -> (event: TaskEvent)
    ensures
        tells_of_probe(
            event,
            match found {
                Some(bytes) => Some(bytes@),
                None => None,
            },
        ),
{
    match found {
        Some(bytes) => TaskEvent::Probed(Some(hex_digest(bytes))),
        None => TaskEvent::Probed(None),
    }
}

/// The event for a transfer that left `bytes` in the temporary file.
pub fn fetched(bytes: &[u8]) -> (event: TaskEvent)
    ensures
        tells_of_transfer(event, bytes@),
{
    TaskEvent::Fetched(hex_digest(bytes))
}

/// What to do about one artifact.
#[derive(Debug)]
pub enum TaskAction {
    /// Look at the destination and answer with [`TaskEvent::Probed`].
    Probe,
    /// Wait `delay_ms` milliseconds, transfer the bytes into the temporary
    /// file, in place of what is there, and answer with
    /// [`TaskEvent::Fetched`] or [`TaskEvent::TransferFailed`].
    Fetch { delay_ms: u64 },
    /// Nothing: the answer to the last action is still awaited.
    Wait,
    /// The artifact has come to this end.
    Finish(TaskOutcome),
}

/// The model of a [`TaskAction`].
pub enum TaskActionView {
    Probe,
    Fetch { delay_ms: u64 },
    Wait,
    Finish(TaskOutcomeView),
}

impl View for TaskAction {
    type V = TaskActionView;

    open spec fn view(&self) -> TaskActionView {
        match self {
            TaskAction::Probe => TaskActionView::Probe,
            TaskAction::Fetch { delay_ms } => TaskActionView::Fetch { delay_ms: *delay_ms },
            TaskAction::Wait => TaskActionView::Wait,
            TaskAction::Finish(outcome) => TaskActionView::Finish(outcome@),
        }
    }
}

/// The work on one artifact: what is expected of it, under which policy, and
/// where it stands.
#[derive(Debug)]
pub struct ArtifactTask {
    coordinate: String,
    expected_digest: String,
    policy: RetryPolicy,
    state: TaskState,
}

/// The model of an [`ArtifactTask`].
pub struct TaskModel {
    /// The name of the artifact.
    pub coordinate: Seq<char>,
    /// The digest that its bytes must have.
    pub expected_digest: Seq<char>,
    /// How often a transfer is tried.
    pub policy: RetryPolicy,
    /// Where the artifact stands.
    pub state: TaskStateView,
}

/// What follows the failure of transfer number `attempt` with `error`:
/// another transfer after the wait that is due, while the policy allows one;
/// else the end of the artifact, with that error.
pub open spec fn after_failure(task: TaskModel, attempt: u32, error: DownloadErrorView) -> (
    TaskStateView,
    TaskActionView,
) {
    if attempt < attempts_allowed(task.policy) {
        (
            TaskStateView::Fetching { attempt: (attempt + 1) as u32 },
            TaskActionView::Fetch { delay_ms: backoff(task.policy, attempt as nat) as u64 },
        )
    } else {
        (
            TaskStateView::Finished(TaskOutcomeView::Failed(error)),
            TaskActionView::Finish(TaskOutcomeView::Failed(error)),
        )
    }
}

/// Where `task` stands after `event`, and what to do next.
///
/// - An artifact that is found in place with the expected digest is left
///   alone: nothing is transferred for it.
/// - Any other is transferred. Bytes with the expected digest are staged.
///   Bytes with another digest are never staged: the transfer counts as
///   failed, with an integrity mismatch that names the artifact.
/// - A failed transfer is tried again while the policy allows it.
/// - A filesystem failure ends the artifact at once.
/// - An event that answers nothing that was asked changes nothing, and so
///   does any event after the end.
pub open spec fn task_step(task: TaskModel, event: TaskEvent) -> (TaskStateView, TaskActionView) {
    match task.state {
        TaskStateView::Probing => match event {
            TaskEvent::Probed(found) => if found.deep_view() == Some(task.expected_digest) {
                (
                    TaskStateView::Finished(TaskOutcomeView::Present),
                    TaskActionView::Finish(TaskOutcomeView::Present),
                )
            } else {
                (TaskStateView::Fetching { attempt: 1 }, TaskActionView::Fetch { delay_ms: 0 })
            },
            TaskEvent::FilesystemFailed => (
                TaskStateView::Finished(TaskOutcomeView::Failed(DownloadErrorView::Filesystem)),
                TaskActionView::Finish(TaskOutcomeView::Failed(DownloadErrorView::Filesystem)),
            ),
            _ => (task.state, TaskActionView::Wait),
        },
        TaskStateView::Fetching { attempt } => match event {
            TaskEvent::Fetched(digest) => if digest@ == task.expected_digest {
                (
                    TaskStateView::Finished(TaskOutcomeView::Staged),
                    TaskActionView::Finish(TaskOutcomeView::Staged),
                )
            } else {
                after_failure(
                    task,
                    attempt,
                    DownloadErrorView::IntegrityMismatch { coordinate: task.coordinate },
                )
            },
            TaskEvent::TransferFailed => after_failure(task, attempt, DownloadErrorView::Network),
            TaskEvent::FilesystemFailed => (
                TaskStateView::Finished(TaskOutcomeView::Failed(DownloadErrorView::Filesystem)),
                TaskActionView::Finish(TaskOutcomeView::Failed(DownloadErrorView::Filesystem)),
            ),
            TaskEvent::Probed(_) => (task.state, TaskActionView::Wait),
        },
        TaskStateView::Finished(outcome) => (task.state, TaskActionView::Finish(outcome)),
    }
}

/// Whether `task` has used no more transfers than its policy allows.
pub open spec fn within_attempts(task: TaskModel) -> bool {
    task.state matches TaskStateView::Fetching { attempt } ==> 1 <= attempt <= attempts_allowed(
        task.policy,
    )
}

/// An artifact that is found in place with the digest expected of it ends as
/// present, and nothing is transferred for it.
pub proof fn present_artifact_is_left_alone(task: TaskModel, found: String)
    requires
        task.state == TaskStateView::Probing,
        found@ == task.expected_digest,
    ensures
        task_step(task, TaskEvent::Probed(Some(found))) == (
            TaskStateView::Finished(TaskOutcomeView::Present),
            TaskActionView::Finish(TaskOutcomeView::Present),
        ),
{
}

/// Whether `event` is the end of a transfer whose bytes have the digest
/// that `task` expects.
pub open spec fn brings_expected_bytes(task: TaskModel, event: TaskEvent) -> bool {
    match event {
        TaskEvent::Fetched(digest) => digest@ == task.expected_digest,
        _ => false,
    }
}

/// An artifact becomes staged only through a transfer whose bytes have the
/// digest expected of it. Bytes with any other digest leave it unstaged.
pub proof fn only_verified_bytes_are_staged(task: TaskModel, event: TaskEvent)
    ensures
        task_step(task, event).0 == TaskStateView::Finished(TaskOutcomeView::Staged) ==> task.state
            == TaskStateView::Finished(TaskOutcomeView::Staged) || (task.state is Fetching
            && brings_expected_bytes(task, event)),
        event is Fetched && !brings_expected_bytes(task, event) && task.state
            != TaskStateView::Finished(TaskOutcomeView::Staged) ==> task_step(task, event).0
            != TaskStateView::Finished(TaskOutcomeView::Staged),
{
}

/// While a transfer is awaited, the bytes that it brings are staged exactly
/// when their SHA-1 is the digest expected of the artifact.
pub proof fn bytes_are_staged_by_their_digest(task: TaskModel, event: TaskEvent, bytes: Seq<u8>)
    requires
        task.state is Fetching,
        tells_of_transfer(event, bytes),
    ensures
        task_step(task, event).0 == TaskStateView::Finished(TaskOutcomeView::Staged) <==> sha1_hex(
            bytes,
        ) == task.expected_digest,
{
}

/// A file that is already at the destination is left alone, with nothing
/// transferred, exactly when its SHA-1 is the digest expected of the
/// artifact. Where there is no file, or another, a transfer follows.
pub proof fn file_in_place_is_kept_by_its_digest(
    task: TaskModel,
    event: TaskEvent,
    found: Option<Seq<u8>>,
)
    requires
        task.state == TaskStateView::Probing,
        tells_of_probe(event, found),
    ensures
        task_step(task, event) == if found matches Some(bytes) && sha1_hex(bytes)
            == task.expected_digest {
            (
                TaskStateView::Finished(TaskOutcomeView::Present),
                TaskActionView::Finish(TaskOutcomeView::Present),
            )
        } else {
            (TaskStateView::Fetching { attempt: 1 }, TaskActionView::Fetch { delay_ms: 0 })
        },
{
}

/// The last transfer that the policy allows, when its bytes have the wrong
/// digest, ends the artifact with an integrity mismatch that names it.
pub proof fn last_mismatch_is_final(task: TaskModel, attempt: u32, digest: String)
    requires
        task.state == (TaskStateView::Fetching { attempt }),
        attempt >= attempts_allowed(task.policy),
        digest@ != task.expected_digest,
    ensures
        task_step(task, TaskEvent::Fetched(digest)).0 == TaskStateView::Finished(
            TaskOutcomeView::Failed(
                DownloadErrorView::IntegrityMismatch { coordinate: task.coordinate },
            ),
        ),
{
}

/// No artifact takes more transfers than its policy allows.
pub proof fn attempts_stay_within_policy(task: TaskModel, event: TaskEvent)
    requires
        within_attempts(task),
    ensures
        within_attempts(TaskModel { state: task_step(task, event).0, ..task }),
{
}

/// Once an artifact has come to an end, nothing changes it.
pub proof fn finished_task_stays_finished(task: TaskModel, event: TaskEvent)
    requires
        task.state is Finished,
    ensures
        task_step(task, event).0 == task.state,
{
}

impl ArtifactTask {
    /// The model of the work on the artifact.
    pub closed spec fn model(&self) -> TaskModel {
        TaskModel {
            coordinate: self.coordinate@,
            expected_digest: self.expected_digest@,
            policy: self.policy,
            state: self.state@,
        }
    }

    /// The work on `artifact` under `policy`, which starts by looking at the
    /// destination.
    pub fn new(artifact: &Artifact, policy: RetryPolicy) -> (start: (ArtifactTask, TaskAction))
        ensures
            start.0.model() == (TaskModel {
                coordinate: artifact@.coordinate,
                expected_digest: artifact@.digest,
                policy,
                state: TaskStateView::Probing,
            }),
            start.1@ == TaskActionView::Probe,
            within_attempts(start.0.model()),
    {
        (
            ArtifactTask {
                coordinate: artifact.coordinate.clone(),
                expected_digest: artifact.digest.clone(),
                policy,
                state: TaskState::Probing,
            },
            TaskAction::Probe,
        )
    }

    /// How the artifact ended, if it has.
    pub fn outcome(&self) -> (outcome: Option<TaskOutcome>)
        ensures
            outcome.deep_view() == match self.model().state {
                TaskStateView::Finished(ended) => Some(ended),
                _ => None::<TaskOutcomeView>,
            },
    {
        match &self.state {
            TaskState::Finished(ended) => Some(ended.clone()),
            _ => None,
        }
    }

    /// What follows the failure of transfer number `attempt` with `error`.
    fn fail(&mut self, attempt: u32, error: DownloadError) -> (action: TaskAction)
        ensures
            final(self).model() == (TaskModel {
                state: after_failure(old(self).model(), attempt, error@).0,
                ..old(self).model()
            }),
            action@ == after_failure(old(self).model(), attempt, error@).1,
    {
        if attempt < self.policy.attempts() {
            let delay_ms = self.policy.delay_after(attempt);
            self.state = TaskState::Fetching { attempt: attempt + 1 };
            TaskAction::Fetch { delay_ms }
        } else {
            self.state = TaskState::Finished(TaskOutcome::Failed(error.clone()));
            TaskAction::Finish(TaskOutcome::Failed(error))
        }
    }

    /// Takes `event` in: the task stands where [`task_step`] says, and the
    /// action that [`task_step`] gives is returned.
    pub fn advance(&mut self, event: TaskEvent) -> (action: TaskAction)
        ensures
            final(self).model() == (TaskModel {
                state: task_step(old(self).model(), event).0,
                ..old(self).model()
            }),
            action@ == task_step(old(self).model(), event).1,
            within_attempts(old(self).model()) ==> within_attempts(final(self).model()),
    {
        proof {
            if within_attempts(self.model()) {
                attempts_stay_within_policy(self.model(), event);
            }
        }
        let attempt: u32 = match &self.state {
            TaskState::Probing => 0,
            TaskState::Fetching { attempt } => *attempt,
            TaskState::Finished(outcome) => {
                return TaskAction::Finish(outcome.clone());
            },
        };
        let probing = matches!(self.state, TaskState::Probing);
        match event {
            TaskEvent::Probed(found) => {
                if probing {
                    let in_place = match found {
                        Some(digest) => digest == self.expected_digest,
                        None => false,
                    };
                    if in_place {
                        self.state = TaskState::Finished(TaskOutcome::Present);
                        TaskAction::Finish(TaskOutcome::Present)
                    } else {
                        self.state = TaskState::Fetching { attempt: 1 };
                        TaskAction::Fetch { delay_ms: 0 }
                    }
                } else {
                    TaskAction::Wait
                }
            },
            TaskEvent::Fetched(digest) => {
                if probing {
                    TaskAction::Wait
                } else if digest == self.expected_digest {
                    self.state = TaskState::Finished(TaskOutcome::Staged);
                    TaskAction::Finish(TaskOutcome::Staged)
                } else {
                    let coordinate = self.coordinate.clone();
                    self.fail(attempt, DownloadError::IntegrityMismatch { coordinate })
                }
            },
            TaskEvent::TransferFailed => {
                if probing {
                    TaskAction::Wait
                } else {
                    self.fail(attempt, DownloadError::Network)
                }
            },
            TaskEvent::FilesystemFailed => {
                self.state = TaskState::Finished(TaskOutcome::Failed(DownloadError::Filesystem));
                TaskAction::Finish(TaskOutcome::Failed(DownloadError::Filesystem))
            },
        }
    }
}

/// Whether position `i` of `outcomes` holds a failure and no earlier position
/// does.
pub open spec fn is_first_failure(outcomes: Seq<TaskOutcomeView>, i: int) -> bool {
    &&& 0 <= i < outcomes.len()
    &&& outcomes[i] is Failed
    &&& forall|j: int| 0 <= j < i ==> !((#[trigger] outcomes[j]) is Failed)
}

/// Whether `positions` lists, in rising order, exactly the positions of
/// `outcomes` that hold a staged artifact.
pub open spec fn lists_staged(positions: Seq<usize>, outcomes: Seq<TaskOutcomeView>) -> bool {
    &&& forall|k: int, l: int|
        0 <= k < l < positions.len() ==> (#[trigger] positions[k]) < (#[trigger] positions[l])
    &&& forall|k: int|
        0 <= k < positions.len() ==> (#[trigger] positions[k]) < outcomes.len()
            && outcomes[positions[k] as int] is Staged
    &&& forall|i: int|
        0 <= i < outcomes.len() && (#[trigger] outcomes[i]) is Staged ==> positions.contains(
            i as usize,
        )
}

/// Where every artifact was found in place, no position is staged: a second
/// run on an unchanged manifest renames nothing, as it transfers nothing.
pub proof fn nothing_is_staged_when_all_are_present(
    positions: Seq<usize>,
    outcomes: Seq<TaskOutcomeView>,
)
    requires
        lists_staged(positions, outcomes),
        forall|i: int| 0 <= i < outcomes.len() ==> (#[trigger] outcomes[i]) is Present,
    ensures
        positions.len() == 0,
{
    if positions.len() > 0 {
        assert(outcomes[positions[0] as int] is Staged);
    }
}

/// What to do once every artifact of a manifest has come to an end.
#[derive(Debug)]
pub enum Settlement {
    /// Every artifact is there. Rename the temporary file of each of these
    /// into place, in this order.
    Commit { staged: Vec<usize> },
    /// An artifact failed: the download fails with this error. Delete the
    /// temporary file of each of these, and rename nothing.
    Abort { error: DownloadError, discard: Vec<usize> },
}

/// The positions of `outcomes` that hold a staged artifact, in rising order.
pub fn staged_positions(outcomes: &Vec<TaskOutcome>) -> (positions: Vec<usize>)
    ensures
        lists_staged(positions@, outcomes.deep_view()),
{
    let ghost models = outcomes.deep_view();
    let mut positions: Vec<usize> = Vec::new();
    let mut i: usize = 0;
    while i < outcomes.len()
        invariant
            i <= outcomes.len(),
            models == outcomes.deep_view(),
            forall|k: int, l: int|
                0 <= k < l < positions.len() ==> (#[trigger] positions[k]) < (
                #[trigger] positions[l]),
            forall|k: int|
                0 <= k < positions.len() ==> (#[trigger] positions[k]) < i
                    && models[positions[k] as int] is Staged,
            forall|j: int|
                0 <= j < i && (#[trigger] models[j]) is Staged ==> positions@.contains(j as usize),
        decreases outcomes.len() - i,
    {
        if matches!(outcomes[i], TaskOutcome::Staged) {
            let ghost before = positions@;
            positions.push(i);
            proof {
                assert(models[i as int] is Staged);
                assert(positions@[before.len() as int] == i);
                assert forall|j: int|
                    0 <= j < i + 1 && (#[trigger] models[j]) is Staged implies positions@.contains(
                    j as usize,
                ) by {
                    if j < i {
                        assert(before.contains(j as usize));
                        let k = choose|k: int| 0 <= k < before.len() && before[k] == j as usize;
                        assert(positions@[k] == j as usize);
                    }
                }
            }
        }
        i += 1;
    }
    positions
}

/// What to do about a manifest whose artifacts ended as `outcomes`, in the
/// order of the manifest.
///
/// Where one failed, the download fails with the error of the first that
/// did, and every staged file is to be discarded. Where none failed, the
/// staged files are to be renamed into place. Either way the list holds the
/// staged positions, and those alone.
pub fn settle(outcomes: &Vec<TaskOutcome>) -> (settlement: Settlement)
    ensures
        match settlement {
            Settlement::Commit { staged } => lists_staged(staged@, outcomes.deep_view()) && forall|
                i: int,
            |
                0 <= i < outcomes.len() ==> !((#[trigger] outcomes.deep_view()[i]) is Failed),
            Settlement::Abort { error, discard } => lists_staged(discard@, outcomes.deep_view())
                && exists|i: int|
                is_first_failure(outcomes.deep_view(), i) && outcomes.deep_view()[i]
                    == TaskOutcomeView::Failed(error@),
        },
{
    let ghost models = outcomes.deep_view();
    let positions = staged_positions(outcomes);
    let mut i: usize = 0;
    while i < outcomes.len()
        invariant
            i <= outcomes.len(),
            models == outcomes.deep_view(),
            lists_staged(positions@, models),
            forall|j: int| 0 <= j < i ==> !((#[trigger] models[j]) is Failed),
        decreases outcomes.len() - i,
    {
        match &outcomes[i] {
            TaskOutcome::Failed(error) => {
                let error = error.clone();
                proof {
                    assert(is_first_failure(models, i as int));
                    assert(models[i as int] == TaskOutcomeView::Failed(error@));
                }
                return Settlement::Abort { error, discard: positions };
            },
            _ => {},
        }
        i += 1;
    }
    Settlement::Commit { staged: positions }
}

/// What to undo when a rename failed part of the way through a commit.
#[derive(Debug)]
pub struct Rollback {
    /// The positions whose files were renamed into place and are to be taken
    /// out again.
    pub remove: Vec<usize>,
    /// The positions whose temporary files are still there and are to be
    /// deleted.
    pub discard: Vec<usize>,
}

/// What to undo when, of the files `staged` for a commit, the one at place
/// `failed_at` of the list could not be renamed: those before it are taken
/// out again, it and those after it are discarded. The download then fails
/// with [`DownloadError::Filesystem`].
pub fn roll_back(staged: &Vec<usize>, failed_at: usize) -> (undo: Rollback)
    ensures
        undo.remove@ == staged@.take(
            if failed_at <= staged.len() {
                failed_at as int
            } else {
                staged.len() as int
            },
        ),
        undo.discard@ == staged@.skip(
            if failed_at <= staged.len() {
                failed_at as int
            } else {
                staged.len() as int
            },
        ),
{
    let cut: usize = if failed_at <= staged.len() {
        failed_at
    } else {
        staged.len()
    };
    let mut remove: Vec<usize> = Vec::new();
    let mut discard: Vec<usize> = Vec::new();
    let mut i: usize = 0;
    while i < staged.len()
        invariant
            i <= staged.len(),
            cut <= staged.len(),
            remove@ == staged@.take(if i <= cut {
                i as int
            } else {
                cut as int
            }),
            discard@ == staged@.subrange(cut as int, if i <= cut {
                cut as int
            } else {
                i as int
            }),
        decreases staged.len() - i,
    {
        if i < cut {
            remove.push(staged[i]);
            assert(remove@ =~= staged@.take(i + 1));
        } else {
            discard.push(staged[i]);
            assert(discard@ =~= staged@.subrange(cut as int, i + 1));
        }
        i += 1;
    }
    assert(discard@ =~= staged@.skip(cut as int));
    Rollback { remove, discard }
}

} // verus!
