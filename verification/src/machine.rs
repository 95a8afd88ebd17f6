//! The per-repository merge sequence as a verified state machine.
//!
//! One [`MergeMachine`] owns one [`MergeJob`]. The machine never touches a
//! repository itself: at each state it names the git action to perform
//! ([`MergeMachine::current_action`]), the caller performs it and reports
//! what happened as a [`GitEvent`], and [`MergeMachine::step`] moves to the
//! next state. Every transition is pinned down by [`step_view`], so the
//! order of the steps, the handling of failures, conflicts and the
//! already-up-to-date case, and the exact commit message are all proved.

use vstd::prelude::*;

use crate::messages::merge_commit_message;
use crate::messages::merge_message_view;
use crate::model::MergeJob;
use crate::model::MergeJobView;
use crate::model::MergeOutcome;
use crate::model::MergeOutcomeView;
use crate::model::PublishConfig;
use crate::model::PublishConfigView;
use crate::model::Stage;
use crate::strings::after_last;
use crate::strings::concat2;
use crate::strings::concat3;
use crate::strings::contains_char;
use crate::strings::str_contains_char;

verus! {

/// What the caller reports back after performing the requested git action.
#[derive(Debug, PartialEq, Eq)]
pub enum GitEvent {
    /// The requested operation succeeded and carries no data.
    Completed,
    /// The requested operation failed, with the underlying reason.
    Failed(String),
    /// Ensure-remote: a remote of the requested name was newly created.
    RemoteCreated,
    /// Ensure-remote: a remote of the requested name already existed.
    RemoteExists,
    /// Conflict inspection: whether the index holds unresolved conflicts.
    ConflictsFound(bool),
    /// Status inspection: whether the working tree differs from `HEAD`.
    TreeChanged(bool),
    /// A commit was created, with its id.
    Committed(String),
}

/// Mathematical view of a [`GitEvent`].
pub enum GitEventView {
    Completed,
    Failed(Seq<char>),
    RemoteCreated,
    RemoteExists,
    ConflictsFound(bool),
    TreeChanged(bool),
    Committed(Seq<char>),
}

impl View for GitEvent {
    type V = GitEventView;

    open spec fn view(&self) -> GitEventView {
        match self {
            GitEvent::Completed => GitEventView::Completed,
            GitEvent::Failed(reason) => GitEventView::Failed(reason@),
            GitEvent::RemoteCreated => GitEventView::RemoteCreated,
            GitEvent::RemoteExists => GitEventView::RemoteExists,
            GitEvent::ConflictsFound(b) => GitEventView::ConflictsFound(*b),
            GitEvent::TreeChanged(b) => GitEventView::TreeChanged(*b),
            GitEvent::Committed(id) => GitEventView::Committed(id@),
        }
    }
}

/// The git action the caller must perform next for a machine.
#[derive(Debug, PartialEq, Eq)]
pub enum GitAction {
    /// Open the local checkout at this path.
    OpenRepo { path: String },
    /// Create the remote, treating an already-existing remote of the same
    /// name as success.
    EnsureRemote { name: String, url: String },
    /// Fetch exactly this ref from the job's remote, and no other refs.
    Fetch { refspec: String },
    /// Resolve the fetched ref to an annotated commit.
    ResolveReference { refspec: String },
    /// Merge the resolved commit into the current checkout state with the
    /// default merge and checkout strategy.
    Merge,
    /// Inspect the index for unresolved conflicts.
    CheckConflicts,
    /// Check whether the merge changed the working tree relative to `HEAD`.
    CheckChanges,
    /// Stage all changes and commit them on the current branch, with this
    /// message and the previous `HEAD` as sole parent.
    Commit { message: String },
    /// Clear any in-progress merge state.
    Cleanup,
    /// Push `HEAD` to this refspec on the publish remote.
    Push { remote: String, refspec: String },
    /// The job is finished with this outcome; nothing more to perform.
    Finish(MergeOutcome),
}

/// Mathematical view of a [`GitAction`].
pub enum GitActionView {
    OpenRepo { path: Seq<char> },
    EnsureRemote { name: Seq<char>, url: Seq<char> },
    Fetch { refspec: Seq<char> },
    ResolveReference { refspec: Seq<char> },
    Merge,
    CheckConflicts,
    CheckChanges,
    Commit { message: Seq<char> },
    Cleanup,
    Push { remote: Seq<char>, refspec: Seq<char> },
    Finish(MergeOutcomeView),
}

impl View for GitAction {
    type V = GitActionView;

    open spec fn view(&self) -> GitActionView {
        match self {
            GitAction::OpenRepo { path } => GitActionView::OpenRepo { path: path@ },
            GitAction::EnsureRemote { name, url } => GitActionView::EnsureRemote {
                name: name@,
                url: url@,
            },
            GitAction::Fetch { refspec } => GitActionView::Fetch { refspec: refspec@ },
            GitAction::ResolveReference { refspec } => GitActionView::ResolveReference {
                refspec: refspec@,
            },
            GitAction::Merge => GitActionView::Merge,
            GitAction::CheckConflicts => GitActionView::CheckConflicts,
            GitAction::CheckChanges => GitActionView::CheckChanges,
            GitAction::Commit { message } => GitActionView::Commit { message: message@ },
            GitAction::Cleanup => GitActionView::Cleanup,
            GitAction::Push { remote, refspec } => GitActionView::Push {
                remote: remote@,
                refspec: refspec@,
            },
            GitAction::Finish(outcome) => GitActionView::Finish(outcome@),
        }
    }
}

/// The states of the merge sequence, in the order they are passed through.
#[derive(Debug, PartialEq, Eq)]
pub enum MachineState {
    AtOpenRepo,
    AtEnsureRemote,
    AtFetch,
    AtResolveReference,
    AtMerge,
    AtConflictCheck,
    AtNoOpDetection,
    AtCommitIfChanged,
    /// Cleanup follows both the commit path (`committed` holds the new
    /// commit's id) and the already-up-to-date path (`committed` is `None`).
    AtCleanup { committed: Option<String> },
    AtPushIfRequested { commit: String },
    Finished(MergeOutcome),
}

/// Mathematical view of a [`MachineState`].
pub enum MachineStateView {
    AtOpenRepo,
    AtEnsureRemote,
    AtFetch,
    AtResolveReference,
    AtMerge,
    AtConflictCheck,
    AtNoOpDetection,
    AtCommitIfChanged,
    AtCleanup { committed: Option<Seq<char>> },
    AtPushIfRequested { commit: Seq<char> },
    Finished(MergeOutcomeView),
}

impl View for MachineState {
    type V = MachineStateView;

    open spec fn view(&self) -> MachineStateView {
        match self {
            MachineState::AtOpenRepo => MachineStateView::AtOpenRepo,
            MachineState::AtEnsureRemote => MachineStateView::AtEnsureRemote,
            MachineState::AtFetch => MachineStateView::AtFetch,
            MachineState::AtResolveReference => MachineStateView::AtResolveReference,
            MachineState::AtMerge => MachineStateView::AtMerge,
            MachineState::AtConflictCheck => MachineStateView::AtConflictCheck,
            MachineState::AtNoOpDetection => MachineStateView::AtNoOpDetection,
            MachineState::AtCommitIfChanged => MachineStateView::AtCommitIfChanged,
            MachineState::AtCleanup { committed } => MachineStateView::AtCleanup {
                committed: match committed {
                    Some(id) => Some(id@),
                    None => None,
                },
            },
            MachineState::AtPushIfRequested { commit } => MachineStateView::AtPushIfRequested {
                commit: commit@,
            },
            MachineState::Finished(outcome) => MachineStateView::Finished(outcome@),
        }
    }
}

/// The stage label under which a failure in this state is reported.
pub open spec fn stage_of(s: MachineStateView) -> Stage
    recommends
        !(s is Finished),
{
    match s {
        MachineStateView::AtOpenRepo => Stage::OpenRepo,
        MachineStateView::AtEnsureRemote => Stage::EnsureRemote,
        MachineStateView::AtFetch => Stage::Fetch,
        MachineStateView::AtResolveReference => Stage::ResolveReference,
        MachineStateView::AtMerge => Stage::Merge,
        MachineStateView::AtConflictCheck => Stage::ConflictCheck,
        MachineStateView::AtNoOpDetection => Stage::NoOpDetection,
        MachineStateView::AtCommitIfChanged => Stage::CommitIfChanged,
        MachineStateView::AtCleanup { .. } => Stage::Cleanup,
        MachineStateView::AtPushIfRequested { .. } => Stage::PushIfRequested,
        MachineStateView::Finished(_) => Stage::OpenRepo,
    }
}

/// Which events a state can be stepped with: the event kinds that the
/// state's own action can produce. A finished machine takes no event.
pub open spec fn expects_view(s: MachineStateView, e: GitEventView) -> bool {
    match s {
        MachineStateView::AtOpenRepo => e is Completed || e is Failed,
        MachineStateView::AtEnsureRemote => e is RemoteCreated || e is RemoteExists
            || e is Failed,
        MachineStateView::AtFetch => e is Completed || e is Failed,
        MachineStateView::AtResolveReference => e is Completed || e is Failed,
        MachineStateView::AtMerge => e is Completed || e is Failed,
        MachineStateView::AtConflictCheck => e is ConflictsFound || e is Failed,
        MachineStateView::AtNoOpDetection => e is TreeChanged || e is Failed,
        MachineStateView::AtCommitIfChanged => e is Committed || e is Failed,
        MachineStateView::AtCleanup { .. } => e is Completed || e is Failed,
        MachineStateView::AtPushIfRequested { .. } => e is Completed || e is Failed,
        MachineStateView::Finished(_) => false,
    }
}

/// The reason recorded when a repository's index holds unresolved conflicts.
pub open spec fn conflict_reason_view(repo_name: Seq<char>) -> Seq<char> {
    "Repo "@ + repo_name + " has conflicts"@
}

/// The reason recorded when the revision holds no `/` and so no tag can be
/// taken from it for the commit message.
pub open spec fn malformed_revision_reason_view(revision: Seq<char>) -> Seq<char> {
    "Malformed revision "@ + revision
}

/// The complete transition relation of the merge sequence. Every gate
/// failure ends the job with an error labelled by the stage it failed at; a
/// conflict ends the job without cleanup; an unchanged tree skips the commit
/// and goes straight to cleanup; push is attempted only when the job asks
/// for it, and only after a commit.
pub open spec fn step_view(job: MergeJobView, s: MachineStateView, e: GitEventView)
    -> MachineStateView {
    match e {
        GitEventView::Failed(reason) => MachineStateView::Finished(
            MergeOutcomeView::Error(stage_of(s), reason),
        ),
        _ => match s {
            MachineStateView::AtOpenRepo => MachineStateView::AtEnsureRemote,
            MachineStateView::AtEnsureRemote => MachineStateView::AtFetch,
            MachineStateView::AtFetch => MachineStateView::AtResolveReference,
            MachineStateView::AtResolveReference => MachineStateView::AtMerge,
            MachineStateView::AtMerge => MachineStateView::AtConflictCheck,
            MachineStateView::AtConflictCheck => {
                if e matches GitEventView::ConflictsFound(true) {
                    MachineStateView::Finished(
                        MergeOutcomeView::Conflict(conflict_reason_view(job.repo_name)),
                    )
                } else {
                    MachineStateView::AtNoOpDetection
                }
            },
            MachineStateView::AtNoOpDetection => {
                if e matches GitEventView::TreeChanged(true) {
                    if contains_char(job.revision, '/') {
                        MachineStateView::AtCommitIfChanged
                    } else {
                        MachineStateView::Finished(
                            MergeOutcomeView::Error(
                                Stage::CommitIfChanged,
                                malformed_revision_reason_view(job.revision),
                            ),
                        )
                    }
                } else {
                    MachineStateView::AtCleanup { committed: None }
                }
            },
            MachineStateView::AtCommitIfChanged => {
                if let GitEventView::Committed(id) = e {
                    MachineStateView::AtCleanup { committed: Some(id) }
                } else {
                    s
                }
            },
            MachineStateView::AtCleanup { committed } => match committed {
                None => MachineStateView::Finished(MergeOutcomeView::UpToDate),
                Some(id) => {
                    if job.push {
                        MachineStateView::AtPushIfRequested { commit: id }
                    } else {
                        MachineStateView::Finished(MergeOutcomeView::Merged(id))
                    }
                },
            },
            MachineStateView::AtPushIfRequested { commit } => MachineStateView::Finished(
                MergeOutcomeView::Merged(commit),
            ),
            MachineStateView::Finished(_) => s,
        },
    }
}

/// The action a machine asks for in each state.
pub open spec fn action_view(
    job: MergeJobView,
    publish: PublishConfigView,
    s: MachineStateView,
) -> GitActionView {
    match s {
        MachineStateView::AtOpenRepo => GitActionView::OpenRepo { path: job.repo_path },
        MachineStateView::AtEnsureRemote => GitActionView::EnsureRemote {
            name: job.remote_name,
            url: job.remote_url,
        },
        MachineStateView::AtFetch => GitActionView::Fetch { refspec: job.revision },
        MachineStateView::AtResolveReference => GitActionView::ResolveReference {
            refspec: job.revision,
        },
        MachineStateView::AtMerge => GitActionView::Merge,
        MachineStateView::AtConflictCheck => GitActionView::CheckConflicts,
        MachineStateView::AtNoOpDetection => GitActionView::CheckChanges,
        MachineStateView::AtCommitIfChanged => GitActionView::Commit {
            message: merge_message_view(job.revision, job.remote_url),
        },
        MachineStateView::AtCleanup { .. } => GitActionView::Cleanup,
        MachineStateView::AtPushIfRequested { .. } => GitActionView::Push {
            remote: publish.remote_name,
            refspec: "HEAD:refs/heads/"@ + publish.branch,
        },
        MachineStateView::Finished(outcome) => GitActionView::Finish(outcome),
    }
}

/// One merge job being driven through the merge sequence.
pub struct MergeMachine {
    pub job: MergeJob,
    pub publish: PublishConfig,
    pub state: MachineState,
}

impl MergeMachine {
    /// The machine only ever stands at the commit state when a tag can be
    /// taken from the job's revision, so the commit message always exists.
    pub open spec fn wf(self) -> bool {
        self.state@ is AtCommitIfChanged ==> contains_char(self.job@.revision, '/')
    }

    /// A new machine for `job`, ready to open the repository.
    pub fn new(job: MergeJob, publish: PublishConfig) -> (m: MergeMachine)
        ensures
            m.wf(),
            m.job == job,
            m.publish == publish,
            m.state@ is AtOpenRepo,
    {
        MergeMachine { job, publish, state: MachineState::AtOpenRepo }
    }

    /// Whether the job has finished, with its outcome.
    pub fn finished_outcome(&self) -> (r: Option<MergeOutcome>)
        ensures
            match r {
                Some(outcome) => self.state@ == MachineStateView::Finished(outcome@),
                None => !(self.state@ is Finished),
            },
    {
        match &self.state {
            MachineState::Finished(outcome) => Some(outcome.clone()),
            _ => None,
        }
    }

    /// The git action to perform for the machine's current state.
    pub fn current_action(&self) -> (a: GitAction)
        requires
            self.wf(),
        ensures
            a@ == action_view(self.job@, self.publish@, self.state@),
    {
        match &self.state {
            MachineState::AtOpenRepo => GitAction::OpenRepo { path: self.job.repo_path.clone() },
            MachineState::AtEnsureRemote => GitAction::EnsureRemote {
                name: self.job.remote_name.clone(),
                url: self.job.remote_url.clone(),
            },
            MachineState::AtFetch => GitAction::Fetch { refspec: self.job.revision.clone() },
            MachineState::AtResolveReference => GitAction::ResolveReference {
                refspec: self.job.revision.clone(),
            },
            MachineState::AtMerge => GitAction::Merge,
            MachineState::AtConflictCheck => GitAction::CheckConflicts,
            MachineState::AtNoOpDetection => GitAction::CheckChanges,
            MachineState::AtCommitIfChanged => {
                let message = merge_commit_message(
                    self.job.revision.as_str(),
                    self.job.remote_url.as_str(),
                );
                GitAction::Commit { message: message.unwrap() }
            },
            MachineState::AtCleanup { .. } => GitAction::Cleanup,
            MachineState::AtPushIfRequested { .. } => GitAction::Push {
                remote: self.publish.remote_name.clone(),
                refspec: concat2("HEAD:refs/heads/", self.publish.branch.as_str()),
            },
            MachineState::Finished(outcome) => GitAction::Finish(outcome.clone()),
        }
    }

    /// Whether the machine can be stepped with this event.
    pub fn expects(&self, e: &GitEvent) -> (b: bool)
        ensures
            b == expects_view(self.state@, e@),
    {
        match &self.state {
            MachineState::AtOpenRepo => matches!(e, GitEvent::Completed | GitEvent::Failed(_)),
            MachineState::AtEnsureRemote => matches!(
                e,
                GitEvent::RemoteCreated | GitEvent::RemoteExists | GitEvent::Failed(_)
            ),
            MachineState::AtFetch => matches!(e, GitEvent::Completed | GitEvent::Failed(_)),
            MachineState::AtResolveReference => matches!(
                e,
                GitEvent::Completed | GitEvent::Failed(_)
            ),
            MachineState::AtMerge => matches!(e, GitEvent::Completed | GitEvent::Failed(_)),
            MachineState::AtConflictCheck => matches!(
                e,
                GitEvent::ConflictsFound(_) | GitEvent::Failed(_)
            ),
            MachineState::AtNoOpDetection => matches!(
                e,
                GitEvent::TreeChanged(_) | GitEvent::Failed(_)
            ),
            MachineState::AtCommitIfChanged => matches!(
                e,
                GitEvent::Committed(_) | GitEvent::Failed(_)
            ),
            MachineState::AtCleanup { .. } => matches!(
                e,
                GitEvent::Completed | GitEvent::Failed(_)
            ),
            MachineState::AtPushIfRequested { .. } => matches!(
                e,
                GitEvent::Completed | GitEvent::Failed(_)
            ),
            MachineState::Finished(_) => false,
        }
    }

    /// The stage label for a failure in the current state.
    fn stage_label(&self) -> (st: Stage)
        requires
            !(self.state@ is Finished),
        ensures
            st == stage_of(self.state@),
    {
        match &self.state {
            MachineState::AtOpenRepo => Stage::OpenRepo,
            MachineState::AtEnsureRemote => Stage::EnsureRemote,
            MachineState::AtFetch => Stage::Fetch,
            MachineState::AtResolveReference => Stage::ResolveReference,
            MachineState::AtMerge => Stage::Merge,
            MachineState::AtConflictCheck => Stage::ConflictCheck,
            MachineState::AtNoOpDetection => Stage::NoOpDetection,
            MachineState::AtCommitIfChanged => Stage::CommitIfChanged,
            MachineState::AtCleanup { .. } => Stage::Cleanup,
            MachineState::AtPushIfRequested { .. } => Stage::PushIfRequested,
            MachineState::Finished(_) => unreached(),
        }
    }

    /// Advance the machine by one event. The new state is exactly
    /// [`step_view`] of the old state and the event.
    pub fn step(&mut self, e: GitEvent)
        requires
            old(self).wf(),
            expects_view(old(self).state@, e@),
        ensures
            final(self).wf(),
            final(self).job == old(self).job,
            final(self).publish == old(self).publish,
            final(self).state@ == step_view(old(self).job@, old(self).state@, e@),
    {
        let next: MachineState = match e {
            GitEvent::Failed(reason) => {
                let st = self.stage_label();
                MachineState::Finished(MergeOutcome::Error(st, reason))
            },
            GitEvent::Completed => match &self.state {
                MachineState::AtOpenRepo => MachineState::AtEnsureRemote,
                MachineState::AtFetch => MachineState::AtResolveReference,
                MachineState::AtResolveReference => MachineState::AtMerge,
                MachineState::AtMerge => MachineState::AtConflictCheck,
                MachineState::AtCleanup { committed } => match committed {
                    None => MachineState::Finished(MergeOutcome::UpToDate),
                    Some(id) => {
                        if self.job.push {
                            MachineState::AtPushIfRequested { commit: id.clone() }
                        } else {
                            MachineState::Finished(MergeOutcome::Merged(id.clone()))
                        }
                    },
                },
                MachineState::AtPushIfRequested { commit } => MachineState::Finished(
                    MergeOutcome::Merged(commit.clone()),
                ),
                _ => unreached(),
            },
            GitEvent::RemoteCreated => match &self.state {
                MachineState::AtEnsureRemote => MachineState::AtFetch,
                _ => unreached(),
            },
            GitEvent::RemoteExists => match &self.state {
                MachineState::AtEnsureRemote => MachineState::AtFetch,
                _ => unreached(),
            },
            GitEvent::ConflictsFound(has_conflicts) => match &self.state {
                MachineState::AtConflictCheck => {
                    if has_conflicts {
                        MachineState::Finished(
                            MergeOutcome::Conflict(
                                concat3("Repo ", self.job.repo_name.as_str(), " has conflicts"),
                            ),
                        )
                    } else {
                        MachineState::AtNoOpDetection
                    }
                },
                _ => unreached(),
            },
            GitEvent::TreeChanged(changed) => match &self.state {
                MachineState::AtNoOpDetection => {
                    if changed {
                        if str_contains_char(self.job.revision.as_str(), '/') {
                            MachineState::AtCommitIfChanged
                        } else {
                            MachineState::Finished(
                                MergeOutcome::Error(
                                    Stage::CommitIfChanged,
                                    concat2("Malformed revision ", self.job.revision.as_str()),
                                ),
                            )
                        }
                    } else {
                        MachineState::AtCleanup { committed: None }
                    }
                },
                _ => unreached(),
            },
            GitEvent::Committed(id) => match &self.state {
                MachineState::AtCommitIfChanged => MachineState::AtCleanup {
                    committed: Some(id),
                },
                _ => unreached(),
            },
        };
        self.state = next;
    }
}

/// The states a machine for `job` passes through when started in `s` and
/// stepped with `events` in order: the sequence of `events.len() + 1`
/// states, `s` first.
pub open spec fn run_states(
    job: MergeJobView,
    s: MachineStateView,
    events: Seq<GitEventView>,
) -> Seq<MachineStateView>
    decreases events.len(),
{
    if events.len() == 0 {
        seq![s]
    } else {
        seq![s] + run_states(job, step_view(job, s, events.first()), events.drop_first())
    }
}

/// Characterizes `run_states` by its indices: it starts at `s` and each
/// later state is one `step_view` from the state before it.
pub proof fn lemma_run_states_index(
    job: MergeJobView,
    s: MachineStateView,
    events: Seq<GitEventView>,
)
    ensures
        run_states(job, s, events).len() == events.len() + 1,
        run_states(job, s, events)[0] == s,
        forall|i: int|
            0 <= i < events.len() ==> run_states(job, s, events)[i + 1] == step_view(
                job,
                run_states(job, s, events)[i],
                events[i],
            ),
    decreases events.len(),
{
    if events.len() > 0 {
        let stepped = step_view(job, s, events.first());
        lemma_run_states_index(job, stepped, events.drop_first());
        let r = run_states(job, s, events);
        let r2 = run_states(job, stepped, events.drop_first());
        assert forall|i: int|
            0 <= i < events.len() implies r[i + 1] == step_view(job, r[i], events[i]) by {
            if i == 0 {
                assert(r[1] == r2[0]);
            } else {
                assert(r[i] == r2[i - 1]);
                assert(r[i + 1] == r2[i]);
                assert(events[i] == events.drop_first()[i - 1]);
            }
        }
    }
}

/// The event sequence of a run in which every git operation succeeds, the
/// merge leaves no conflicts, and the working tree is unchanged.
pub open spec fn up_to_date_trace(register: GitEventView) -> Seq<GitEventView> {
    seq![
        GitEventView::Completed,
        register,
        GitEventView::Completed,
        GitEventView::Completed,
        GitEventView::Completed,
        GitEventView::ConflictsFound(false),
        GitEventView::TreeChanged(false),
        GitEventView::Completed,
    ]
}

/// LAW: a job whose target revision is already fully merged finishes
/// `UpToDate`, and the run never reaches the commit state, so no new commit
/// is created. This holds whether the upstream remote was newly created or
/// already existed.
pub proof fn lemma_up_to_date_creates_no_commit(job: MergeJobView, register: GitEventView)
    requires
        register is RemoteCreated || register is RemoteExists,
    ensures
        ({
            let states = run_states(job, MachineStateView::AtOpenRepo, up_to_date_trace(register));
            &&& states.last() == MachineStateView::Finished(MergeOutcomeView::UpToDate)
            &&& forall|i: int| 0 <= i < states.len() ==> !(states[i] is AtCommitIfChanged)
        }),
{
    let events = up_to_date_trace(register);
    let states = run_states(job, MachineStateView::AtOpenRepo, events);
    lemma_run_states_index(job, MachineStateView::AtOpenRepo, events);
    assert(states[1] == MachineStateView::AtEnsureRemote);
    assert(states[2] == MachineStateView::AtFetch);
    assert(states[3] == MachineStateView::AtResolveReference);
    assert(states[4] == MachineStateView::AtMerge);
    assert(states[5] == MachineStateView::AtConflictCheck);
    assert(states[6] == MachineStateView::AtNoOpDetection);
    assert(states[7] == MachineStateView::AtCleanup { committed: None });
    assert(states[8] == MachineStateView::Finished(MergeOutcomeView::UpToDate));
}

/// The event sequence of a run in which every git operation succeeds but the
/// merge leaves unresolved conflicts in the index.
pub open spec fn conflict_trace(register: GitEventView) -> Seq<GitEventView> {
    seq![
        GitEventView::Completed,
        register,
        GitEventView::Completed,
        GitEventView::Completed,
        GitEventView::Completed,
        GitEventView::ConflictsFound(true),
    ]
}

/// LAW: a job whose merge yields unresolved conflicts finishes with
/// `Conflict`, and the run never reaches the cleanup state (the repository
/// is left mid-merge for inspection), never reaches the push state (even
/// when the job asks to push), and never reaches the commit state.
pub proof fn lemma_conflict_stops_job(job: MergeJobView, register: GitEventView)
    requires
        register is RemoteCreated || register is RemoteExists,
    ensures
        ({
            let states = run_states(job, MachineStateView::AtOpenRepo, conflict_trace(register));
            &&& states.last() == MachineStateView::Finished(
                MergeOutcomeView::Conflict(conflict_reason_view(job.repo_name)),
            )
            &&& forall|i: int|
                0 <= i < states.len() ==> {
                    &&& !(states[i] is AtCleanup)
                    &&& !(states[i] is AtPushIfRequested)
                    &&& !(states[i] is AtCommitIfChanged)
                }
        }),
{
    let events = conflict_trace(register);
    let states = run_states(job, MachineStateView::AtOpenRepo, events);
    lemma_run_states_index(job, MachineStateView::AtOpenRepo, events);
    assert(states[1] == MachineStateView::AtEnsureRemote);
    assert(states[2] == MachineStateView::AtFetch);
    assert(states[3] == MachineStateView::AtResolveReference);
    assert(states[4] == MachineStateView::AtMerge);
    assert(states[5] == MachineStateView::AtConflictCheck);
    assert(states[6] == MachineStateView::Finished(
        MergeOutcomeView::Conflict(conflict_reason_view(job.repo_name)),
    ));
}

/// The event sequence of a run in which every git operation succeeds, the
/// merge leaves no conflicts, the working tree changed, a commit with id
/// `commit_id` is created, and, when `push` is set, the push succeeds.
pub open spec fn merged_trace(
    register: GitEventView,
    commit_id: Seq<char>,
    push: bool,
) -> Seq<GitEventView> {
    let base = seq![
        GitEventView::Completed,
        register,
        GitEventView::Completed,
        GitEventView::Completed,
        GitEventView::Completed,
        GitEventView::ConflictsFound(false),
        GitEventView::TreeChanged(true),
        GitEventView::Committed(commit_id),
        GitEventView::Completed,
    ];
    if push {
        base + seq![GitEventView::Completed]
    } else {
        base
    }
}

/// LAW: a job that merges new changes finishes with `Merged(commit_id)`, and
/// the one commit action of the run carries the message
/// `Merge tag '<tag>' of <remoteUrl> into HEAD`, where `<tag>` is the part
/// of the job's revision after its last `/`.
pub proof fn lemma_merged_commit_message(
    job: MergeJobView,
    publish: PublishConfigView,
    register: GitEventView,
    commit_id: Seq<char>,
)
    requires
        register is RemoteCreated || register is RemoteExists,
        contains_char(job.revision, '/'),
    ensures
        ({
            let states = run_states(
                job,
                MachineStateView::AtOpenRepo,
                merged_trace(register, commit_id, job.push),
            );
            &&& states.last() == MachineStateView::Finished(MergeOutcomeView::Merged(commit_id))
            &&& states[7] == MachineStateView::AtCommitIfChanged
            &&& action_view(job, publish, states[7]) == GitActionView::Commit {
                message: "Merge tag '"@ + after_last(job.revision, '/') + "' of "@
                    + job.remote_url + " into HEAD"@,
            }
        }),
{
    let events = merged_trace(register, commit_id, job.push);
    let states = run_states(job, MachineStateView::AtOpenRepo, events);
    lemma_run_states_index(job, MachineStateView::AtOpenRepo, events);
    assert(states[1] == MachineStateView::AtEnsureRemote);
    assert(states[2] == MachineStateView::AtFetch);
    assert(states[3] == MachineStateView::AtResolveReference);
    assert(states[4] == MachineStateView::AtMerge);
    assert(states[5] == MachineStateView::AtConflictCheck);
    assert(states[6] == MachineStateView::AtNoOpDetection);
    assert(states[7] == MachineStateView::AtCommitIfChanged);
    assert(states[8] == MachineStateView::AtCleanup { committed: Some(commit_id) });
    if job.push {
        assert(events.len() == 10);
        assert(events[9] == GitEventView::Completed);
        assert(states[9] == MachineStateView::AtPushIfRequested { commit: commit_id });
        assert(states[10] == MachineStateView::Finished(MergeOutcomeView::Merged(commit_id)));
    } else {
        assert(states[9] == MachineStateView::Finished(MergeOutcomeView::Merged(commit_id)));
    }
}

/// LAW: a failure at any step ends the job at once with an error labelled
/// by the step it failed at; it is converted into an outcome, never
/// propagated, so it can touch no other job.
pub proof fn lemma_failure_becomes_outcome(job: MergeJobView, s: MachineStateView, reason: Seq<char>)
    requires
        !(s is Finished),
    ensures
        step_view(job, s, GitEventView::Failed(reason)) == MachineStateView::Finished(
            MergeOutcomeView::Error(stage_of(s), reason),
        ),
{
}

/// LAW: registering the upstream remote is idempotent. The ensure-remote
/// state asks for the same remote name and URL however often it is reached,
/// and it moves on to fetch both when the remote was newly created and when
/// a remote of that name already existed, so a second run over the same
/// repository succeeds with the same remote identity.
pub proof fn lemma_ensure_remote_idempotent(job: MergeJobView, publish: PublishConfigView)
    ensures
        step_view(job, MachineStateView::AtEnsureRemote, GitEventView::RemoteCreated)
            == MachineStateView::AtFetch,
        step_view(job, MachineStateView::AtEnsureRemote, GitEventView::RemoteExists)
            == MachineStateView::AtFetch,
        action_view(job, publish, MachineStateView::AtEnsureRemote) == (GitActionView::EnsureRemote {
            name: job.remote_name,
            url: job.remote_url,
        }),
{
}

} // verus!
