//! Core data model of the merge engine: repository entries, upstream remote
//! descriptions, merge jobs, and per-job outcomes, together with their
//! mathematical views (sequences of characters in place of strings).

use vstd::prelude::*;

verus! {

/// Identifies one upstream source: a stable short name used to register a git
/// remote, the base URL under which its repositories live, and the symbolic
/// revision (commonly a tag ref) to merge.
#[derive(Debug, PartialEq, Eq)]
pub struct RemoteSpec {
    pub remote_name: String,
    pub remote_url: String,
    pub revision: String,
}

/// Mathematical view of a [`RemoteSpec`].
pub struct RemoteSpecView {
    pub remote_name: Seq<char>,
    pub remote_url: Seq<char>,
    pub revision: Seq<char>,
}

impl View for RemoteSpec {
    type V = RemoteSpecView;

    open spec fn view(&self) -> RemoteSpecView {
        RemoteSpecView {
            remote_name: self.remote_name@,
            remote_url: self.remote_url@,
            revision: self.revision@,
        }
    }
}

/// One immutable unit of scheduled work: merge `revision`, fetched from the
/// remote called `remote_name` at `remote_url`, into the checkout at
/// `repo_path`, and push the result if `push` is set.
#[derive(Debug, PartialEq, Eq)]
pub struct MergeJob {
    pub remote_name: String,
    pub remote_url: String,
    pub repo_path: String,
    pub repo_name: String,
    pub revision: String,
    pub push: bool,
}

/// Mathematical view of a [`MergeJob`].
pub struct MergeJobView {
    pub remote_name: Seq<char>,
    pub remote_url: Seq<char>,
    pub repo_path: Seq<char>,
    pub repo_name: Seq<char>,
    pub revision: Seq<char>,
    pub push: bool,
}

impl View for MergeJob {
    type V = MergeJobView;

    open spec fn view(&self) -> MergeJobView {
        MergeJobView {
            remote_name: self.remote_name@,
            remote_url: self.remote_url@,
            repo_path: self.repo_path@,
            repo_name: self.repo_name@,
            revision: self.revision@,
            push: self.push,
        }
    }
}

/// The step of the per-repository merge sequence at which a failure occurred.
#[derive(Clone, Copy, Debug, PartialEq, Eq, Structural)]
pub enum Stage {
    OpenRepo,
    EnsureRemote,
    Fetch,
    ResolveReference,
    Merge,
    ConflictCheck,
    NoOpDetection,
    CommitIfChanged,
    Cleanup,
    PushIfRequested,
}

/// The final result of one merge job.
#[derive(Debug, PartialEq, Eq)]
pub enum MergeOutcome {
    /// The target revision was already fully merged; no commit was created.
    UpToDate,
    /// New changes were merged and committed; carries the new commit's id.
    Merged(String),
    /// The merge left unresolved conflicts; the checkout is left mid-merge.
    Conflict(String),
    /// A step of the sequence failed; carries the step and the reason.
    Error(Stage, String),
}

/// Mathematical view of a [`MergeOutcome`].
pub enum MergeOutcomeView {
    UpToDate,
    Merged(Seq<char>),
    Conflict(Seq<char>),
    Error(Stage, Seq<char>),
}

impl View for MergeOutcome {
    type V = MergeOutcomeView;

    open spec fn view(&self) -> MergeOutcomeView {
        match self {
            MergeOutcome::UpToDate => MergeOutcomeView::UpToDate,
            MergeOutcome::Merged(id) => MergeOutcomeView::Merged(id@),
            MergeOutcome::Conflict(reason) => MergeOutcomeView::Conflict(reason@),
            MergeOutcome::Error(stage, reason) => MergeOutcomeView::Error(*stage, reason@),
        }
    }
}

/// Where a successful merge is published: the name of the publish remote
/// (distinct from the upstream remote just merged from) and the branch to
/// push `HEAD` to. Passed in by the caller so that no fixed remote or branch
/// name is hidden inside the engine.
#[derive(Debug, PartialEq, Eq)]
pub struct PublishConfig {
    pub remote_name: String,
    pub branch: String,
}

/// Mathematical view of a [`PublishConfig`].
pub struct PublishConfigView {
    pub remote_name: Seq<char>,
    pub branch: Seq<char>,
}

impl View for PublishConfig {
    type V = PublishConfigView;

    open spec fn view(&self) -> PublishConfigView {
        PublishConfigView { remote_name: self.remote_name@, branch: self.branch@ }
    }
}

impl PublishConfig {
    pub fn new(remote_name: String, branch: String) -> (r: PublishConfig)
        ensures
            r@.remote_name == remote_name@,
            r@.branch == branch@,
    {
        PublishConfig { remote_name, branch }
    }
}

impl Clone for RemoteSpec {
    fn clone(&self) -> (r: RemoteSpec)
        ensures
            r == *self,
    {
        RemoteSpec {
            remote_name: self.remote_name.clone(),
            remote_url: self.remote_url.clone(),
            revision: self.revision.clone(),
        }
    }
}

impl Clone for MergeJob {
    fn clone(&self) -> (r: MergeJob)
        ensures
            r == *self,
    {
        MergeJob {
            remote_name: self.remote_name.clone(),
            remote_url: self.remote_url.clone(),
            repo_path: self.repo_path.clone(),
            repo_name: self.repo_name.clone(),
            revision: self.revision.clone(),
            push: self.push,
        }
    }
}

impl Clone for MergeOutcome {
    fn clone(&self) -> (r: MergeOutcome)
        ensures
            r == *self,
    {
        match self {
            MergeOutcome::UpToDate => MergeOutcome::UpToDate,
            MergeOutcome::Merged(id) => MergeOutcome::Merged(id.clone()),
            MergeOutcome::Conflict(reason) => MergeOutcome::Conflict(reason.clone()),
            MergeOutcome::Error(stage, reason) => MergeOutcome::Error(*stage, reason.clone()),
        }
    }
}

impl Clone for PublishConfig {
    fn clone(&self) -> (r: PublishConfig)
        ensures
            r == *self,
    {
        PublishConfig { remote_name: self.remote_name.clone(), branch: self.branch.clone() }
    }
}

} // verus!
