use manifest_merger::machine::GitAction;
use manifest_merger::machine::GitEvent;
use manifest_merger::machine::MachineState;
use manifest_merger::machine::MergeMachine;
use manifest_merger::model::MergeJob;
use manifest_merger::model::MergeOutcome;
use manifest_merger::model::PublishConfig;
use manifest_merger::model::Stage;

fn job(push: bool) -> MergeJob {
    MergeJob {
        remote_name: "clo_system".to_owned(),
        remote_url: "https://host/org/repo".to_owned(),
        repo_path: "src/device/common".to_owned(),
        repo_name: "device/common".to_owned(),
        revision: "refs/tags/A13".to_owned(),
        push,
    }
}

fn publish() -> PublishConfig {
    PublishConfig::new("flamingo".to_owned(), "A13".to_owned())
}

/// Drives a machine with the given events and collects every action it asked
/// for along the way, the finishing action excluded.
fn drive(mut machine: MergeMachine, events: Vec<GitEvent>) -> (Vec<GitAction>, MergeOutcome) {
    let mut actions = Vec::new();
    for event in events {
        actions.push(machine.current_action());
        assert!(machine.expects(&event));
        machine.step(event);
    }
    match machine.finished_outcome() {
        Some(outcome) => (actions, outcome),
        None => panic!("machine did not finish"),
    }
}

#[test]
fn up_to_date_run_creates_no_commit() {
    let machine = MergeMachine::new(job(true), publish());
    let events = vec![
        GitEvent::Completed,
        GitEvent::RemoteCreated,
        GitEvent::Completed,
        GitEvent::Completed,
        GitEvent::Completed,
        GitEvent::ConflictsFound(false),
        GitEvent::TreeChanged(false),
        GitEvent::Completed,
    ];
    let (actions, outcome) = drive(machine, events);
    assert_eq!(outcome, MergeOutcome::UpToDate);
    for action in &actions {
        assert!(!matches!(action, GitAction::Commit { .. }));
        assert!(!matches!(action, GitAction::Push { .. }));
    }
    assert!(matches!(actions[7], GitAction::Cleanup));
}

#[test]
fn conflict_stops_job_without_cleanup_or_push() {
    let machine = MergeMachine::new(job(true), publish());
    let events = vec![
        GitEvent::Completed,
        GitEvent::RemoteExists,
        GitEvent::Completed,
        GitEvent::Completed,
        GitEvent::Completed,
        GitEvent::ConflictsFound(true),
    ];
    let (actions, outcome) = drive(machine, events);
    assert_eq!(
        outcome,
        MergeOutcome::Conflict("Repo device/common has conflicts".to_owned())
    );
    for action in &actions {
        assert!(!matches!(action, GitAction::Cleanup));
        assert!(!matches!(action, GitAction::Push { .. }));
        assert!(!matches!(action, GitAction::Commit { .. }));
    }
}

#[test]
fn merged_run_commits_with_tag_message() {
    let machine = MergeMachine::new(job(false), publish());
    let events = vec![
        GitEvent::Completed,
        GitEvent::RemoteCreated,
        GitEvent::Completed,
        GitEvent::Completed,
        GitEvent::Completed,
        GitEvent::ConflictsFound(false),
        GitEvent::TreeChanged(true),
        GitEvent::Committed("abc123".to_owned()),
        GitEvent::Completed,
    ];
    let (actions, outcome) = drive(machine, events);
    assert_eq!(outcome, MergeOutcome::Merged("abc123".to_owned()));
    match &actions[7] {
        GitAction::Commit { message } => {
            assert_eq!(message, "Merge tag 'A13' of https://host/org/repo into HEAD");
        }
        other => panic!("expected a commit action, got {:?}", other),
    }
}

#[test]
fn merged_run_pushes_when_asked() {
    let machine = MergeMachine::new(job(true), publish());
    let events = vec![
        GitEvent::Completed,
        GitEvent::RemoteExists,
        GitEvent::Completed,
        GitEvent::Completed,
        GitEvent::Completed,
        GitEvent::ConflictsFound(false),
        GitEvent::TreeChanged(true),
        GitEvent::Committed("abc123".to_owned()),
        GitEvent::Completed,
        GitEvent::Completed,
    ];
    let (actions, outcome) = drive(machine, events);
    assert_eq!(outcome, MergeOutcome::Merged("abc123".to_owned()));
    match &actions[9] {
        GitAction::Push { remote, refspec } => {
            assert_eq!(remote, "flamingo");
            assert_eq!(refspec, "HEAD:refs/heads/A13");
        }
        other => panic!("expected a push action, got {:?}", other),
    }
}

#[test]
fn ensure_remote_succeeds_whether_created_or_existing() {
    let mut created = MergeMachine::new(job(false), publish());
    created.step(GitEvent::Completed);
    let first_action = created.current_action();
    match &first_action {
        GitAction::EnsureRemote { name, url } => {
            assert_eq!(name, "clo_system");
            assert_eq!(url, "https://host/org/repo");
        }
        other => panic!("expected ensure-remote, got {:?}", other),
    }
    created.step(GitEvent::RemoteCreated);
    assert_eq!(created.state, MachineState::AtFetch);

    let mut existing = MergeMachine::new(job(false), publish());
    existing.step(GitEvent::Completed);
    assert_eq!(existing.current_action(), first_action);
    existing.step(GitEvent::RemoteExists);
    assert_eq!(existing.state, MachineState::AtFetch);
}

#[test]
fn fetch_failure_is_a_fetch_stage_error() {
    let machine = MergeMachine::new(job(true), publish());
    let events = vec![
        GitEvent::Completed,
        GitEvent::RemoteCreated,
        GitEvent::Failed("network unreachable".to_owned()),
    ];
    let (_, outcome) = drive(machine, events);
    assert_eq!(
        outcome,
        MergeOutcome::Error(Stage::Fetch, "network unreachable".to_owned())
    );
}

#[test]
fn push_failure_keeps_commit_but_reports_push_error() {
    let machine = MergeMachine::new(job(true), publish());
    let events = vec![
        GitEvent::Completed,
        GitEvent::RemoteCreated,
        GitEvent::Completed,
        GitEvent::Completed,
        GitEvent::Completed,
        GitEvent::ConflictsFound(false),
        GitEvent::TreeChanged(true),
        GitEvent::Committed("abc123".to_owned()),
        GitEvent::Completed,
        GitEvent::Failed("remote hung up".to_owned()),
    ];
    let (_, outcome) = drive(machine, events);
    assert_eq!(
        outcome,
        MergeOutcome::Error(Stage::PushIfRequested, "remote hung up".to_owned())
    );
}

#[test]
fn finished_machine_takes_no_further_events() {
    let machine = MergeMachine::new(job(false), publish());
    let events = vec![GitEvent::Failed("missing checkout".to_owned())];
    let (_, outcome) = drive(machine, events);
    assert_eq!(
        outcome,
        MergeOutcome::Error(Stage::OpenRepo, "missing checkout".to_owned())
    );
    let mut finished = MergeMachine::new(job(false), publish());
    finished.step(GitEvent::Failed("missing checkout".to_owned()));
    assert!(!finished.expects(&GitEvent::Completed));
    assert!(!finished.expects(&GitEvent::Failed("again".to_owned())));
}

#[test]
fn malformed_revision_stops_before_commit() {
    let bad = MergeJob {
        remote_name: "clo_system".to_owned(),
        remote_url: "https://host/org/repo".to_owned(),
        repo_path: "src/x".to_owned(),
        repo_name: "x".to_owned(),
        revision: "A13".to_owned(),
        push: false,
    };
    let machine = MergeMachine::new(bad, publish());
    let events = vec![
        GitEvent::Completed,
        GitEvent::RemoteCreated,
        GitEvent::Completed,
        GitEvent::Completed,
        GitEvent::Completed,
        GitEvent::ConflictsFound(false),
        GitEvent::TreeChanged(true),
    ];
    let (actions, outcome) = drive(machine, events);
    assert_eq!(
        outcome,
        MergeOutcome::Error(Stage::CommitIfChanged, "Malformed revision A13".to_owned())
    );
    for action in &actions {
        assert!(!matches!(action, GitAction::Commit { .. }));
    }
}
