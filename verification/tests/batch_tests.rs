use manifest_merger::batch::Batch;
use manifest_merger::model::MergeJob;
use manifest_merger::model::MergeOutcome;
use manifest_merger::model::Stage;

fn jobs(n: usize) -> Vec<MergeJob> {
    let mut out = Vec::new();
    for i in 0..n {
        out.push(MergeJob {
            remote_name: "clo_system".to_owned(),
            remote_url: "https://host/org".to_owned(),
            repo_path: format!("/src/repo{}", i),
            repo_name: format!("repo{}", i),
            revision: "refs/tags/A13".to_owned(),
            push: false,
        });
    }
    out
}

fn outcome_for(index: usize) -> MergeOutcome {
    match index {
        0 => MergeOutcome::UpToDate,
        1 => MergeOutcome::Merged("abc".to_owned()),
        _ => MergeOutcome::Conflict("Repo repo2 has conflicts".to_owned()),
    }
}

/// Claims every job first, then records the outcomes in the given order, as
/// a pool with that completion order would.
fn run_schedule(order: &[usize]) -> Vec<MergeOutcome> {
    let mut batch = Batch::new(jobs(3));
    let mut claimed = Vec::new();
    while let Some((index, job)) = batch.next_job() {
        claimed.push((index, job));
    }
    assert_eq!(claimed.len(), 3);
    assert!(!batch.all_done());
    for &index in order {
        assert!(!batch.is_recorded(index));
        batch.record(index, outcome_for(index));
    }
    assert!(batch.all_done());
    batch.outcomes()
}

#[test]
fn outcomes_are_the_same_for_any_completion_order() {
    let serial = run_schedule(&[0, 1, 2]);
    let pair_pool = run_schedule(&[1, 0, 2]);
    let one_worker_per_job = run_schedule(&[2, 1, 0]);
    assert_eq!(serial, pair_pool);
    assert_eq!(serial, one_worker_per_job);
    assert_eq!(serial[0], MergeOutcome::UpToDate);
    assert_eq!(serial[1], MergeOutcome::Merged("abc".to_owned()));
    assert_eq!(
        serial[2],
        MergeOutcome::Conflict("Repo repo2 has conflicts".to_owned())
    );
}

#[test]
fn each_job_is_handed_out_exactly_once() {
    let mut batch = Batch::new(jobs(2));
    let first = batch.next_job().unwrap();
    let second = batch.next_job().unwrap();
    assert_eq!(first.0, 0);
    assert_eq!(first.1.repo_name, "repo0");
    assert_eq!(second.0, 1);
    assert_eq!(second.1.repo_name, "repo1");
    assert!(batch.next_job().is_none());
    assert!(batch.next_job().is_none());
}

#[test]
fn one_failing_job_does_not_disturb_its_siblings() {
    let mut batch = Batch::new(jobs(3));
    while let Some(_) = batch.next_job() {}
    batch.record(0, MergeOutcome::UpToDate);
    batch.record(
        1,
        MergeOutcome::Error(Stage::Fetch, "remote unreachable".to_owned()),
    );
    batch.record(2, MergeOutcome::Merged("def".to_owned()));
    assert!(batch.all_done());
    let outcomes = batch.outcomes();
    assert_eq!(outcomes[0], MergeOutcome::UpToDate);
    assert_eq!(
        outcomes[1],
        MergeOutcome::Error(Stage::Fetch, "remote unreachable".to_owned())
    );
    assert_eq!(outcomes[2], MergeOutcome::Merged("def".to_owned()));
}

#[test]
fn empty_batch_is_done_at_once() {
    let mut batch = Batch::new(jobs(0));
    assert!(batch.next_job().is_none());
    assert!(batch.all_done());
    assert_eq!(batch.outcomes().len(), 0);
    assert_eq!(batch.job_count(), 0);
}
