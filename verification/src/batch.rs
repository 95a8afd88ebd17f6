//! Tracking one batch of merge jobs through a worker pool.
//!
//! A [`Batch`] hands out each job exactly once and keeps one outcome slot
//! per job. Workers (however many there are) claim jobs with
//! [`Batch::next_job`] and file results with [`Batch::record`]; the batch is
//! complete when every slot is filled, and the outcomes come back aligned
//! with the jobs. Because every result goes into its own job's slot, the
//! final board is independent of the order in which workers finish, which is
//! what the schedule-independence and failure-isolation laws at the end of
//! this module state.

use vstd::prelude::*;

use crate::model::MergeJob;
use crate::model::MergeOutcome;

verus! {

/// How many slots of a board are filled.
pub open spec fn count_recorded(s: Seq<Option<MergeOutcome>>) -> nat
    decreases s.len(),
{
    if s.len() == 0 {
        0
    } else {
        (if s.first() is Some {
            1nat
        } else {
            0nat
        }) + count_recorded(s.drop_first())
    }
}

/// Appending a slot adds one to the count exactly when it is filled.
proof fn lemma_count_recorded_push(s: Seq<Option<MergeOutcome>>, x: Option<MergeOutcome>)
    ensures
        count_recorded(s.push(x)) == count_recorded(s) + (if x is Some {
            1nat
        } else {
            0nat
        }),
    decreases s.len(),
{
    if s.len() == 0 {
        assert(s.push(x).drop_first() =~= s);
    } else {
        assert(s.push(x).drop_first() =~= s.drop_first().push(x));
        lemma_count_recorded_push(s.drop_first(), x);
    }
}

/// Filling an empty slot adds one to the count.
proof fn lemma_count_recorded_fill(s: Seq<Option<MergeOutcome>>, i: int, o: MergeOutcome)
    requires
        0 <= i < s.len(),
        s[i] is None,
    ensures
        count_recorded(s.update(i, Some(o))) == count_recorded(s) + 1,
    decreases s.len(),
{
    if i == 0 {
        assert(s.update(i, Some(o)).drop_first() =~= s.drop_first());
    } else {
        assert(s.update(i, Some(o)).drop_first() =~= s.drop_first().update(i - 1, Some(o)));
        lemma_count_recorded_fill(s.drop_first(), i - 1, o);
    }
}

/// A board with an empty slot is not full.
proof fn lemma_count_recorded_not_full(s: Seq<Option<MergeOutcome>>, i: int)
    requires
        0 <= i < s.len(),
        s[i] is None,
    ensures
        count_recorded(s) < s.len(),
    decreases s.len(),
{
    if i == 0 {
        lemma_count_recorded_le(s.drop_first());
    } else {
        lemma_count_recorded_not_full(s.drop_first(), i - 1);
    }
}

/// No board holds more results than slots.
proof fn lemma_count_recorded_le(s: Seq<Option<MergeOutcome>>)
    ensures
        count_recorded(s) <= s.len(),
    decreases s.len(),
{
    if s.len() > 0 {
        lemma_count_recorded_le(s.drop_first());
    }
}

/// One batch of merge jobs: the jobs in order, how many have been handed
/// out, and one outcome slot per job.
pub struct Batch {
    jobs: Vec<MergeJob>,
    dispatched: usize,
    outcomes: Vec<Option<MergeOutcome>>,
    completed: usize,
}

impl Batch {
    /// The jobs of the batch, in the order they are handed out.
    pub closed spec fn jobs_seq(self) -> Seq<MergeJob> {
        self.jobs@
    }

    /// The outcome board: one slot per job, filled as results come in.
    pub closed spec fn recorded(self) -> Seq<Option<MergeOutcome>> {
        self.outcomes@
    }

    /// How many jobs have been handed out so far.
    pub closed spec fn dispatched_count(self) -> int {
        self.dispatched as int
    }

    /// Every slot belongs to a job, only handed-out jobs have results, and
    /// the completion counter counts the filled slots.
    pub closed spec fn wf(self) -> bool {
        &&& self.outcomes@.len() == self.jobs@.len()
        &&& self.dispatched <= self.jobs@.len()
        &&& self.completed == count_recorded(self.outcomes@)
        &&& forall|i: int|
            self.dispatched <= i < self.outcomes@.len() ==> self.outcomes@[i] is None
    }

    /// A new batch over `jobs`: nothing handed out, every slot empty.
    pub fn new(jobs: Vec<MergeJob>) -> (b: Batch)
        ensures
            b.wf(),
            b.jobs_seq() == jobs@,
            b.dispatched_count() == 0,
            b.recorded().len() == jobs@.len(),
            forall|i: int| 0 <= i < b.recorded().len() ==> b.recorded()[i] is None,
    {
        let n = jobs.len();
        let mut outcomes: Vec<Option<MergeOutcome>> = Vec::new();
        let mut i: usize = 0;
        while i < n
            invariant
                i <= n,
                outcomes@.len() == i,
                count_recorded(outcomes@) == 0,
                forall|j: int| 0 <= j < i ==> outcomes@[j] is None,
            decreases n - i,
        {
            proof {
                lemma_count_recorded_push(outcomes@, None);
            }
            outcomes.push(None);
            i = i + 1;
        }
        Batch { jobs, dispatched: 0, outcomes, completed: 0 }
    }

    /// The number of jobs in the batch.
    pub fn job_count(&self) -> (n: usize)
        ensures
            n == self.jobs_seq().len(),
    {
        self.jobs.len()
    }

    /// Hands out the next job, if one is left: each job of the batch is
    /// returned exactly once, together with the index its outcome must be
    /// recorded under.
    pub fn next_job(&mut self) -> (r: Option<(usize, MergeJob)>)
        requires
            old(self).wf(),
        ensures
            final(self).wf(),
            final(self).jobs_seq() == old(self).jobs_seq(),
            final(self).recorded() == old(self).recorded(),
            match r {
                Some(claimed) => {
                    &&& old(self).dispatched_count() < old(self).jobs_seq().len()
                    &&& claimed.0 == old(self).dispatched_count()
                    &&& claimed.1 == old(self).jobs_seq()[claimed.0 as int]
                    &&& final(self).dispatched_count() == old(self).dispatched_count() + 1
                },
                None => {
                    &&& old(self).dispatched_count() == old(self).jobs_seq().len()
                    &&& final(self).dispatched_count() == old(self).dispatched_count()
                },
            },
    {
        if self.dispatched < self.jobs.len() {
            let index = self.dispatched;
            self.dispatched = self.dispatched + 1;
            Some((index, self.jobs[index].clone()))
        } else {
            None
        }
    }

    /// Whether the job at `index` has a recorded outcome yet.
    pub fn is_recorded(&self, index: usize) -> (b: bool)
        requires
            self.wf(),
            index < self.jobs_seq().len(),
        ensures
            b == (self.recorded()[index as int] is Some),
    {
        match &self.outcomes[index] {
            Some(_) => true,
            None => false,
        }
    }

    /// Files the outcome of the job at `index`. Exactly that slot is
    /// written; every other job's slot is untouched, whatever this outcome
    /// is, so one job's failure never disturbs its siblings' results.
    pub fn record(&mut self, index: usize, outcome: MergeOutcome)
        requires
            old(self).wf(),
            index < old(self).dispatched_count(),
            old(self).recorded()[index as int] is None,
        ensures
            final(self).wf(),
            final(self).jobs_seq() == old(self).jobs_seq(),
            final(self).dispatched_count() == old(self).dispatched_count(),
            final(self).recorded() == old(self).recorded().update(
                index as int,
                Some(outcome),
            ),
    {
        let total = self.outcomes.len();
        proof {
            lemma_count_recorded_fill(self.outcomes@, index as int, outcome);
            lemma_count_recorded_not_full(self.outcomes@, index as int);
            assert(self.completed < total);
        }
        self.outcomes.set(index, Some(outcome));
        self.completed = self.completed + 1;
    }

    /// Whether every job of the batch has an outcome.
    pub fn all_done(&self) -> (b: bool)
        requires
            self.wf(),
        ensures
            b == (count_recorded(self.recorded()) == self.jobs_seq().len()),
            b ==> forall|i: int| 0 <= i < self.recorded().len() ==> self.recorded()[i] is Some,
    {
        proof {
            if self.completed == self.jobs@.len() {
                assert forall|i: int|
                    0 <= i < self.outcomes@.len() implies self.outcomes@[i] is Some by {
                    if self.outcomes@[i] is None {
                        lemma_count_recorded_not_full(self.outcomes@, i);
                    }
                }
            }
        }
        self.completed == self.jobs.len()
    }

    /// The outcome of each job, aligned with the batch's job order. Only
    /// available once every job has finished, so that the caller returns
    /// with one outcome per distinct job and none missing.
    pub fn outcomes(&self) -> (r: Vec<MergeOutcome>)
        requires
            self.wf(),
            count_recorded(self.recorded()) == self.jobs_seq().len(),
        ensures
            r@.len() == self.jobs_seq().len(),
            forall|i: int| 0 <= i < r@.len() ==> self.recorded()[i] == Some(r@[i]),
    {
        proof {
            assert forall|i: int|
                0 <= i < self.outcomes@.len() implies self.outcomes@[i] is Some by {
                if self.outcomes@[i] is None {
                    lemma_count_recorded_not_full(self.outcomes@, i);
                }
            }
        }
        let n = self.outcomes.len();
        let mut results: Vec<MergeOutcome> = Vec::new();
        let mut i: usize = 0;
        while i < n
            invariant
                i <= n,
                n == self.outcomes@.len(),
                results@.len() == i,
                forall|j: int| 0 <= j < self.outcomes@.len() ==> self.outcomes@[j] is Some,
                forall|j: int| 0 <= j < i ==> self.outcomes@[j] == Some(results@[j]),
            decreases n - i,
        {
            match &self.outcomes[i] {
                Some(outcome) => results.push(outcome.clone()),
                None => unreached(),
            }
            i = i + 1;
        }
        results
    }
}

/// The outcome board after a pool of workers has filed results in the order
/// given by `order`: starting from an all-empty board of `n` slots, the slot
/// `order[k]` is filled with that job's outcome, in schedule order.
pub open spec fn apply_schedule(
    n: nat,
    order: Seq<int>,
    outcome_of: spec_fn(int) -> MergeOutcome,
) -> Seq<Option<MergeOutcome>>
    decreases order.len(),
{
    if order.len() == 0 {
        Seq::new(n, |i: int| None)
    } else {
        apply_schedule(n, order.drop_last(), outcome_of).update(
            order.last(),
            Some(outcome_of(order.last())),
        )
    }
}

/// A schedule over `n` jobs that stays in bounds and completes every job.
pub open spec fn is_complete_schedule(n: nat, order: Seq<int>) -> bool {
    &&& forall|k: int| 0 <= k < order.len() ==> 0 <= #[trigger] order[k] < n
    &&& forall|i: int| 0 <= i < n ==> order.contains(i)
}

/// After any in-bounds schedule, each slot holds its own job's outcome if
/// the schedule reached that job, and is empty otherwise.
pub proof fn lemma_apply_schedule_index(
    n: nat,
    order: Seq<int>,
    outcome_of: spec_fn(int) -> MergeOutcome,
)
    requires
        forall|k: int| 0 <= k < order.len() ==> 0 <= #[trigger] order[k] < n,
    ensures
        apply_schedule(n, order, outcome_of).len() == n,
        forall|i: int|
            0 <= i < n ==> #[trigger] apply_schedule(n, order, outcome_of)[i] == (if order.contains(
                i,
            ) {
                Some(outcome_of(i))
            } else {
                None::<MergeOutcome>
            }),
    decreases order.len(),
{
    if order.len() > 0 {
        lemma_apply_schedule_index(n, order.drop_last(), outcome_of);
        let filled = apply_schedule(n, order, outcome_of);
        let prev = apply_schedule(n, order.drop_last(), outcome_of);
        assert forall|i: int|
            0 <= i < n implies filled[i] == (if order.contains(i) {
            Some(outcome_of(i))
        } else {
            None::<MergeOutcome>
        }) by {
            if i == order.last() {
                assert(order[order.len() - 1] == i);
                assert(order.contains(i));
            } else {
                assert(filled[i] == prev[i]);
                if order.contains(i) {
                    let k = choose|k: int| 0 <= k < order.len() && order[k] == i;
                    assert(order.drop_last()[k] == i);
                    assert(order.drop_last().contains(i));
                }
                if order.drop_last().contains(i) {
                    let k = choose|k: int|
                        0 <= k < order.drop_last().len() && order.drop_last()[k] == i;
                    assert(order[k] == i);
                    assert(order.contains(i));
                }
            }
        }
    }
}

/// LAW: running the batch with worker pools of any size yields the same
/// outcomes. Whatever order the workers finish in, as long as every job is
/// completed once, the final board is the same board, one slot per job; in
/// particular a single worker, two workers, and one worker per job all
/// yield the same multiset of outcomes.
pub proof fn lemma_schedule_independent(
    n: nat,
    order1: Seq<int>,
    order2: Seq<int>,
    outcome_of: spec_fn(int) -> MergeOutcome,
)
    requires
        is_complete_schedule(n, order1),
        is_complete_schedule(n, order2),
    ensures
        apply_schedule(n, order1, outcome_of) == apply_schedule(n, order2, outcome_of),
        apply_schedule(n, order1, outcome_of) =~= Seq::new(
            n,
            |i: int| Some(outcome_of(i)),
        ),
        apply_schedule(n, order1, outcome_of).to_multiset() == apply_schedule(
            n,
            order2,
            outcome_of,
        ).to_multiset(),
{
    lemma_apply_schedule_index(n, order1, outcome_of);
    lemma_apply_schedule_index(n, order2, outcome_of);
    assert(apply_schedule(n, order1, outcome_of) =~= Seq::new(n, |i: int| Some(outcome_of(i))));
    assert(apply_schedule(n, order2, outcome_of) =~= Seq::new(n, |i: int| Some(outcome_of(i))));
}

/// LAW: a job's failure does not prevent its siblings from completing and
/// reporting. If two runs of the same batch differ only in what happened to
/// the job at `failing` (say its remote was unreachable in one of them),
/// every other job's recorded outcome is the same in both runs, and present.
pub proof fn lemma_failure_isolated(
    n: nat,
    order: Seq<int>,
    outcome_of: spec_fn(int) -> MergeOutcome,
    other_outcome_of: spec_fn(int) -> MergeOutcome,
    failing: int,
)
    requires
        is_complete_schedule(n, order),
        0 <= failing < n,
        forall|j: int| 0 <= j < n && j != failing ==> #[trigger] outcome_of(j)
            == other_outcome_of(j),
    ensures
        forall|j: int|
            0 <= j < n && j != failing ==> {
                &&& #[trigger] apply_schedule(n, order, outcome_of)[j] == Some(outcome_of(j))
                &&& apply_schedule(n, order, other_outcome_of)[j] == Some(outcome_of(j))
            },
{
    lemma_apply_schedule_index(n, order, outcome_of);
    lemma_apply_schedule_index(n, order, other_outcome_of);
}

} // verus!
