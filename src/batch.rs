use vstd::prelude::*;

use crate::outcome::ExecutionOutcome;

verus! {

/// What the driver of a batch does next.
#[derive(PartialEq, Eq, Structural, Clone, Copy, Debug)]
pub enum BatchAction {
    /// Start the call at this position of the batch.
    Submit { index: usize },
    /// Wait for any one call in flight to complete and record its outcome.
    Collect,
    /// Every call has completed.
    Finished,
}

/// The bookkeeping of a batch of calls submitted concurrently. Outcomes are
/// kept in the order in which calls complete, which need not be the order of
/// submission.
pub struct SubmissionBatch {
    total: usize,
    limit: Option<usize>,
    submitted: usize,
    outcomes: Vec<ExecutionOutcome>,
}

/// The two durations measured around a batch: building and enqueuing the
/// calls, and running them from the first submission to the last outcome.
#[derive(Clone, Copy, Debug)]
pub struct BatchTiming {
    pub construction_millis: u128,
    pub execution_millis: u128,
}

impl SubmissionBatch {
    /// The number of calls in the batch.
    pub closed spec fn total(self) -> nat {
        self.total as nat
    }

    /// The bound on calls in flight; `None` launches every call before waiting.
    pub closed spec fn limit(self) -> Option<usize> {
        self.limit
    }

    /// The number of calls started so far.
    pub closed spec fn submitted(self) -> nat {
        self.submitted as nat
    }

    /// The outcomes recorded so far, in order of completion.
    pub closed spec fn collected(self) -> Seq<ExecutionOutcome> {
        self.outcomes@
    }

    /// Calls started and not yet completed.
    pub open spec fn in_flight(self) -> int {
        self.submitted() - self.collected().len()
    }

    pub open spec fn wf(self) -> bool {
        &&& self.submitted() <= self.total()
        &&& self.collected().len() <= self.submitted()
        &&& self.limit() matches Some(k) ==> k > 0 && self.in_flight() <= k
    }

    /// Steps left before the batch is finished: one per call to start and one
    /// per outcome to collect.
    pub open spec fn pending(self) -> int {
        (self.total() - self.submitted()) + (self.total() - self.collected().len())
    }

    /// Another call may start now.
    pub open spec fn may_submit(self) -> bool {
        &&& self.submitted() < self.total()
        &&& match self.limit() {
            Some(k) => self.in_flight() < k,
            None => true,
        }
    }

    /// The next step of the driver.
    pub open spec fn action(self) -> BatchAction {
        if self.may_submit() {
            BatchAction::Submit { index: self.submitted() as usize }
        } else if self.collected().len() < self.submitted() {
            BatchAction::Collect
        } else {
            BatchAction::Finished
        }
    }

    /// A batch of `total` calls, none started. With `limit` set, at most that
    /// many calls are in flight at once.
    pub fn new(total: usize, limit: Option<usize>) -> (r: SubmissionBatch)
        requires
            limit matches Some(k) ==> k > 0,
        ensures
            r.wf(),
            r.total() == total,
            r.limit() == limit,
            r.submitted() == 0,
            r.collected() == Seq::<ExecutionOutcome>::empty(),
            r.pending() == 2 * total,
    {
        SubmissionBatch { total, limit, submitted: 0, outcomes: Vec::new() }
    }

    pub fn next_action(&self) -> (r: BatchAction)
        requires
            self.wf(),
        ensures
            r == self.action(),
    {
        let may_submit = self.submitted < self.total && match self.limit {
            Some(k) => self.submitted - self.outcomes.len() < k,
            None => true,
        };
        if may_submit {
            BatchAction::Submit { index: self.submitted }
        } else if self.outcomes.len() < self.submitted {
            BatchAction::Collect
        } else {
            BatchAction::Finished
        }
    }

    /// Notes that the call that `next_action` named has been started.
    pub fn mark_submitted(&mut self)
        requires
            old(self).wf(),
            old(self).action() is Submit,
        ensures
            final(self).wf(),
            final(self).total() == old(self).total(),
            final(self).limit() == old(self).limit(),
            final(self).submitted() == old(self).submitted() + 1,
            final(self).collected() == old(self).collected(),
            final(self).pending() == old(self).pending() - 1,
    {
        self.submitted = self.submitted + 1;
    }

    /// Records the outcome of a call in flight, whichever one completed.
    pub fn record(&mut self, outcome: ExecutionOutcome)
        requires
            old(self).wf(),
            old(self).action() is Collect,
        ensures
            final(self).wf(),
            final(self).total() == old(self).total(),
            final(self).limit() == old(self).limit(),
            final(self).submitted() == old(self).submitted(),
            final(self).collected() == old(self).collected().push(outcome),
            final(self).pending() == old(self).pending() - 1,
    {
        self.outcomes.push(outcome);
    }

    /// The outcomes recorded so far.
    pub fn outcomes(&self) -> (r: &Vec<ExecutionOutcome>)
        ensures
            r@ == self.collected(),
    {
        &self.outcomes
    }

    pub fn into_outcomes(self) -> (r: Vec<ExecutionOutcome>)
        ensures
            r@ == self.collected(),
    {
        self.outcomes
    }
}

/// Whatever the bound on calls in flight and whichever order calls complete
/// in, a batch is finished exactly when nothing is pending, and then it holds
/// exactly one outcome per call: no outcome is dropped and none is counted
/// twice.
pub proof fn lemma_finished_batch_is_complete(b: SubmissionBatch)
    requires
        b.wf(),
    ensures
        b.action() == BatchAction::Finished <==> b.pending() == 0,
        b.action() == BatchAction::Finished ==> b.collected().len() == b.total(),
        b.pending() >= 0,
{
}

/// Without a bound, every call is started before any outcome is awaited.
pub proof fn lemma_unbounded_submits_all_first(b: SubmissionBatch)
    requires
        b.wf(),
        b.limit() is None,
        b.action() is Collect,
    ensures
        b.submitted() == b.total(),
{
}

} // verus!
