//! The job registry and the per-tick evaluation of every registered job.

use vstd::prelude::*;
use crate::job::{check_outcome_spec, CheckOutcome, Job};

verus! {

/// An append-only registry of jobs, in insertion order, together with a
/// logger identifier for diagnostics.
///
/// The scheduler owns the registry; jobs are read-only after
/// registration. Driving the tick loop, sleeping between ticks and
/// dispatching due actions concurrently are the caller's work: each
/// tick, the caller takes a clock reading, calls [`Scheduler::check_tick`]
/// on the registry as it stands, and runs the action of every job whose
/// outcome is `Due`.
pub struct Scheduler {
    pub logger: String,
    pub jobs: Vec<Job>,
}

impl Scheduler {
    /// A scheduler with the given logger identifier and no jobs.
    pub fn new(logger: String) -> (scheduler: Self)
        ensures
            scheduler.logger == logger,
            scheduler.jobs@ == Seq::<Job>::empty(),
    {
        Scheduler { logger, jobs: Vec::<Job>::new() }
    }

    /// Appends a job to the registry. Nothing is checked: duplicate
    /// ids, zero intervals and empty names are accepted silently, and
    /// no already-registered job is affected. The job's action is an
    /// opaque callable kept by the caller; the scheduler assumes
    /// nothing about it.
    pub fn add_job(&mut self, job: Job)
        ensures
            final(self).jobs@ == old(self).jobs@.push(job),
            final(self).logger == old(self).logger,
    {
        self.jobs.push(job);
    }

    /// The registered jobs, in insertion order, as a read-only view.
    pub fn get_jobs(&self) -> (jobs: &Vec<Job>)
        ensures
            jobs@ == self.jobs@,
    {
        &self.jobs
    }

    /// Evaluates one tick: the due-check of every job in the registry
    /// as it stands at the call, in registry order.
    ///
    /// Each job's outcome depends only on that job and the clock
    /// reading: every job is evaluated, whatever the other jobs'
    /// outcomes, and a clock failure is local to its own entry.
    pub fn check_tick(&self, now_millis: u64) -> (outcomes: Vec<CheckOutcome>)
        requires
            forall|i: int| 0 <= i < self.jobs@.len() ==> #[trigger] self.jobs@[i].every > 0,
        ensures
            outcomes@.len() == self.jobs@.len(),
            forall|i: int| 0 <= i < self.jobs@.len()
                ==> #[trigger] outcomes@[i] == check_outcome_spec(self.jobs@[i], now_millis),
    {
        let mut outcomes: Vec<CheckOutcome> = Vec::new();
        let mut i: usize = 0;
        while i < self.jobs.len()
            invariant
                i <= self.jobs@.len(),
                outcomes@.len() == i,
                forall|k: int| 0 <= k < self.jobs@.len() ==> #[trigger] self.jobs@[k].every > 0,
                forall|k: int| 0 <= k < i
                    ==> #[trigger] outcomes@[k] == check_outcome_spec(self.jobs@[k], now_millis),
            decreases self.jobs@.len() - i,
        {
            let outcome = self.jobs[i].check(now_millis);
            outcomes.push(outcome);
            i = i + 1;
        }
        outcomes
    }
}

} // verus!
