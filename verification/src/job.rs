//! Job definitions and the per-job due-check.

use vstd::prelude::*;

verus! {

/// The declared unit of a job's interval. The unit is stored for
/// diagnostics but is not applied to the magnitude: the due-check always
/// treats the magnitude as a count of seconds, whatever the declared unit.
#[derive(Clone, Copy, PartialEq, Eq, Structural, Debug)]
pub enum Unit {
    Seconds,
    Minutes,
    Hours,
}

/// One scheduled job: an identity, a label for diagnostics, an interval
/// magnitude (treated as seconds), its declared unit, and the moment of
/// registration as milliseconds on the caller's clock.
///
/// A job never changes after registration; its action is an opaque
/// callable that the caller keeps beside the definition and runs when a
/// tick finds the job due.
pub struct Job {
    pub id: i32,
    pub name: String,
    pub every: u64,
    pub unit: Unit,
    pub registered_at: u64,
}

/// What one tick's check of one job decided.
#[derive(Clone, Copy, PartialEq, Eq, Structural, Debug)]
pub enum CheckOutcome {
    /// The elapsed whole seconds are a multiple of the interval: the
    /// job's action is to be dispatched this tick.
    Due,
    /// The job is registered but not due this tick.
    NotDue,
    /// The clock reads earlier than the registration timestamp, so the
    /// elapsed time is not representable as a non-negative duration.
    /// No dispatch; the failure is local to this job and this tick.
    ClockFailure,
}

/// Whole seconds elapsed between registration and `now_millis`, rounded
/// down, or `None` when the clock reads earlier than the registration.
pub open spec fn elapsed_seconds_spec(now_millis: u64, registered_at_millis: u64) -> Option<u64> {
    if registered_at_millis <= now_millis {
        Some(((now_millis - registered_at_millis) / 1000) as u64)
    } else {
        None
    }
}

/// A job with interval magnitude `every` is due after `elapsed_seconds`
/// whole seconds exactly when `elapsed_seconds` is a multiple of `every`.
pub open spec fn is_due_spec(elapsed_seconds: u64, every: u64) -> bool {
    elapsed_seconds % every == 0
}

/// What the check of `job` decides at clock reading `now_millis`.
pub open spec fn check_outcome_spec(job: Job, now_millis: u64) -> CheckOutcome {
    match elapsed_seconds_spec(now_millis, job.registered_at) {
        Some(e) => if is_due_spec(e, job.every) {
            CheckOutcome::Due
        } else {
            CheckOutcome::NotDue
        },
        None => CheckOutcome::ClockFailure,
    }
}

/// Computes the whole seconds elapsed since `registered_at_millis`,
/// rounded down; `None` reports a clock that moved backward past the
/// registration.
pub fn elapsed_seconds(now_millis: u64, registered_at_millis: u64) -> (elapsed: Option<u64>)
    ensures
        elapsed == elapsed_seconds_spec(now_millis, registered_at_millis),
{
    if registered_at_millis <= now_millis {
        Some((now_millis - registered_at_millis) / 1000)
    } else {
        None
    }
}

/// The due-check: true exactly when `elapsed_seconds` is a multiple of
/// the interval magnitude `every`.
pub fn is_due(elapsed_seconds: u64, every: u64) -> (due: bool)
    requires
        every > 0,
    ensures
        due == is_due_spec(elapsed_seconds, every),
{
    elapsed_seconds % every == 0
}

impl Job {
    /// Evaluates this job's due-check at clock reading `now_millis`.
    ///
    /// The check is pure: it reads the job and the clock value and
    /// decides, mutating nothing. It reports `ClockFailure` exactly when
    /// the clock reads earlier than the registration timestamp, and
    /// otherwise decides `Due` exactly when the elapsed whole seconds
    /// are a multiple of the interval magnitude.
    pub fn check(&self, now_millis: u64) -> (outcome: CheckOutcome)
        requires
            self.every > 0,
        ensures
            outcome == check_outcome_spec(*self, now_millis),
            outcome == CheckOutcome::ClockFailure <==> self.registered_at > now_millis,
    {
        match elapsed_seconds(now_millis, self.registered_at) {
            Some(e) => {
                if is_due(e, self.every) {
                    CheckOutcome::Due
                } else {
                    CheckOutcome::NotDue
                }
            },
            None => CheckOutcome::ClockFailure,
        }
    }
}

/// The due-check is idempotent: two evaluations of the same job at the
/// same clock reading decide the same outcome, and neither evaluation
/// changes the job.
pub proof fn lemma_due_check_idempotent(
    job: Job,
    now_millis: u64,
    first: CheckOutcome,
    second: CheckOutcome,
)
    requires
        first == check_outcome_spec(job, now_millis),
        second == check_outcome_spec(job, now_millis),
    ensures
        first == second,
{
}

} // verus!
