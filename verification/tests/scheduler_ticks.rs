use tick_scheduler::job::{CheckOutcome, Job, Unit};
use tick_scheduler::scheduler::Scheduler;

fn job(id: i32, name: &str, every: u64, registered_at: u64) -> Job {
    Job {
        id,
        name: String::from(name),
        every,
        unit: Unit::Seconds,
        registered_at,
    }
}

#[test]
fn new_scheduler_is_empty() {
    let sch = Scheduler::new(String::from("logger"));
    assert_eq!(sch.logger, "logger");
    assert!(sch.get_jobs().is_empty());
}

#[test]
fn add_job_appends_in_insertion_order() {
    let mut sch = Scheduler::new(String::from("logger"));
    sch.add_job(job(1, "downloading report", 1, 0));
    sch.add_job(job(2, "uploading report", 10, 0));
    sch.add_job(job(2, "duplicate id accepted", 0, 0));
    let jobs = sch.get_jobs();
    assert_eq!(jobs.len(), 3);
    assert_eq!(jobs[0].id, 1);
    assert_eq!(jobs[0].name, "downloading report");
    assert_eq!(jobs[1].id, 2);
    assert_eq!(jobs[1].every, 10);
    assert_eq!(jobs[2].every, 0);
}

#[test]
fn tick_evaluates_every_job_in_registry_order() {
    let mut sch = Scheduler::new(String::from("logger"));
    sch.add_job(job(1, "each second", 1, 0));
    sch.add_job(job(2, "each ten seconds", 10, 0));
    sch.add_job(job(3, "each three seconds", 3, 0));

    let outcomes = sch.check_tick(10_000);
    assert_eq!(
        outcomes,
        vec![CheckOutcome::Due, CheckOutcome::Due, CheckOutcome::NotDue]
    );

    let outcomes = sch.check_tick(9_000);
    assert_eq!(
        outcomes,
        vec![CheckOutcome::Due, CheckOutcome::NotDue, CheckOutcome::Due]
    );
}

#[test]
fn clock_failure_is_local_to_one_job_and_one_tick() {
    let mut sch = Scheduler::new(String::from("logger"));
    sch.add_job(job(1, "normal", 2, 1_000));
    sch.add_job(job(2, "registered in the future", 2, 60_000));
    sch.add_job(job(3, "also normal", 3, 1_000));

    let outcomes = sch.check_tick(5_000);
    assert_eq!(outcomes[1], CheckOutcome::ClockFailure);
    assert_eq!(outcomes[0], CheckOutcome::Due);
    assert_eq!(outcomes[2], CheckOutcome::NotDue);

    // A later tick, once the clock has passed the registration, is not
    // affected by the earlier failure.
    let outcomes = sch.check_tick(64_000);
    assert_eq!(outcomes[1], CheckOutcome::Due);
}

#[test]
fn tick_outcomes_are_a_snapshot_of_the_registry_at_the_call() {
    let mut sch = Scheduler::new(String::from("logger"));
    sch.add_job(job(1, "first", 1, 0));
    let before = sch.check_tick(4_000);
    sch.add_job(job(2, "added after the tick", 1, 0));
    assert_eq!(before.len(), 1);
    let after = sch.check_tick(4_000);
    assert_eq!(after.len(), 2);
}

#[test]
fn twenty_one_ticks_with_one_second_and_ten_second_jobs() {
    let registered: u64 = 1_700_000_000_000;
    let mut sch = Scheduler::new(String::from("logger"));
    sch.add_job(job(1, "downloading report", 1, registered));
    sch.add_job(job(2, "uploading report", 10, registered));

    let mut c1: u64 = 0;
    let mut c2: u64 = 0;
    let mut c2_ticks: Vec<u64> = Vec::new();
    for k in 0..21u64 {
        let outcomes = sch.check_tick(registered + k * 1000);
        if outcomes[0] == CheckOutcome::Due {
            c1 += 1;
        }
        if outcomes[1] == CheckOutcome::Due {
            c2 += 1;
            c2_ticks.push(k);
        }
    }
    assert_eq!(c1, 21);
    assert_eq!(c2, 3);
    assert_eq!(c2_ticks, vec![0, 10, 20]);
}
