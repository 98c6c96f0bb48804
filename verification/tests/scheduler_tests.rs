use siafu::{
    Instant, JobBuilder, JobHandler, RecurringInterval, RecurringSchedule, Schedule, ScheduleTime,
    ScheduleType, Scheduler, SchedulerError, Span,
};
use std::time::{SystemTime, UNIX_EPOCH};

fn now_nanos() -> u128 {
    SystemTime::now().duration_since(UNIX_EPOCH).unwrap().as_nanos()
}

fn diff(a: u128, b: u128) -> u128 {
    if a > b { a - b } else { b - a }
}

struct TestHandler;

impl JobHandler for TestHandler {
    fn call(&mut self) -> Result<(), String> {
        Ok(())
    }
}

struct FailingHandler;

impl JobHandler for FailingHandler {
    fn call(&mut self) -> Result<(), String> {
        Err("boom".to_string())
    }
}

fn dummy_handler() -> TestHandler {
    TestHandler
}

const SEC: u128 = 1_000_000_000;

#[test]
fn test_new_scheduler_empty() {
    let scheduler: Scheduler<TestHandler> = Scheduler::new();
    assert_eq!(scheduler.list_all_jobs().len(), 0);
    assert_eq!(scheduler.next_run(), None);
}

#[test]
fn test_add_job() -> Result<(), SchedulerError> {
    let mut scheduler = Scheduler::new();
    let job = JobBuilder::new("test-job")
        .once(ScheduleTime::At(Instant::from_nanos(now_nanos() + 60 * SEC)))
        .add_handler(dummy_handler())
        .build();

    scheduler.add_job(job)?;
    assert_eq!(scheduler.list_all_jobs().len(), 1);

    let all_jobs = scheduler.list_all_jobs();
    let job_ref = all_jobs[0];
    assert_eq!(job_ref.name, Some("test-job".to_string()));

    Ok(())
}

#[test]
fn test_add_job_no_schedule() {
    let mut scheduler = Scheduler::new();
    let job = JobBuilder::new("no-schedule").add_handler(dummy_handler()).build();

    let result = scheduler.add_job(job);
    assert!(result.is_err());
    match result {
        Err(SchedulerError::MissingSchedule) => {}
        _ => panic!("Expected MissingSchedule error"),
    }
}

#[test]
fn test_add_job_no_handler() {
    let mut scheduler: Scheduler<TestHandler> = Scheduler::new();
    let job = JobBuilder::new("no-handler")
        .once(ScheduleTime::At(Instant::from_nanos(now_nanos() + 60 * SEC)))
        .build();

    let result = scheduler.add_job(job);
    assert!(result.is_err());
    match result {
        Err(SchedulerError::HandlerNotBuilt) => {}
        _ => panic!("Expected HandlerNotBuilt error"),
    }
}

#[test]
fn test_next_run_single_job() -> Result<(), SchedulerError> {
    let mut scheduler = Scheduler::new();
    let target_time = now_nanos() + 60 * SEC;

    let job = JobBuilder::new("test-job")
        .once(ScheduleTime::At(Instant::from_nanos(target_time)))
        .add_handler(dummy_handler())
        .build();

    scheduler.add_job(job)?;

    let next = scheduler.next_run();
    assert!(next.is_some());
    assert!(diff(target_time, next.unwrap().nanos) < 10_000_000);

    Ok(())
}

#[test]
fn test_next_run_multiple_jobs() -> Result<(), SchedulerError> {
    let mut scheduler = Scheduler::new();
    let time1 = now_nanos() + 60 * SEC;
    let time2 = now_nanos() + 30 * SEC;

    let job1 = JobBuilder::new("job1")
        .once(ScheduleTime::At(Instant::from_nanos(time1)))
        .add_handler(dummy_handler())
        .build();

    let job2 = JobBuilder::new("job2")
        .once(ScheduleTime::At(Instant::from_nanos(time2)))
        .add_handler(dummy_handler())
        .build();

    scheduler.add_job(job1)?;
    scheduler.add_job(job2)?;

    let next = scheduler.next_run();
    assert!(next.is_some());
    assert!(diff(time2, next.unwrap().nanos) < 10_000_000);

    Ok(())
}

#[test]
fn test_run_pending_job() -> Result<(), SchedulerError> {
    let mut scheduler = Scheduler::new();

    let job = JobBuilder::new("immediate")
        .once(ScheduleTime::At(Instant::from_nanos(now_nanos())))
        .add_handler(dummy_handler())
        .build();

    scheduler.add_job(job)?;

    assert_eq!(scheduler.list_all_jobs().len(), 1);

    scheduler.run_pending()?;

    assert_eq!(scheduler.list_all_jobs().len(), 1);
    let all_jobs = scheduler.list_all_jobs();
    assert!(all_jobs[0].last_run.is_some());
    assert!(all_jobs[0].next_run.is_none());

    Ok(())
}

#[test]
fn test_run_recurring_jobs() -> Result<(), SchedulerError> {
    let mut scheduler = Scheduler::new();

    let recur_time = now_nanos();

    let job = JobBuilder::new("recurring")
        .recurring(
            RecurringInterval::Secondly(1),
            Some(ScheduleTime::At(Instant::from_nanos(recur_time))),
        )
        .add_handler(dummy_handler())
        .build();

    scheduler.add_job(job)?;

    assert_eq!(scheduler.list_all_jobs().len(), 1);
    assert!(scheduler.list_all_jobs()[0].next_run.is_some());

    scheduler.run_pending()?;

    let all_jobs = scheduler.list_all_jobs();
    let last_run = all_jobs[0].last_run;
    assert!(last_run.is_some());

    let next_run = all_jobs[0].next_run;
    assert!(next_run.is_some());

    // advancement is relative to the schedule's own prior next-run, exactly
    let expected_next = recur_time + SEC;
    assert!(diff(expected_next, next_run.unwrap().nanos) < 100_000_000);

    Ok(())
}

#[test]
fn test_run_job_with_max_runs() -> Result<(), SchedulerError> {
    let mut scheduler = Scheduler::new();

    // fixed instants stand in for the wall clock, so no sleeping is needed
    let t0 = Instant::from_nanos(1_000_000 * SEC);

    let job = JobBuilder::new("limited-runs")
        .recurring_at(
            RecurringInterval::Secondly(1),
            Some(ScheduleTime::At(t0)),
            t0,
        )
        .max_repeat(2)
        .add_handler(dummy_handler())
        .build();

    scheduler.add_job(job)?;

    // first execution
    scheduler.run_pending_at(t0)?;
    assert!(scheduler.list_all_jobs()[0].next_run.is_some());
    assert_eq!(scheduler.list_all_jobs()[0].schedules[0].run_count, 1);

    // second execution: the limit is reached, no next run remains
    scheduler.run_pending_at(Instant::from_nanos(t0.nanos + SEC))?;
    assert!(scheduler.list_all_jobs()[0].next_run.is_none());
    assert_eq!(scheduler.list_all_jobs()[0].schedules[0].run_count, 2);

    // a third tick must not advance the run counter past the limit
    scheduler.run_pending_at(Instant::from_nanos(t0.nanos + 2 * SEC))?;
    assert!(scheduler.list_all_jobs()[0].next_run.is_none());
    assert_eq!(scheduler.list_all_jobs()[0].schedules[0].run_count, 2);

    Ok(())
}

#[test]
fn test_list_all_jobs() -> Result<(), SchedulerError> {
    let mut scheduler = Scheduler::new();

    let job1 = JobBuilder::new("job1")
        .once(ScheduleTime::At(Instant::from_nanos(now_nanos() + 60 * SEC)))
        .add_handler(dummy_handler())
        .build();

    let job2 = JobBuilder::new("job2")
        .once(ScheduleTime::At(Instant::from_nanos(now_nanos() + 30 * SEC)))
        .add_handler(dummy_handler())
        .build();

    let job3 = JobBuilder::new("job3")
        .once(ScheduleTime::At(Instant::from_nanos(now_nanos() + 90 * SEC)))
        .add_handler(dummy_handler())
        .build();

    scheduler.add_job(job1)?;
    scheduler.add_job(job2)?;
    scheduler.add_job(job3)?;

    let all_jobs = scheduler.list_all_jobs();
    assert_eq!(all_jobs.len(), 3);
    assert_eq!(all_jobs[0].name, Some("job2".to_string()));
    assert_eq!(all_jobs[1].name, Some("job1".to_string()));
    assert_eq!(all_jobs[2].name, Some("job3".to_string()));

    Ok(())
}

#[test]
fn test_compute_next_run_recurring_intervals() {
    let now = Instant::from_nanos(now_nanos());

    let mut secondly_sched = Schedule {
        schedule_type: ScheduleType::Recurring(RecurringSchedule {
            interval: RecurringInterval::Secondly(5),
            next_run: now,
        }),
        max_runs: None,
        run_count: 0,
    };
    let next_secondly =
        Scheduler::<TestHandler>::compute_next_run(&mut secondly_sched).unwrap();
    assert_eq!(next_secondly, Instant::from_nanos(now.nanos + 5 * SEC));

    let mut hourly_sched = Schedule {
        schedule_type: ScheduleType::Recurring(RecurringSchedule {
            interval: RecurringInterval::Hourly(2),
            next_run: now,
        }),
        max_runs: None,
        run_count: 0,
    };
    let next_hourly = Scheduler::<TestHandler>::compute_next_run(&mut hourly_sched).unwrap();
    assert_eq!(next_hourly, Instant::from_nanos(now.nanos + 2 * 3600 * SEC));

    let mut daily_sched = Schedule {
        schedule_type: ScheduleType::Recurring(RecurringSchedule {
            interval: RecurringInterval::Daily(1),
            next_run: now,
        }),
        max_runs: None,
        run_count: 0,
    };
    let next_daily = Scheduler::<TestHandler>::compute_next_run(&mut daily_sched).unwrap();
    assert_eq!(next_daily, Instant::from_nanos(now.nanos + 86400 * SEC));

    let mut custom_sched = Schedule {
        schedule_type: ScheduleType::Recurring(RecurringSchedule {
            interval: RecurringInterval::Custom {
                expression: "weekly".to_string(),
                frequency: 1,
            },
            next_run: now,
        }),
        max_runs: None,
        run_count: 0,
    };
    let next_custom = Scheduler::<TestHandler>::compute_next_run(&mut custom_sched).unwrap();
    assert_eq!(next_custom, Instant::from_nanos(now.nanos + 7 * 86400 * SEC));
}

#[test]
fn test_max_runs_limit() {
    let now = Instant::from_nanos(now_nanos());
    let mut sched = Schedule {
        schedule_type: ScheduleType::Recurring(RecurringSchedule {
            interval: RecurringInterval::Secondly(1),
            next_run: now,
        }),
        max_runs: Some(3),
        run_count: 3,
    };

    let next_run = Scheduler::<TestHandler>::compute_next_run(&mut sched);
    assert!(next_run.is_none());
}

#[test]
fn test_peek_next_run() {
    let now = Instant::from_nanos(now_nanos());

    let recurring_sched = Schedule {
        schedule_type: ScheduleType::Recurring(RecurringSchedule {
            interval: RecurringInterval::Secondly(1),
            next_run: Instant::from_nanos(now.nanos + 5 * SEC),
        }),
        max_runs: None,
        run_count: 0,
    };

    let peeked = Scheduler::<TestHandler>::peek_next_run(&recurring_sched);
    assert_eq!(peeked.unwrap(), Instant::from_nanos(now.nanos + 5 * SEC));

    let once_sched = Schedule {
        schedule_type: ScheduleType::Once(now),
        max_runs: Some(1),
        run_count: 0,
    };

    let peeked_once = Scheduler::<TestHandler>::peek_next_run(&once_sched);
    assert!(peeked_once.is_none());
}

#[test]
fn test_cron_schedule() -> Result<(), SchedulerError> {
    let mut scheduler = Scheduler::new();
    let cron_str = "0 0 * * * *";

    let job = JobBuilder::new("cron-job").cron(cron_str).add_handler(dummy_handler()).build();

    scheduler.add_job(job)?;

    assert!(scheduler.next_run().is_some());

    Ok(())
}

#[test]
fn test_random_schedule() -> Result<(), SchedulerError> {
    let mut scheduler = Scheduler::new();

    let start = now_nanos() + SEC;
    let end = now_nanos() + 5 * SEC;

    let job = JobBuilder::new("random-job")
        .random(
            ScheduleTime::At(Instant::from_nanos(start)),
            ScheduleTime::At(Instant::from_nanos(end)),
        )
        .add_handler(dummy_handler())
        .build();

    scheduler.add_job(job)?;

    assert_eq!(scheduler.list_all_jobs().len(), 1);
    let all_jobs = scheduler.list_all_jobs();
    assert!(all_jobs[0].next_run.is_some());

    let next_run = all_jobs[0].next_run.unwrap();
    assert!(next_run.nanos >= start && next_run.nanos <= end);

    Ok(())
}

// A failing handler surfaces as ExecutionFailed with its message, and the
// job's schedules are still advanced.
#[test]
fn test_run_pending_execution_failed() {
    let mut scheduler = Scheduler::new();
    let t0 = Instant::from_nanos(1_000_000 * SEC);
    let job = JobBuilder::new("fails")
        .once_at(ScheduleTime::At(t0), t0)
        .add_handler(FailingHandler)
        .build();
    scheduler.add_job(job).unwrap();
    let result = scheduler.run_pending_at(t0);
    match result {
        Err(SchedulerError::ExecutionFailed(msg)) => assert_eq!(msg, "boom"),
        _ => panic!("Expected ExecutionFailed error"),
    }
    let all_jobs = scheduler.list_all_jobs();
    assert_eq!(all_jobs[0].last_run, Some(t0));
    assert!(all_jobs[0].next_run.is_none());
}

// A recurring schedule with the run already due advances by exactly its own
// interval from the stored next-run, not from the tick's "now".
#[test]
fn test_recurring_advances_from_stored_instant() {
    let mut scheduler = Scheduler::new();
    let t0 = Instant::from_nanos(1_000_000 * SEC);
    // the tick happens three seconds late
    let late_now = Instant::from_nanos(t0.nanos + 3 * SEC);
    let job = JobBuilder::new("exact")
        .recurring_at(
            RecurringInterval::Secondly(5),
            Some(ScheduleTime::At(t0)),
            t0,
        )
        .add_handler(dummy_handler())
        .build();
    scheduler.add_job(job).unwrap();
    scheduler.run_pending_at(late_now).unwrap();
    let all_jobs = scheduler.list_all_jobs();
    assert_eq!(all_jobs[0].next_run, Some(Instant::from_nanos(t0.nanos + 5 * SEC)));
}

// The run() entry point itself reports a missing handler.
#[test]
fn test_run_without_handler() {
    let mut job: JobBuilder<TestHandler> =
        JobBuilder::new("bare").once(ScheduleTime::Delay(Span::from_secs(1)));
    match job.run() {
        Err(SchedulerError::HandlerNotBuilt) => {}
        _ => panic!("Expected HandlerNotBuilt error"),
    }
}

// Error texts match their descriptive messages.
#[test]
fn test_scheduler_error_messages() {
    assert_eq!(SchedulerError::HandlerNotBuilt.message(), "Handler not built!");
    assert_eq!(SchedulerError::MissingSchedule.message(), "No schedule found!");
    assert_eq!(
        SchedulerError::TimeCalculationError.message(),
        "Error calculating target time"
    );
    assert_eq!(
        SchedulerError::JobNotFound("x".to_string()).message(),
        "Job not found: x"
    );
    assert_eq!(
        SchedulerError::ExecutionFailed("boom".to_string()).message(),
        "Job execution failed: boom"
    );
    assert_eq!(
        SchedulerError::InvalidSchedule("bad".to_string()).message(),
        "Invalid schedule: bad"
    );
}
