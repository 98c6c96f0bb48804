//! Schedule kinds and their state.
//!
//! A `Schedule` pairs one firing rule (`ScheduleType`) with its run counter
//! and optional run limit.  `RecurringSchedule` carries a fixed-unit interval
//! and the instant it will fire next; `RandomSchedule` carries the bounds the
//! one-shot random instant was drawn from; a cron rule carries the parsed
//! pattern and recomputes its next instant from the wall clock on every query.

use vstd::prelude::*;
use cron::Schedule as CronSchedule;
use crate::time::{sat_add, Instant, NANOS_PER_SEC};

verus! {

/// Nanoseconds in one minute, hour, day, week, and thirty days.
pub const NANOS_PER_MINUTE: u128 = 60_000_000_000;

pub const NANOS_PER_HOUR: u128 = 3_600_000_000_000;

pub const NANOS_PER_DAY: u128 = 86_400_000_000_000;

pub const NANOS_PER_WEEK: u128 = 604_800_000_000_000;

/// Thirty days: the library's documented approximation of one month; it is
/// not calendar-aware.
pub const NANOS_PER_MONTH: u128 = 2_592_000_000_000_000;

/// A fixed recurrence cadence: a positive multiplier on one time unit, or a
/// named custom cadence.
#[derive(Debug, Clone, PartialEq, Eq, PartialOrd, Ord)]
pub enum RecurringInterval {
    Secondly(u32),
    Minutely(u32),
    Hourly(u32),
    Daily(u32),
    Weekly(u32),
    Monthly(u32),
    /// A named cadence: `daily`, `weekly` and `monthly` step by 1, 7 and 30
    /// days; any other name steps by `frequency` days.
    Custom { expression: String, frequency: u32 },
}

/// How many days a custom cadence steps by.
pub open spec fn custom_days(expression: Seq<char>, frequency: u32) -> int {
    if expression == "daily"@ {
        1
    } else if expression == "weekly"@ {
        7
    } else if expression == "monthly"@ {
        30
    } else {
        frequency as int
    }
}

/// The length of one step of `interval`, in nanoseconds.
pub open spec fn interval_nanos(interval: RecurringInterval) -> int {
    match interval {
        RecurringInterval::Secondly(n) => n * NANOS_PER_SEC,
        RecurringInterval::Minutely(n) => n * NANOS_PER_MINUTE,
        RecurringInterval::Hourly(n) => n * NANOS_PER_HOUR,
        RecurringInterval::Daily(n) => n * NANOS_PER_DAY,
        RecurringInterval::Weekly(n) => n * NANOS_PER_WEEK,
        RecurringInterval::Monthly(n) => n * NANOS_PER_MONTH,
        RecurringInterval::Custom { expression, frequency } => custom_days(
            expression@,
            frequency,
        ) * NANOS_PER_DAY,
    }
}

impl RecurringInterval {
    /// The length of one step of this interval, in nanoseconds.
    pub fn step_nanos(&self) -> (r: u128)
        ensures
            r == interval_nanos(*self),
    {
        match self {
            RecurringInterval::Secondly(n) => (*n as u128) * NANOS_PER_SEC,
            RecurringInterval::Minutely(n) => (*n as u128) * NANOS_PER_MINUTE,
            RecurringInterval::Hourly(n) => (*n as u128) * NANOS_PER_HOUR,
            RecurringInterval::Daily(n) => (*n as u128) * NANOS_PER_DAY,
            RecurringInterval::Weekly(n) => (*n as u128) * NANOS_PER_WEEK,
            RecurringInterval::Monthly(n) => (*n as u128) * NANOS_PER_MONTH,
            RecurringInterval::Custom { expression, frequency } => {
                let days: u128 = if expression.eq(&String::from_str("daily")) {
                    1
                } else if expression.eq(&String::from_str("weekly")) {
                    7
                } else if expression.eq(&String::from_str("monthly")) {
                    30
                } else {
                    *frequency as u128
                };
                days * NANOS_PER_DAY
            },
        }
    }
}

/// A recurring rule: the cadence, and the instant it will fire next.  The
/// stored `next_run` is overwritten on each advancement; it is never derived
/// from the wall clock after construction.
#[derive(Clone)]
pub struct RecurringSchedule {
    pub interval: RecurringInterval,
    pub next_run: Instant,
}

/// The bounds a random one-shot instant was drawn from.  The draw happens at
/// construction; the bounds are kept only as a record.
pub struct RandomSchedule {
    pub start_time: Instant,
    pub end_time: Instant,
}

/// One firing rule.
pub enum ScheduleType {
    /// Fire once, at the given instant.
    Once(Instant),
    /// Fire repeatedly on a fixed cadence.
    Recurring(RecurringSchedule),
    /// Fire once, at an instant drawn from a range at construction time.
    Random(RandomSchedule),
    /// Fire on a calendar pattern; the next instant is recomputed from the
    /// wall clock on every query.
    Cron(CronSchedule),
}

/// One firing rule bound to its run counter and optional run limit.
pub struct Schedule {
    pub schedule_type: ScheduleType,
    pub max_runs: Option<u32>,
    pub run_count: u32,
}

#[verifier::external_type_specification]
#[verifier::external_body]
pub struct ExCronSchedule(CronSchedule);

/// Whether the cron crate accepts `expression` as a cron pattern.
pub uninterp spec fn cron_ok(expression: Seq<char>) -> bool;

/// Relies on cron's `Schedule::try_from` for strings: parsing is a function of the
/// expression alone; it yields a schedule exactly when the expression is a
/// well-formed cron pattern.
#[verifier::external_body]
pub(crate) fn parse_cron(expression: &str) -> (r: Option<CronSchedule>)
    ensures
        r is Some <==> cron_ok(expression@),
{
    match CronSchedule::try_from(expression) {
        Ok(schedule) => Some(schedule),
        Err(_) => None,
    }
}

/// Relies on cron's `Schedule::upcoming`: the first instant matching the
/// pattern strictly after the current wall-clock time, if the pattern has
/// one.  The result depends on the wall clock, so nothing is promised of it.
#[verifier::external_body]
pub(crate) fn cron_upcoming(schedule: &CronSchedule) -> (r: Option<Instant>) {
    match schedule.upcoming(chrono::Utc).next() {
        Some(dt) => match std::time::SystemTime::from(dt).duration_since(
            std::time::UNIX_EPOCH,
        ) {
            Ok(d) => Some(Instant { nanos: d.as_nanos() }),
            Err(_) => None,
        },
        None => None,
    }
}

/// Whether `s` has used up its run limit.  An exhausted schedule reports no
/// next run and is never advanced again, whatever its rule kind.
pub open spec fn schedule_exhausted(s: Schedule) -> bool {
    match s.max_runs {
        Some(m) => s.run_count >= m,
        None => false,
    }
}

/// Whether `s` carries a cron rule, whose next instant only the wall clock
/// determines.
pub open spec fn is_cron(s: Schedule) -> bool {
    s.schedule_type is Cron
}

/// The live next-run instant of a non-cron schedule: none once exhausted;
/// none for one-shot rules, which fire through the job-level cached next-run
/// and never re-arm; the stored instant for a recurring rule.
pub open spec fn peek_fixed(s: Schedule) -> Option<Instant> {
    if schedule_exhausted(s) {
        None
    } else {
        match s.schedule_type {
            ScheduleType::Once(_) => None,
            ScheduleType::Random(_) => None,
            ScheduleType::Recurring(rec) => Some(rec.next_run),
            ScheduleType::Cron(_) => None,
        }
    }
}

/// Whether a non-cron schedule is due at `now`: it has a live next-run, and
/// that instant has passed.
pub open spec fn fires_fixed(s: Schedule, now: u128) -> bool {
    peek_fixed(s) matches Some(t) && t.nanos <= now
}

/// A run counter incremented by one firing; it sticks at its ceiling rather
/// than wrapping, and a limit at or below the ceiling is reached exactly.
pub open spec fn inc_count(c: u32) -> u32 {
    if c < u32::MAX {
        (c + 1) as u32
    } else {
        c
    }
}

/// `s` immediately after firing: the run counter goes up by one; then, unless
/// the schedule is now exhausted, a recurring rule steps its stored next-run
/// forward by one interval.  One-shot and cron rules keep their state.
pub open spec fn fired_schedule(s: Schedule) -> Schedule {
    let counted = Schedule { run_count: inc_count(s.run_count), ..s };
    if schedule_exhausted(counted) {
        counted
    } else {
        stepped_schedule(counted)
    }
}

/// A non-cron schedule as one scheduler tick at `now` leaves it: advanced if
/// it was due, untouched otherwise.
pub open spec fn ticked_schedule(s: Schedule, now: u128) -> Schedule {
    if fires_fixed(s, now) {
        fired_schedule(s)
    } else {
        s
    }
}

/// `s` with its recurring rule stepped forward once: the new next-run is the
/// old one plus one interval step, measured from the stored instant and not
/// from the wall clock.
pub open spec fn stepped_schedule(s: Schedule) -> Schedule {
    match s.schedule_type {
        ScheduleType::Recurring(rec) => Schedule {
            schedule_type: ScheduleType::Recurring(
                RecurringSchedule {
                    interval: rec.interval,
                    next_run: Instant {
                        nanos: sat_add(rec.next_run.nanos, interval_nanos(rec.interval) as u128),
                    },
                },
            ),
            ..s
        },
        _ => s,
    }
}

} // verus!
