//! Jobs and their fluent builder.
//!
//! A `JobBuilder` accumulates schedules and a handler for one named unit of
//! work.  Each schedule-adding operation resolves its times immediately and
//! tightens the job's cached earliest next-run; the cache only ever moves
//! earlier during construction.

use vstd::prelude::*;
use vstd::string::StrSliceExecFns;
use rand::Rng;
use crate::error::Error;
use crate::time::{resolve_spec, sat_add, Instant, ScheduleTime, Span, NANOS_PER_SEC};
use crate::types::{
    cron_ok, cron_upcoming, parse_cron, RandomSchedule, RecurringInterval, RecurringSchedule,
    Schedule, ScheduleType, NANOS_PER_MINUTE,
};

verus! {

/// The unit of work a job carries.  Implementors run the work once per call;
/// a failure is reported as a message.  Nothing is assumed of what a call
/// does to the implementor's own state.
pub trait JobHandler {
    /// Run the work once; `Err` carries the failure's description.
    fn call(&mut self) -> Result<(), String>;
}

/// The interface for executing scheduled jobs.
pub trait JobExecutor {
    /// Execute the job's handler.
    fn run(&mut self) -> Result<(), Error>;

    /// The next scheduled run time for this job, if any.
    fn get_next_run(&self) -> Option<Instant> {
        None
    }
}

/// A named unit of work: a handler plus the schedules that decide when it
/// runs.  `next_run` caches the earliest live next-run over all schedules;
/// `last_run` records when the scheduler last fired the job.
pub struct JobBuilder<H: JobHandler> {
    pub id: u128,
    pub name: Option<String>,
    pub schedules: Vec<Schedule>,
    pub last_run: Option<Instant>,
    pub next_run: Option<Instant>,
    pub handler: Option<H>,
}

/// Relies on uuid's `Uuid::new_v4`: a freshly generated random 128-bit
/// identifier.  Nothing is promised of the value.
#[verifier::external_body]
fn fresh_id() -> u128 {
    uuid::Uuid::new_v4().as_u128()
}

/// Relies on rand's `Rng::random_range`: a value drawn uniformly from
/// `[0, bound)`; the call panics on an empty range, so the bound must be
/// positive.
#[verifier::external_body]
fn random_below(bound: u128) -> (r: u128)
    requires
        bound > 0,
    ensures
        r < bound,
{
    rand::rng().random_range(0..bound)
}

/// Relies on std's `SystemTime::now`: the wall clock, as nanoseconds since
/// the Unix epoch.  The value depends on when the call is made, so nothing is
/// promised of it.
#[verifier::external_body]
pub(crate) fn now_nanos() -> u128 {
    match std::time::SystemTime::now().duration_since(std::time::UNIX_EPOCH) {
        Ok(d) => d.as_nanos(),
        Err(_) => 0,
    }
}

/// `cur` tightened by a new candidate next-run: the earlier of the two, or
/// the candidate alone where no next-run was cached yet.
pub open spec fn min_opt(cur: Option<Instant>, new: u128) -> Option<Instant> {
    match cur {
        None => Some(Instant { nanos: new }),
        Some(c) => if c.nanos <= new {
            Some(c)
        } else {
            Some(Instant { nanos: new })
        },
    }
}

/// How a one-shot schedule at instant `t` takes `j` to `r`: everything else
/// is kept; the new schedule allows a single run; the cached next-run
/// tightens to `t` if `t` is earlier.
pub open spec fn once_added<H: JobHandler>(j: JobBuilder<H>, r: JobBuilder<H>, t: u128) -> bool {
    &&& r.id == j.id
    &&& r.name == j.name
    &&& r.last_run == j.last_run
    &&& r.handler == j.handler
    &&& r.schedules@ == j.schedules@.push(
        Schedule {
            schedule_type: ScheduleType::Once(Instant { nanos: t }),
            max_runs: Some(1u32),
            run_count: 0u32,
        },
    )
    &&& r.next_run == min_opt(j.next_run, t)
}

/// How an unbounded recurring schedule first due at `first` takes `j` to
/// `r`: everything else is kept; the cached next-run tightens to `first` if
/// `first` is earlier.
pub open spec fn recurring_added<H: JobHandler>(
    j: JobBuilder<H>,
    r: JobBuilder<H>,
    interval: RecurringInterval,
    first: u128,
) -> bool {
    &&& r.id == j.id
    &&& r.name == j.name
    &&& r.last_run == j.last_run
    &&& r.handler == j.handler
    &&& r.schedules@ == j.schedules@.push(
        Schedule {
            schedule_type: ScheduleType::Recurring(
                RecurringSchedule { interval, next_run: Instant { nanos: first } },
            ),
            max_runs: None,
            run_count: 0u32,
        },
    )
    &&& r.next_run == min_opt(j.next_run, first)
}

/// How a recurring schedule takes `j` to `r` when built at wall-clock time
/// `now`: first due at the requested start resolved against `now`, or one
/// default step out when no start was given.
pub open spec fn recurring_outcome<H: JobHandler>(
    j: JobBuilder<H>,
    r: JobBuilder<H>,
    interval: RecurringInterval,
    start_time: Option<ScheduleTime>,
    now: u128,
) -> bool {
    match start_time {
        Some(st) => recurring_added(j, r, interval, resolve_spec(st, now)),
        None => recurring_added(j, r, interval, default_first_run(interval, now)),
    }
}

/// How the cached next-run moves when a cron schedule is added: tightened by
/// the pattern's first upcoming instant `up`, or kept where the pattern has
/// none.
pub open spec fn cron_tightened(
    cur: Option<Instant>,
    new: Option<Instant>,
    up: Option<Instant>,
) -> bool {
    match up {
        Some(rt) => new == min_opt(cur, rt.nanos),
        None => new == cur,
    }
}

/// How a random schedule with bounds resolved against `now` takes `j` to
/// `r`: the bounds are recorded; a non-empty range pins one instant inside it
/// and tightens the cached next-run with it; an empty range leaves the cache
/// alone.
pub open spec fn random_outcome<H: JobHandler>(
    j: JobBuilder<H>,
    r: JobBuilder<H>,
    start: ScheduleTime,
    end: ScheduleTime,
    now: u128,
) -> bool {
    let s = resolve_spec(start, now);
    let e = resolve_spec(end, now);
    &&& r.id == j.id
    &&& r.name == j.name
    &&& r.last_run == j.last_run
    &&& r.handler == j.handler
    &&& r.schedules@ == j.schedules@.push(
        Schedule {
            schedule_type: ScheduleType::Random(
                RandomSchedule {
                    start_time: Instant { nanos: s },
                    end_time: Instant { nanos: e },
                },
            ),
            max_runs: None,
            run_count: 0u32,
        },
    )
    &&& e > s ==> exists|rt: u128| s <= rt < e && #[trigger] min_opt_is(j.next_run, rt, r.next_run)
    &&& e <= s ==> r.next_run == j.next_run
}

/// Whether `new` is `cur` tightened by the candidate `rt`.
pub open spec fn min_opt_is(cur: Option<Instant>, rt: u128, new: Option<Instant>) -> bool {
    new == min_opt(cur, rt)
}

/// The first run instant of a recurring schedule built without an explicit
/// start: one step of the rule's own cadence from `now`, except that a custom
/// cadence defaults to one minute out.
pub open spec fn default_first_run(interval: RecurringInterval, now: u128) -> u128 {
    match interval {
        RecurringInterval::Custom { .. } => sat_add(now, NANOS_PER_MINUTE),
        _ => sat_add(now, crate::types::interval_nanos(interval) as u128),
    }
}

impl<H: JobHandler> JobBuilder<H> {
    /// A new builder with the given name, no schedules and no handler.  The
    /// empty name stands for "unnamed".  The job's identifier is drawn at
    /// random.
    pub fn new(name: &str) -> (r: JobBuilder<H>)
        ensures
            name@.len() == 0 ==> r.name is None,
            name@.len() > 0 ==> (r.name matches Some(n) && n@ == name@),
            r.schedules@ =~= Seq::<Schedule>::empty(),
            r.last_run is None,
            r.next_run is None,
            r.handler is None,
    {
        JobBuilder {
            id: fresh_id(),
            name: if name.unicode_len() == 0 {
                None
            } else {
                Some(name.to_owned())
            },
            schedules: Vec::new(),
            last_run: None,
            next_run: None,
            handler: None,
        }
    }

    /// Schedule the job to run once at `time`, resolved against `now`.
    pub fn once_at(self, time: ScheduleTime, now: Instant) -> (r: JobBuilder<H>)
        ensures
            once_added(self, r, resolve_spec(time, now.nanos)),
    {
        let t = time.resolve(now);
        let mut j = self;
        j.next_run = match j.next_run {
            None => Some(t),
            Some(c) => if c.nanos <= t.nanos {
                Some(c)
            } else {
                Some(t)
            },
        };
        j.schedules.push(
            Schedule {
                schedule_type: ScheduleType::Once(t),
                max_runs: Some(1),
                run_count: 0,
            },
        );
        j
    }

    /// Schedule the job to run once at `time`; a delay is measured from the
    /// wall clock at the moment of this call.
    pub fn once(self, time: ScheduleTime) -> (r: JobBuilder<H>)
        ensures
            time matches ScheduleTime::At(t) ==> once_added(self, r, t.nanos),
            exists|now: u128| once_added(self, r, resolve_spec(time, now)),
    {
        let now = now_nanos();
        self.once_at(time, Instant { nanos: now })
    }

    /// Schedule the job on a recurring interval, first due at `start_time`
    /// resolved against `now`, or one default step out when no start is
    /// given.
    pub fn recurring_at(
        self,
        interval: RecurringInterval,
        start_time: Option<ScheduleTime>,
        now: Instant,
    ) -> (r: JobBuilder<H>)
        ensures
            start_time matches Some(st) ==> recurring_added(
                self,
                r,
                interval,
                resolve_spec(st, now.nanos),
            ),
            start_time is None ==> recurring_added(
                self,
                r,
                interval,
                default_first_run(interval, now.nanos),
            ),
    {
        let first: Instant = match &start_time {
            Some(st) => st.resolve(now),
            None => {
                if let RecurringInterval::Custom { .. } = &interval {
                    Instant { nanos: now.nanos.saturating_add(NANOS_PER_MINUTE) }
                } else {
                    let step = interval.step_nanos();
                    Instant { nanos: now.nanos.saturating_add(step) }
                }
            },
        };
        let mut j = self;
        j.next_run = match j.next_run {
            None => Some(first),
            Some(c) => if c.nanos <= first.nanos {
                Some(c)
            } else {
                Some(first)
            },
        };
        j.schedules.push(
            Schedule {
                schedule_type: ScheduleType::Recurring(
                    RecurringSchedule { interval, next_run: first },
                ),
                max_runs: None,
                run_count: 0,
            },
        );
        j
    }

    /// Schedule the job on a recurring interval; a delay or a missing start
    /// is measured from the wall clock at the moment of this call.
    pub fn recurring(self, interval: RecurringInterval, start_time: Option<ScheduleTime>) -> (r:
        JobBuilder<H>)
        ensures
            start_time matches Some(ScheduleTime::At(t)) ==> recurring_added(
                self,
                r,
                interval,
                t.nanos,
            ),
            exists|now: u128| recurring_outcome(self, r, interval, start_time, now),
    {
        let now = now_nanos();
        let r = self.recurring_at(interval, start_time, Instant { nanos: now });
        proof {
            assert(recurring_outcome(self, r, interval, start_time, now as u128));
        }
        r
    }

    /// Schedule the job on a recurring interval given as a plain span,
    /// folded to the coarsest whole unit that fits it.
    pub fn every(self, interval: Span, start_time: Option<ScheduleTime>) -> (r: JobBuilder<H>)
        ensures
            start_time matches Some(ScheduleTime::At(t)) ==> recurring_added(
                self,
                r,
                span_interval(interval),
                t.nanos,
            ),
            exists|now: u128| recurring_outcome(
                self,
                r,
                span_interval(interval),
                start_time,
                now,
            ),
    {
        let recurring_interval = duration_to_recurring_interval(interval);
        self.recurring(recurring_interval, start_time)
    }

    /// Schedule the job on a cron calendar pattern.  A pattern the cron
    /// engine rejects is silently not added: the job simply ends up with one
    /// schedule fewer than requested.  On success the pattern's first
    /// upcoming instant, read from the wall clock, seeds the cached next-run.
    pub fn cron(self, cron_schedule: &str) -> (r: JobBuilder<H>)
        ensures
            !cron_ok(cron_schedule@) ==> r == self,
            cron_ok(cron_schedule@) ==> {
                &&& r.id == self.id
                &&& r.name == self.name
                &&& r.last_run == self.last_run
                &&& r.handler == self.handler
                &&& r.schedules@.len() == self.schedules@.len() + 1
                &&& r.schedules@.subrange(0, self.schedules@.len() as int) == self.schedules@
                &&& r.schedules@.last().schedule_type is Cron
                &&& r.schedules@.last().max_runs is None
                &&& r.schedules@.last().run_count == 0u32
                &&& exists|up: Option<Instant>| cron_tightened(self.next_run, r.next_run, up)
            },
    {
        match parse_cron(cron_schedule) {
            Some(schedule) => {
                let mut j = self;
                let upcoming = cron_upcoming(&schedule);
                match upcoming {
                    Some(rt) => {
                        j.next_run = match j.next_run {
                            None => Some(rt),
                            Some(c) => if c.nanos <= rt.nanos {
                                Some(c)
                            } else {
                                Some(rt)
                            },
                        };
                    },
                    None => {},
                }
                j.schedules.push(
                    Schedule {
                        schedule_type: ScheduleType::Cron(schedule),
                        max_runs: None,
                        run_count: 0,
                    },
                );
                proof {
                    assert(cron_tightened(self.next_run, j.next_run, upcoming));
                    assert(j.schedules@.subrange(0, self.schedules@.len() as int)
                        =~= self.schedules@);
                }
                j
            },
            None => self,
        }
    }

    /// Schedule the job at one random instant drawn, against wall-clock time
    /// `now`, from the range the two bounds resolve to.  With an empty range
    /// the schedule is still recorded but computes no fire time at all: it
    /// will never fire, and the cached next-run is left alone.
    pub fn random_at(self, start: ScheduleTime, end: ScheduleTime, now: Instant) -> (r: JobBuilder<
        H,
    >)
        ensures
            ({
                let s = resolve_spec(start, now.nanos);
                let e = resolve_spec(end, now.nanos);
                &&& r.id == self.id
                &&& r.name == self.name
                &&& r.last_run == self.last_run
                &&& r.handler == self.handler
                &&& r.schedules@ == self.schedules@.push(
                    Schedule {
                        schedule_type: ScheduleType::Random(
                            RandomSchedule {
                                start_time: Instant { nanos: s },
                                end_time: Instant { nanos: e },
                            },
                        ),
                        max_runs: None,
                        run_count: 0u32,
                    },
                )
                &&& e > s ==> exists|rt: u128|
                    s <= rt < e && #[trigger] min_opt_is(self.next_run, rt, r.next_run)
                &&& e <= s ==> r.next_run == self.next_run
            }),
    {
        let start_time = start.resolve(now);
        let end_time = end.resolve(now);
        let mut j = self;
        if end_time.nanos > start_time.nanos {
            let range: u128 = end_time.nanos - start_time.nanos;
            let offset = random_below(range);
            let rt: u128 = start_time.nanos + offset;
            j.next_run = match j.next_run {
                None => Some(Instant { nanos: rt }),
                Some(c) => if c.nanos <= rt {
                    Some(c)
                } else {
                    Some(Instant { nanos: rt })
                },
            };
            proof {
                assert(min_opt_is(self.next_run, rt as u128, j.next_run));
            }
        }
        j.schedules.push(
            Schedule {
                schedule_type: ScheduleType::Random(
                    RandomSchedule { start_time, end_time },
                ),
                max_runs: None,
                run_count: 0,
            },
        );
        j
    }

    /// Schedule the job at one random instant between `start` and `end`;
    /// delays are measured from the wall clock at the moment of this call.
    pub fn random(self, start: ScheduleTime, end: ScheduleTime) -> (r: JobBuilder<H>)
        ensures
            exists|now: u128| random_outcome(self, r, start, end, now),
    {
        let now = now_nanos();
        let r = self.random_at(start, end, Instant { nanos: now });
        proof {
            assert(random_outcome(self, r, start, end, now as u128));
        }
        r
    }

    /// Limit how many times the most recently added schedule will run.  With
    /// no schedule yet, the call changes nothing.
    pub fn max_repeat(self, max_runs: u32) -> (r: JobBuilder<H>)
        ensures
            self.schedules@.len() == 0 ==> r == self,
            self.schedules@.len() > 0 ==> {
                &&& r.id == self.id
                &&& r.name == self.name
                &&& r.last_run == self.last_run
                &&& r.next_run == self.next_run
                &&& r.handler == self.handler
                &&& r.schedules@ == self.schedules@.update(
                    self.schedules@.len() - 1,
                    Schedule {
                        max_runs: Some(max_runs),
                        ..self.schedules@.last()
                    },
                )
            },
    {
        let mut j = self;
        if j.schedules.len() > 0 {
            let mut last = j.schedules.pop().unwrap();
            last.max_runs = Some(max_runs);
            j.schedules.push(last);
            proof {
                assert(j.schedules@ =~= self.schedules@.update(
                    self.schedules@.len() - 1,
                    Schedule { max_runs: Some(max_runs), ..self.schedules@.last() },
                ));
            }
        }
        j
    }

    /// Attach the job's handler.
    pub fn add_handler(self, handler: H) -> (r: JobBuilder<H>)
        ensures
            r.id == self.id,
            r.name == self.name,
            r.schedules == self.schedules,
            r.last_run == self.last_run,
            r.next_run == self.next_run,
            r.handler matches Some(h) && h == handler,
    {
        let mut j = self;
        j.handler = Some(handler);
        j
    }

    /// Finalize the builder.
    pub fn build(self) -> (r: JobBuilder<H>)
        ensures
            r == self,
    {
        self
    }

    /// Run the job's handler once: the job's own state — identity, schedules
    /// and bookkeeping — is untouched; with no handler attached the call
    /// fails without doing anything.
    pub fn run(&mut self) -> (r: Result<(), Error>)
        ensures
            final(self).id == old(self).id,
            final(self).name == old(self).name,
            final(self).schedules == old(self).schedules,
            final(self).last_run == old(self).last_run,
            final(self).next_run == old(self).next_run,
            old(self).handler is None ==> (r matches Err(Error::HandlerNotBuilt) && *final(self)
                == *old(self)),
            old(self).handler is Some ==> final(self).handler is Some && (r is Ok || r matches Err(
                Error::ExecutionFailed(_),
            )),
    {
        match &mut self.handler {
            Some(h) => match h.call() {
                Ok(()) => Ok(()),
                Err(msg) => Err(Error::ExecutionFailed(msg)),
            },
            None => Err(Error::HandlerNotBuilt),
        }
    }
}

/// Adding a schedule only tightens the cached next-run: the merged value
/// never gets later, never lies above the new schedule's own seed instant,
/// and is always one of the two.
pub proof fn lemma_merge_tightens(cur: Option<Instant>, t: u128)
    ensures
        crate::scheduler::next_run_le(min_opt(cur, t), cur),
        min_opt(cur, t) matches Some(v) && v.nanos <= t,
        min_opt(cur, t) == cur || min_opt(cur, t) == Some(Instant { nanos: t }),
{
}

impl<H: JobHandler> JobExecutor for JobBuilder<H> {
    /// Execute the job's handler once; the job's own state is untouched.
    fn run(&mut self) -> Result<(), Error> {
        JobBuilder::run(self)
    }
}

/// The recurring interval a plain span folds to: whole days where the span
/// is a positive whole number of days, else whole hours, else whole minutes,
/// else its whole seconds; the multiplier is truncated to 32 bits, and
/// sub-second remainders are dropped, as the unit folding is only as fine as
/// seconds.
pub open spec fn span_interval(interval: Span) -> RecurringInterval {
    let secs = interval.nanos / NANOS_PER_SEC;
    if secs % 86_400 == 0 && secs > 0 {
        RecurringInterval::Daily(((secs / 86_400) % 0x1_0000_0000) as u32)
    } else if secs % 3_600 == 0 && secs > 0 {
        RecurringInterval::Hourly(((secs / 3_600) % 0x1_0000_0000) as u32)
    } else if secs % 60 == 0 && secs > 0 {
        RecurringInterval::Minutely(((secs / 60) % 0x1_0000_0000) as u32)
    } else {
        RecurringInterval::Secondly((secs % 0x1_0000_0000) as u32)
    }
}

/// Fold a plain span to the coarsest whole recurring unit that fits it.
pub fn duration_to_recurring_interval(interval: Span) -> (r: RecurringInterval)
    ensures
        r == span_interval(interval),
{
    let secs: u128 = interval.nanos / NANOS_PER_SEC;
    if secs % 86_400 == 0 && secs > 0 {
        let n: u128 = (secs / 86_400) % 0x1_0000_0000;
        RecurringInterval::Daily(n as u32)
    } else if secs % 3_600 == 0 && secs > 0 {
        let n: u128 = (secs / 3_600) % 0x1_0000_0000;
        RecurringInterval::Hourly(n as u32)
    } else if secs % 60 == 0 && secs > 0 {
        let n: u128 = (secs / 60) % 0x1_0000_0000;
        RecurringInterval::Minutely(n as u32)
    } else {
        let n: u128 = secs % 0x1_0000_0000;
        RecurringInterval::Secondly(n as u32)
    }
}

} // verus!
