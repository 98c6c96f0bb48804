//! The scheduler: owns registered jobs, fires the due ones, and advances
//! their schedules.
//!
//! One call to `run_pending` is one tick: every job whose cached next-run has
//! passed is executed at most once, each of its own due schedules is advanced
//! exactly once, and the job's cached next-run is recomputed from what
//! survives.

use vstd::prelude::*;
use crate::error::Error;
use crate::job::{now_nanos, JobBuilder, JobHandler};
use crate::time::Instant;
use crate::types::{
    cron_upcoming, fired_schedule, is_cron, peek_fixed, schedule_exhausted,
    ticked_schedule, Schedule, ScheduleType,
};

verus! {

/// The interface of a scheduler.
pub trait SchedulerRunner<H: JobHandler> {
    /// Take ownership of a job; reject one with no schedules or no handler.
    fn add_job(&mut self, job: JobBuilder<H>) -> Result<(), Error>;

    /// Run every job whose next run has passed, and advance its schedules.
    fn run_pending(&mut self) -> Result<(), Error>;

    /// The next scheduled run time among all jobs.
    fn next_run(&self) -> Option<Instant>;

    /// All jobs, ordered by ascending next-run, jobs with none last.
    fn list_all_jobs(&self) -> Vec<&JobBuilder<H>>;
}

/// Owns the registered jobs; the sole mutator of their run counters,
/// recurring next-runs, and cached next-run fields after registration.
pub struct Scheduler<H: JobHandler> {
    jobs: Vec<JobBuilder<H>>,
}

impl<H: JobHandler> View for Scheduler<H> {
    type V = Seq<JobBuilder<H>>;

    closed spec fn view(&self) -> Seq<JobBuilder<H>> {
        self.jobs@
    }
}

/// The earlier of two optional instants, a missing one counting as latest.
pub open spec fn opt_min(a: Option<Instant>, b: Option<Instant>) -> Option<Instant> {
    match (a, b) {
        (Option::None, x) => x,
        (Option::Some(x), Option::None) => Some(x),
        (Option::Some(x), Option::Some(y)) => if x.nanos <= y.nanos {
            Some(x)
        } else {
            Some(y)
        },
    }
}

/// The minimum of the first `n` entries of `xs`, a missing entry counting as
/// latest.
pub open spec fn min_opts(xs: Seq<Option<Instant>>, n: int) -> Option<Instant>
    decreases n,
{
    if n <= 0 {
        None
    } else {
        opt_min(min_opts(xs, n - 1), xs[n - 1])
    }
}

/// `min_opts` reads only the first `n` entries: two sequences that agree
/// there have the same minimum.
pub proof fn lemma_min_opts_prefix(xs: Seq<Option<Instant>>, ys: Seq<Option<Instant>>, n: int)
    requires
        n <= xs.len(),
        n <= ys.len(),
        forall|i: int| 0 <= i < n ==> xs[i] == ys[i],
    ensures
        min_opts(xs, n) == min_opts(ys, n),
    decreases n,
{
    if n > 0 {
        lemma_min_opts_prefix(xs, ys, n - 1);
    }
}

/// The earliest cached next-run among the first `n` jobs.
pub open spec fn min_next_run<H: JobHandler>(jobs: Seq<JobBuilder<H>>, n: int) -> Option<Instant>
    decreases n,
{
    if n <= 0 {
        None
    } else {
        opt_min(min_next_run(jobs, n - 1), jobs[n - 1].next_run)
    }
}

/// The earliest cached next-run is a true minimum: it runs no later than any
/// job's cached next-run, it is some job's cached next-run whenever it
/// exists, and it is missing exactly when no job has one.
pub proof fn lemma_min_next_run_is_least<H: JobHandler>(jobs: Seq<JobBuilder<H>>, n: int)
    requires
        0 <= n <= jobs.len(),
    ensures
        forall|i: int| 0 <= i < n ==> next_run_le(min_next_run(jobs, n), jobs[i].next_run),
        min_next_run(jobs, n) is Some ==> exists|i: int|
            0 <= i < n && jobs[i].next_run == min_next_run(jobs, n),
        min_next_run(jobs, n) is None ==> forall|i: int| 0 <= i < n ==> jobs[i].next_run is None,
    decreases n,
{
    if n > 0 {
        lemma_min_next_run_is_least(jobs, n - 1);
    }
}

/// "`a` runs no later than `b`": instants order naturally, and a job with no
/// pending run sorts after every job with one.
pub open spec fn next_run_le(a: Option<Instant>, b: Option<Instant>) -> bool {
    match (a, b) {
        (Option::Some(x), Option::Some(y)) => x.nanos <= y.nanos,
        (Option::Some(_), Option::None) => true,
        (Option::None, Option::Some(_)) => false,
        (Option::None, Option::None) => true,
    }
}

/// Whether `j`'s cached next-run has passed `now`.
pub open spec fn job_due<H: JobHandler>(j: JobBuilder<H>, now: u128) -> bool {
    j.next_run matches Some(nr) && nr.nanos <= now
}

/// `ord` rearranges the indices `0 .. n`: each entry is in range and no two
/// are equal.
pub open spec fn is_index_permutation(ord: Seq<int>, n: int) -> bool {
    &&& ord.len() == n
    &&& forall|i: int| 0 <= i < n ==> 0 <= #[trigger] ord[i] < n
    &&& forall|i: int, j: int| 0 <= i < j < n ==> ord[i] != ord[j]
}

/// `out` lists exactly the jobs of `jobs`, each once, in the order `ord`.
pub open spec fn is_job_reordering<H: JobHandler>(
    ord: Seq<int>,
    jobs: Seq<JobBuilder<H>>,
    out: Seq<&JobBuilder<H>>,
) -> bool {
    &&& is_index_permutation(ord, jobs.len() as int)
    &&& out.len() == jobs.len()
    &&& forall|i: int| 0 <= i < out.len() ==> *#[trigger] out[i] == jobs[ord[i]]
}

/// How one tick at `now` takes schedule `s` to `s2`: a non-cron schedule is
/// advanced exactly when its own live next-run had passed; a cron schedule is
/// never touched once exhausted, and otherwise fires at most once, by the
/// wall clock's judgement.
pub open spec fn sched_ticked(s: Schedule, s2: Schedule, now: u128) -> bool {
    if !is_cron(s) {
        s2 == ticked_schedule(s, now)
    } else if schedule_exhausted(s) {
        s2 == s
    } else {
        s2 == s || s2 == fired_schedule(s)
    }
}

/// `peeks` records one live next-run per schedule: exactly `peek_fixed` for a
/// non-cron entry, none for an exhausted entry of any kind, and whatever the
/// wall clock gave for a live cron entry.
pub open spec fn sched_peeks_ok(scheds: Seq<Schedule>, peeks: Seq<Option<Instant>>) -> bool {
    &&& peeks.len() == scheds.len()
    &&& forall|k: int|
        0 <= k < scheds.len() ==> {
            &&& (!is_cron(scheds[k]) ==> #[trigger] peeks[k] == peek_fixed(scheds[k]))
            &&& (schedule_exhausted(scheds[k]) ==> peeks[k] is None)
        }
}

/// How one tick at `now` takes job `j` to `j2`.  A job that was not due is
/// untouched.  A due job runs once: its identity is kept, its last-run
/// becomes `now`, each of its schedules is advanced as `sched_ticked` says,
/// and its cached next-run is recomputed as the minimum of its schedules'
/// live next-runs.  Only the handler's own inner state is unconstrained.
pub open spec fn job_ticked<H: JobHandler>(j: JobBuilder<H>, j2: JobBuilder<H>, now: u128) -> bool {
    if !job_due(j, now) {
        j2 == j
    } else {
        &&& j2.id == j.id
        &&& j2.name == j.name
        &&& (j2.handler is Some <==> j.handler is Some)
        &&& j2.last_run == Some(Instant { nanos: now })
        &&& j2.schedules@.len() == j.schedules@.len()
        &&& (forall|k: int|
            0 <= k < j.schedules@.len() ==> sched_ticked(
                j.schedules@[k],
                #[trigger] j2.schedules@[k],
                now,
            ))
        &&& exists|peeks: Seq<Option<Instant>>|
            #[trigger] sched_peeks_ok(j2.schedules@, peeks) && j2.next_run == min_opts(
                peeks,
                peeks.len() as int,
            )
    }
}

/// How one tick at `now` takes the whole job list from `before` to `after`:
/// every job is ticked in place; none is added, removed or reordered.
pub open spec fn tick_post<H: JobHandler>(
    before: Seq<JobBuilder<H>>,
    after: Seq<JobBuilder<H>>,
    now: u128,
) -> bool {
    &&& after.len() == before.len()
    &&& forall|i: int| 0 <= i < before.len() ==> job_ticked(before[i], #[trigger] after[i], now)
}


/// A schedule that has used up its run limit is final: no tick moves it, and
/// it never again reports a next run.
pub proof fn lemma_exhausted_schedule_is_final(s: Schedule, s2: Schedule, now: u128)
    requires
        schedule_exhausted(s),
        sched_ticked(s, s2, now),
    ensures
        s2 == s,
        peek_fixed(s2) is None,
{
}

/// A run counter never passes its limit: a tick advances it only while it is
/// below the limit, and stops it exactly there.
pub proof fn lemma_run_count_capped(s: Schedule, s2: Schedule, now: u128, m: u32)
    requires
        sched_ticked(s, s2, now),
        s.max_runs == Some(m),
        s.run_count <= m,
    ensures
        s2.run_count <= m,
        s2.max_runs == Some(m),
{
}

/// A due job whose only schedule is one-shot reports no next run once the
/// tick has fired it: a one-shot rule never re-arms.
pub proof fn lemma_once_job_exhausts<H: JobHandler>(
    j: JobBuilder<H>,
    j2: JobBuilder<H>,
    now: u128,
)
    requires
        job_ticked(j, j2, now),
        job_due(j, now),
        j.schedules@.len() == 1,
        !is_cron(j.schedules@[0]),
        j.schedules@[0].schedule_type is Once || j.schedules@[0].schedule_type is Random,
    ensures
        j2.next_run is None,
{
    let peeks = choose|peeks: Seq<Option<Instant>>|
        #[trigger] sched_peeks_ok(j2.schedules@, peeks) && j2.next_run == min_opts(
            peeks,
            peeks.len() as int,
        );
    assert(sched_ticked(j.schedules@[0], j2.schedules@[0], now));
    assert(peeks[0] == peek_fixed(j2.schedules@[0]));
    assert(min_opts(peeks, 1) == opt_min(min_opts(peeks, 0), peeks[0]));
}

impl<H: JobHandler> Scheduler<H> {
    /// Every registered job carries a handler; the registration guards
    /// enforce it, and every tick preserves it.
    pub closed spec fn wf(&self) -> bool {
        forall|i: int|
            0 <= i < self.jobs@.len() ==> (#[trigger] self.jobs@[i]).handler is Some
    }

    /// A scheduler with no jobs.
    pub fn new() -> (r: Scheduler<H>)
        ensures
            r@ =~= Seq::<JobBuilder<H>>::empty(),
            r.wf(),
    {
        Scheduler { jobs: Vec::new() }
    }

    /// Register `job`: refused without any schedule, refused without a
    /// handler, owned by the scheduler from then on.
    pub fn add_job(&mut self, job: JobBuilder<H>) -> (r: Result<(), Error>)
        requires
            old(self).wf(),
        ensures
            final(self).wf(),
            job.schedules@.len() == 0 ==> (r matches Err(Error::MissingSchedule) && final(self)@
                == old(self)@),
            job.schedules@.len() > 0 && job.handler is None ==> (r matches Err(
                Error::HandlerNotBuilt,
            ) && final(self)@ == old(self)@),
            job.schedules@.len() > 0 && job.handler is Some ==> (r is Ok && final(self)@ == old(
                self,
            )@.push(job)),
    {
        if job.schedules.len() == 0 {
            return Err(Error::MissingSchedule);
        }
        if job.handler.is_none() {
            return Err(Error::HandlerNotBuilt);
        }
        self.jobs.push(job);
        Ok(())
    }

    /// The live next-run of one schedule, without touching it: none once the
    /// run limit is used up; none for one-shot rules; the stored instant for
    /// a recurring rule; the wall clock's next matching instant for a cron
    /// rule.
    pub fn peek_next_run(schedule: &Schedule) -> (r: Option<Instant>)
        ensures
            !is_cron(*schedule) ==> r == peek_fixed(*schedule),
            schedule_exhausted(*schedule) ==> r is None,
    {
        if let Some(max) = schedule.max_runs {
            if schedule.run_count >= max {
                return None;
            }
        }
        match &schedule.schedule_type {
            ScheduleType::Once(_) => None,
            ScheduleType::Random(_) => None,
            ScheduleType::Recurring(rec) => Some(rec.next_run),
            ScheduleType::Cron(c) => cron_upcoming(c),
        }
    }

    /// Recompute a schedule's next run after a firing: an exhausted schedule
    /// contributes nothing and is left alone; one-shot rules never fire
    /// again; a recurring rule steps its stored next-run forward by exactly
    /// one interval, measured from the stored instant and not from the wall
    /// clock; a cron rule asks the wall clock and keeps no state of its own.
    pub fn compute_next_run(schedule: &mut Schedule) -> (r: Option<Instant>)
        ensures
            schedule_exhausted(*old(schedule)) ==> (*final(schedule) == *old(schedule) && r
                is None),
            !schedule_exhausted(*old(schedule)) ==> *final(schedule) == crate::types::stepped_schedule(
                *old(schedule),
            ),
            !schedule_exhausted(*old(schedule)) && !is_cron(*old(schedule)) ==> r == peek_fixed(
                *final(schedule),
            ),
    {
        if let Some(max) = schedule.max_runs {
            if schedule.run_count >= max {
                return None;
            }
        }
        match &mut schedule.schedule_type {
            ScheduleType::Once(_) => None,
            ScheduleType::Random(_) => None,
            ScheduleType::Recurring(rec) => {
                let delta = rec.interval.step_nanos();
                let next = Instant { nanos: rec.next_run.nanos.saturating_add(delta) };
                rec.next_run = next;
                Some(next)
            },
            ScheduleType::Cron(c) => cron_upcoming(c),
        }
    }

    /// The earlier of two optional instants.
    fn opt_min_exec(a: Option<Instant>, b: Option<Instant>) -> (r: Option<Instant>)
        ensures
            r == opt_min(a, b),
    {
        match (a, b) {
            (None, x) => x,
            (Some(x), None) => Some(x),
            (Some(x), Some(y)) => if x.nanos <= y.nanos {
                Some(x)
            } else {
                Some(y)
            },
        }
    }

    /// One tick, judged against the given instant: run every job whose
    /// cached next-run has passed `now`, advance each of its own due
    /// schedules once, and recompute its cached next-run.  A handler failure
    /// does not halt the pass: every due job still runs and is advanced, and
    /// the first failure is reported at the end.
    pub fn run_pending_at(&mut self, now: Instant) -> (r: Result<(), Error>)
        requires
            old(self).wf(),
        ensures
            final(self).wf(),
            tick_post(old(self)@, final(self)@, now.nanos),
            r is Ok || r matches Err(Error::ExecutionFailed(_)),
    {
        let mut result: Result<(), Error> = Ok(());
        let n = self.jobs.len();
        let mut i: usize = 0;
        while i < n
            invariant
                n == self.jobs@.len(),
                old(self)@.len() == n,
                i <= n,
                forall|t: int| 0 <= t < i ==> job_ticked(old(self)@[t], #[trigger] self.jobs@[t], now.nanos),
                forall|t: int| i <= t < n ==> old(self)@[t] == #[trigger] self.jobs@[t],
                forall|t: int| 0 <= t < n ==> (#[trigger] self.jobs@[t]).handler is Some,
                result is Ok || result matches Err(Error::ExecutionFailed(_)),
            decreases n - i,
        {
            let due = match self.jobs[i].next_run {
                Some(nr) => nr.nanos <= now.nanos,
                None => false,
            };
            if due {
                let ghost pre_jobs = self.jobs@;
                let mut job = self.jobs.remove(i);
                let ghost job0 = job;
                let run_result = job.run();
                if result.is_ok() {
                    if let Err(e) = run_result {
                        result = Err(e);
                    }
                }
                job.last_run = Some(now);
                let ghost job1 = job;
                let m = job.schedules.len();
                let mut k: usize = 0;
                while k < m
                    invariant
                        m == job.schedules@.len(),
                        job0.schedules@.len() == m,
                        k <= m,
                        job.id == job1.id,
                        job.name == job1.name,
                        job.handler == job1.handler,
                        job.last_run == job1.last_run,
                        job.next_run == job1.next_run,
                        forall|t: int| 0 <= t < k ==> sched_ticked(
                            job0.schedules@[t],
                            #[trigger] job.schedules@[t],
                            now.nanos,
                        ),
                        forall|t: int| k <= t < m ==> job0.schedules@[t] == #[trigger] job.schedules@[t],
                    decreases m - k,
                {
                    let peeked = Self::peek_next_run(&job.schedules[k]);
                    let fire = match peeked {
                        Some(rn) => rn.nanos <= now.nanos,
                        None => false,
                    };
                    if fire {
                        let sref = &mut job.schedules[k];
                        if sref.run_count < u32::MAX {
                            sref.run_count = sref.run_count + 1;
                        }
                        let _ = Self::compute_next_run(&mut job.schedules[k]);
                        proof {
                            assert(sched_ticked(job0.schedules@[k as int], job.schedules@[k as int], now.nanos));
                        }
                    }
                    k = k + 1;
                }
                let mut acc: Option<Instant> = None;
                let ghost mut peeks: Seq<Option<Instant>> = Seq::empty();
                let mut k2: usize = 0;
                while k2 < m
                    invariant
                        m == job.schedules@.len(),
                        k2 <= m,
                        peeks.len() == k2,
                        acc == min_opts(peeks, k2 as int),
                        forall|t: int| 0 <= t < k2 ==> {
                            &&& (!is_cron(job.schedules@[t]) ==> #[trigger] peeks[t] == peek_fixed(job.schedules@[t]))
                            &&& (schedule_exhausted(job.schedules@[t]) ==> peeks[t] is None)
                        },
                    decreases m - k2,
                {
                    let p = Self::peek_next_run(&job.schedules[k2]);
                    proof {
                        let peeks0 = peeks;
                        peeks = peeks.push(p);
                        lemma_min_opts_prefix(peeks0, peeks, k2 as int);
                    }
                    acc = Self::opt_min_exec(acc, p);
                    k2 = k2 + 1;
                }
                job.next_run = acc;
                proof {
                    assert(sched_peeks_ok(job.schedules@, peeks));
                }
                self.jobs.insert(i, job);
                proof {
                    assert(self.jobs@ =~= pre_jobs.update(i as int, job));
                    assert(job_ticked(old(self)@[i as int], job, now.nanos));
                }
            }
            i = i + 1;
        }
        result
    }

    /// One tick, judged against the wall clock now; see `run_pending_at`.
    pub fn run_pending(&mut self) -> (r: Result<(), Error>)
        requires
            old(self).wf(),
        ensures
            final(self).wf(),
            exists|now: u128| tick_post(old(self)@, final(self)@, now),
            r is Ok || r matches Err(Error::ExecutionFailed(_)),
    {
        let now = now_nanos();
        let r = self.run_pending_at(Instant { nanos: now });
        proof {
            assert(tick_post(old(self)@, self@, now));
        }
        r
    }

    /// The next scheduled run time among all jobs: the earliest cached
    /// next-run, or none when no job has a pending run.
    pub fn next_run(&self) -> (r: Option<Instant>)
        ensures
            r == min_next_run(self@, self@.len() as int),
    {
        let mut acc: Option<Instant> = None;
        let mut i: usize = 0;
        while i < self.jobs.len()
            invariant
                i <= self.jobs@.len(),
                self@ == self.jobs@,
                acc == min_next_run(self@, i as int),
            decreases self.jobs@.len() - i,
        {
            acc = Self::opt_min_exec(acc, self.jobs[i].next_run);
            i = i + 1;
        }
        acc
    }

    /// Whether `a` runs no later than `b`.
    fn next_run_le_exec(a: Option<Instant>, b: Option<Instant>) -> (r: bool)
        ensures
            r == next_run_le(a, b),
    {
        match (a, b) {
            (Some(x), Some(y)) => x.nanos <= y.nanos,
            (Some(_), None) => true,
            (None, Some(_)) => false,
            (None, None) => true,
        }
    }

    /// A read-only view of all jobs, ordered by ascending cached next-run,
    /// jobs with no pending run last: a rearrangement of the owned jobs, no
    /// more and no fewer.
    pub fn list_all_jobs(&self) -> (r: Vec<&JobBuilder<H>>)
        ensures
            r@.len() == self@.len(),
            forall|i: int, j: int|
                0 <= i < j < r@.len() ==> next_run_le(r@[i].next_run, r@[j].next_run),
            exists|ord: Seq<int>| #[trigger] is_job_reordering(ord, self@, r@),
    {
        let n = self.jobs.len();
        let mut order: Vec<usize> = Vec::new();
        let mut k: usize = 0;
        while k < n
            invariant
                k <= n,
                order@.len() == k,
                forall|t: int| 0 <= t < k ==> #[trigger] order@[t] == t,
            decreases n - k,
        {
            order.push(k);
            k = k + 1;
        }
        let mut i: usize = 0;
        while i < n
            invariant
                n == self.jobs@.len(),
                order@.len() == n,
                i <= n,
                forall|t: int| 0 <= t < n ==> 0 <= #[trigger] order@[t] < n,
                forall|a: int, b: int| 0 <= a < b < n ==> order@[a] != order@[b],
                forall|a: int, b: int|
                    0 <= a < b < i ==> next_run_le(
                        self.jobs@[order@[a] as int].next_run,
                        self.jobs@[order@[b] as int].next_run,
                    ),
                forall|a: int, b: int|
                    0 <= a < i <= b < n ==> next_run_le(
                        self.jobs@[order@[a] as int].next_run,
                        self.jobs@[order@[b] as int].next_run,
                    ),
            decreases n - i,
        {
            let mut m: usize = i;
            let mut j2: usize = i + 1;
            while j2 <= n - 1
                invariant
                    n == self.jobs@.len(),
                    order@.len() == n,
                    i < n,
                    i <= m < n,
                    i + 1 <= j2 <= n,
                    m < j2 || m == i,
                    forall|t: int| 0 <= t < n ==> 0 <= #[trigger] order@[t] < n,
                    forall|t: int|
                        i <= t < j2 ==> next_run_le(
                            self.jobs@[order@[m as int] as int].next_run,
                            self.jobs@[order@[t] as int].next_run,
                        ),
                decreases n - j2,
            {
                let key_m = self.jobs[order[m]].next_run;
                let key_j = self.jobs[order[j2]].next_run;
                if !Self::next_run_le_exec(key_m, key_j) {
                    m = j2;
                }
                j2 = j2 + 1;
            }
            let oi = order[i];
            let om = order[m];
            order[i] = om;
            order[m] = oi;
            i = i + 1;
        }
        let mut out: Vec<&JobBuilder<H>> = Vec::new();
        let mut t: usize = 0;
        while t < n
            invariant
                n == self.jobs@.len(),
                order@.len() == n,
                t <= n,
                out@.len() == t,
                forall|q: int| 0 <= q < n ==> 0 <= #[trigger] order@[q] < n,
                forall|q: int| 0 <= q < t ==> *#[trigger] out@[q] == self.jobs@[order@[q] as int],
            decreases n - t,
        {
            out.push(&self.jobs[order[t]]);
            t = t + 1;
        }
        proof {
            let ord = Seq::new(n as nat, |q: int| order@[q] as int);
            assert(is_job_reordering(ord, self@, out@));
        }
        out
    }
}

} // verus!
