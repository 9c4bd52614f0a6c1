//! The maintenance schedule's bookkeeping: which jobs exist and how their last
//! runs went.
//!
//! Firing jobs on their cron schedule is the caller's.

use vstd::prelude::*;
use crate::clock::{in_range, new_uuid, now_millis, MAX_MILLIS};
use crate::maint::manager::JobPlan;
use crate::maint::types::{JobStatus, JobType, ScheduledJob};
use crate::text::{owned, str_eq};

verus! {

/// Errors of the scheduler.
#[derive(Debug)]
pub enum SchedulerError {
    /// The scheduler failed (its message).
    Scheduler(String),
    /// No job has this identifier.
    JobNotFound(String),
    /// The cron expression was refused (the parser's message).
    InvalidCron(String),
}

/// The message of a scheduler error, as `Display` renders it.
pub open spec fn scheduler_error_text(e: SchedulerError) -> Seq<char> {
    match e {
        SchedulerError::Scheduler(m) => "scheduler error: "@ + m@,
        SchedulerError::JobNotFound(m) => "job not found: "@ + m@,
        SchedulerError::InvalidCron(m) => "invalid cron expression: "@ + m@,
    }
}

impl SchedulerError {
    /// The error's message.
    pub fn message(&self) -> (r: String)
        ensures
            r@ == scheduler_error_text(*self),
    {
        match self {
            SchedulerError::Scheduler(m) => owned("scheduler error: ").concat(m.as_str()),
            SchedulerError::JobNotFound(m) => owned("job not found: ").concat(m.as_str()),
            SchedulerError::InvalidCron(m) => owned("invalid cron expression: ").concat(m.as_str()),
        }
    }
}

/// What is known of a scheduled job.
#[derive(Debug)]
pub struct JobMetadata {
    pub name: String,
    pub cron: String,
    pub job_type: JobType,
    pub enabled: bool,
    /// Last run (milliseconds since the epoch).
    pub last_run: Option<i64>,
    pub last_status: Option<JobStatus>,
}

/// Whether `i` is the first job with the given name.
pub open spec fn first_named(s: Seq<(String, JobMetadata)>, name: Seq<char>, i: int) -> bool {
    0 <= i < s.len() && s[i].1.name@ == name && forall|j: int| 0 <= j < i ==> (#[trigger] s[j]).1.name@ != name
}

/// Whether no job has the given name.
pub open spec fn none_named(s: Seq<(String, JobMetadata)>, name: Seq<char>) -> bool {
    forall|j: int| 0 <= j < s.len() ==> (#[trigger] s[j]).1.name@ != name
}

/// The message with which the `cron` crate refuses an expression, or nothing when
/// it parses.
pub uninterp spec fn cron_parse_error(expr: Seq<char>) -> Option<Seq<char>>;

/// `cron::Schedule::from_str(expr)`, keeping only whether it parsed and, when
/// not, the error's text.
#[verifier::external_body]
fn cron_check(expr: &str) -> (r: Result<(), String>)
    ensures
        match r {
            Ok(()) => cron_parse_error(expr@) is None,
            Err(m) => cron_parse_error(expr@) == Some(m@),
        },
{
    match <cron::Schedule as std::str::FromStr>::from_str(expr) {
        Ok(_) => Ok(()),
        Err(e) => Err(e.to_string()),
    }
}

/// `after` is `before` with one more job: the identifier given, the name, cron
/// line and type, enabled and never run.
pub open spec fn added_job(
    before: Seq<(String, JobMetadata)>,
    after: Seq<(String, JobMetadata)>,
    id: String,
    name: Seq<char>,
    cron: Seq<char>,
    job_type: JobType,
) -> bool {
    &&& after.len() == before.len() + 1
    &&& after.drop_last() == before
    &&& after.last().0 == id
    &&& after.last().1.name@ == name
    &&& after.last().1.cron@ == cron
    &&& after.last().1.job_type == job_type
    &&& after.last().1.enabled
    &&& after.last().1.last_run is None
    &&& after.last().1.last_status is None
}

/// Whether the first `k` plans' cron expressions parse.
pub open spec fn all_parse(plans: Seq<JobPlan>, k: int) -> bool {
    forall|i: int| 0 <= i < k ==> cron_parse_error((#[trigger] plans[i]).cron@) is None
}

/// The job recorded for a plan: its name, cron line and type, enabled, never run.
pub open spec fn plan_job(j: (String, JobMetadata), p: JobPlan) -> bool {
    &&& j.1.name@ == p.name@
    &&& j.1.cron@ == p.cron@
    &&& j.1.job_type == p.job_type
    &&& j.1.enabled
    &&& j.1.last_run is None
    &&& j.1.last_status is None
}

/// `after` is `before` followed by one job for each of the first `k` plans.
pub open spec fn jobs_for_plans(before: Seq<(String, JobMetadata)>, after: Seq<(String, JobMetadata)>, plans: Seq<JobPlan>, k: int) -> bool {
    &&& 0 <= k <= plans.len()
    &&& after.len() == before.len() + k
    &&& after.take(before.len() as int) == before
    &&& forall|i: int| 0 <= i < k ==> plan_job(#[trigger] after[before.len() + i], plans[i])
}

/// Maintenance job scheduler bookkeeping.
pub struct MaintScheduler {
    jobs: Vec<(String, JobMetadata)>,
    running: bool,
}

impl MaintScheduler {
    /// The jobs with their identifiers, in the order added.
    pub closed spec fn job_list(self) -> Seq<(String, JobMetadata)> {
        self.jobs@
    }

    /// Whether the scheduler runs.
    pub closed spec fn runs(self) -> bool {
        self.running
    }

    /// A stopped scheduler without jobs.
    pub fn new() -> (r: MaintScheduler)
        ensures
            r.job_list().len() == 0,
            !r.runs(),
    {
        MaintScheduler { jobs: Vec::new(), running: false }
    }

    /// Marks the scheduler started; says whether it was stopped before.
    pub fn mark_started(&mut self) -> (r: bool)
        ensures
            r == !old(self).runs(),
            final(self).runs(),
            final(self).job_list() == old(self).job_list(),
    {
        if self.running {
            return false;
        }
        self.running = true;
        true
    }

    /// Marks the scheduler stopped; says whether it was running before.
    pub fn mark_stopped(&mut self) -> (r: bool)
        ensures
            r == old(self).runs(),
            !final(self).runs(),
            final(self).job_list() == old(self).job_list(),
    {
        if !self.running {
            return false;
        }
        self.running = false;
        true
    }

    /// Records a new enabled job that has not run yet, once its cron expression
    /// parses; an expression that does not is refused with the parser's message
    /// and nothing is recorded.
    pub fn add_job(&mut self, id: String, name: &str, cron: &str, job_type: JobType) -> (r: Result<(), SchedulerError>)
        ensures
            final(self).runs() == old(self).runs(),
            match cron_parse_error(cron@) {
                Some(m) => (r matches Err(SchedulerError::InvalidCron(x)) && x@ == m)
                    && final(self).job_list() == old(self).job_list(),
                None => r is Ok && added_job(old(self).job_list(), final(self).job_list(), id, name@, cron@, job_type),
            },
    {
        match cron_check(cron) {
            Err(m) => Err(SchedulerError::InvalidCron(m)),
            Ok(()) => {
                let meta = JobMetadata {
                    name: owned(name),
                    cron: owned(cron),
                    job_type,
                    enabled: true,
                    last_run: None,
                    last_status: None,
                };
                self.jobs.push((id, meta));
                assert(self.jobs@.drop_last() =~= old(self).jobs@);
                Ok(())
            },
        }
    }

    /// Records one job for each plan, in order, each under a fresh identifier, then
    /// marks the scheduler started. The first plan whose cron expression does not
    /// parse stops this with its error: the jobs before it stay recorded and the
    /// scheduler is not started.
    pub fn start_with(&mut self, plans: &Vec<JobPlan>) -> (r: Result<(), SchedulerError>)
        ensures
            match r {
                Ok(()) => {
                    &&& all_parse(plans@, plans@.len() as int)
                    &&& final(self).runs()
                    &&& jobs_for_plans(old(self).job_list(), final(self).job_list(), plans@, plans@.len() as int)
                },
                Err(e) => exists|k: int| 0 <= k < plans@.len() && all_parse(plans@, k)
                    && (cron_parse_error(plans@[k].cron@) matches Some(m)
                        && e matches SchedulerError::InvalidCron(x) && x@ == m)
                    && final(self).runs() == old(self).runs()
                    && jobs_for_plans(old(self).job_list(), final(self).job_list(), plans@, k),
            },
    {
        let ghost start = self.jobs@;
        assert(start.take(start.len() as int) =~= start);
        let mut i: usize = 0;
        while i < plans.len()
            invariant
                i <= plans@.len(),
                self.running == old(self).running,
                start == old(self).jobs@,
                all_parse(plans@, i as int),
                jobs_for_plans(start, self.jobs@, plans@, i as int),
            decreases plans.len() - i,
        {
            let p = &plans[i];
            let ghost before = self.jobs@;
            match self.add_job(new_uuid(), p.name.as_str(), p.cron.as_str(), p.job_type) {
                Err(e) => {
                    assert(cron_parse_error(plans@[i as int].cron@) is Some);
                    return Err(e);
                },
                Ok(()) => {
                    proof {
                        assert(self.jobs@.drop_last() == before);
                        assert forall|k: int| 0 <= k < i + 1 implies plan_job(#[trigger] self.jobs@[start.len() + k], plans@[k]) by {
                            if k < i {
                                assert(self.jobs@[start.len() + k] == before[start.len() + k]);
                            }
                        }
                        assert(self.jobs@.take(start.len() as int) =~= before.take(start.len() as int));
                    }
                },
            }
            i = i + 1;
        }
        self.running = true;
        Ok(())
    }

    /// Forgets the job with the identifier; says whether there was one.
    pub fn remove_job(&mut self, id: &str) -> (r: bool)
        ensures
            r == exists|i: int| 0 <= i < old(self).job_list().len() && (#[trigger] old(self).job_list()[i]).0@ == id@,
            r ==> exists|i: int| 0 <= i < old(self).job_list().len() && old(self).job_list()[i].0@ == id@
                && (forall|j: int| 0 <= j < i ==> (#[trigger] old(self).job_list()[j]).0@ != id@)
                && final(self).job_list() == old(self).job_list().remove(i),
            !r ==> final(self).job_list() == old(self).job_list(),
            final(self).runs() == old(self).runs(),
    {
        let mut i: usize = 0;
        while i < self.jobs.len()
            invariant
                i <= self.jobs.len(),
                *self == *old(self),
                forall|j: int| 0 <= j < i ==> (#[trigger] self.jobs@[j]).0@ != id@,
            decreases self.jobs.len() - i,
        {
            if str_eq(self.jobs[i].0.as_str(), id) {
                let ghost t = old(self).job_list();
                assert(t[i as int].0@ == id@);
                assert(forall|j: int| 0 <= j < i ==> (#[trigger] t[j]).0@ != id@);
                self.jobs.remove(i);
                assert(self.job_list() == t.remove(i as int));
                return true;
            }
            i = i + 1;
        }
        false
    }

    fn position(&self, name: &str) -> (r: Option<usize>)
        ensures
            match r {
                Some(i) => first_named(self.jobs@, name@, i as int),
                None => none_named(self.jobs@, name@),
            },
    {
        let mut i: usize = 0;
        while i < self.jobs.len()
            invariant
                i <= self.jobs.len(),
                forall|j: int| 0 <= j < i ==> (#[trigger] self.jobs@[j]).1.name@ != name@,
            decreases self.jobs.len() - i,
        {
            if str_eq(self.jobs[i].1.name.as_str(), name) {
                return Some(i);
            }
            i = i + 1;
        }
        None
    }

    /// Marks the first job of that name as running.
    pub fn mark_running(&mut self, name: &str)
        ensures
            final(self).runs() == old(self).runs(),
            final(self).job_list().len() == old(self).job_list().len(),
            forall|i: int| first_named(old(self).job_list(), name@, i) ==> {
                &&& final(self).job_list()[i].1.last_status == Some(JobStatus::Running)
                &&& final(self).job_list()[i].1.last_run == old(self).job_list()[i].1.last_run
                &&& final(self).job_list()[i].1.name == old(self).job_list()[i].1.name
                &&& final(self).job_list()[i].0 == old(self).job_list()[i].0
                &&& forall|j: int| 0 <= j < old(self).job_list().len() && j != i ==> #[trigger] final(self).job_list()[j] == old(self).job_list()[j]
            },
            none_named(old(self).job_list(), name@) ==> final(self).job_list() == old(self).job_list(),
    {
        match self.position(name) {
            Some(i) => {
                let (id, mut meta) = self.jobs.remove(i);
                meta.last_status = Some(JobStatus::Running);
                self.jobs.insert(i, (id, meta));
                proof {
                    let t = old(self).jobs@;
                    assert forall|k: int| first_named(t, name@, k) implies k == i by {
                        if k < i { assert(t[k].1.name@ != name@); } else if k > i { assert(t[i as int].1.name@ != name@); }
                    }
                }
            },
            None => {},
        }
    }

    /// Records how the first job of that name ended, at `now`.
    pub fn record_result_at(&mut self, name: &str, result: Result<(), String>, now: i64)
        ensures
            final(self).runs() == old(self).runs(),
            final(self).job_list().len() == old(self).job_list().len(),
            forall|i: int| first_named(old(self).job_list(), name@, i) ==> {
                &&& final(self).job_list()[i].1.last_run == Some(now)
                &&& final(self).job_list()[i].1.last_status == Some(match result {
                    Ok(()) => JobStatus::Success,
                    Err(m) => JobStatus::Failed(m),
                })
                &&& final(self).job_list()[i].1.name == old(self).job_list()[i].1.name
                &&& final(self).job_list()[i].0 == old(self).job_list()[i].0
                &&& forall|j: int| 0 <= j < old(self).job_list().len() && j != i ==> #[trigger] final(self).job_list()[j] == old(self).job_list()[j]
            },
            none_named(old(self).job_list(), name@) ==> final(self).job_list() == old(self).job_list(),
    {
        match self.position(name) {
            Some(i) => {
                let (id, mut meta) = self.jobs.remove(i);
                meta.last_run = Some(now);
                meta.last_status = Some(match result {
                    Ok(()) => JobStatus::Success,
                    Err(m) => JobStatus::Failed(m),
                });
                self.jobs.insert(i, (id, meta));
                proof {
                    let t = old(self).jobs@;
                    assert forall|k: int| first_named(t, name@, k) implies k == i by {
                        if k < i { assert(t[k].1.name@ != name@); } else if k > i { assert(t[i as int].1.name@ != name@); }
                    }
                }
            },
            None => {},
        }
    }

    /// The jobs as listed to users (no next run is computed).
    pub fn list_jobs(&self) -> (r: Vec<ScheduledJob>)
        ensures
            r@.len() == self.job_list().len(),
            forall|i: int| 0 <= i < r@.len() ==> {
                let m = self.job_list()[i].1;
                &&& (#[trigger] r@[i]).name == m.name
                &&& r@[i].cron == m.cron
                &&& r@[i].job_type == m.job_type
                &&& r@[i].enabled == m.enabled
                &&& r@[i].next_run is None
                &&& r@[i].last_run == m.last_run
                &&& r@[i].last_status == m.last_status
            },
    {
        let mut out: Vec<ScheduledJob> = Vec::new();
        let mut i: usize = 0;
        while i < self.jobs.len()
            invariant
                i <= self.jobs.len(),
                out@.len() == i,
                forall|k: int| 0 <= k < i ==> {
                    let m = self.jobs@[k].1;
                    &&& (#[trigger] out@[k]).name == m.name
                    &&& out@[k].cron == m.cron
                    &&& out@[k].job_type == m.job_type
                    &&& out@[k].enabled == m.enabled
                    &&& out@[k].next_run is None
                    &&& out@[k].last_run == m.last_run
                    &&& out@[k].last_status == m.last_status
                },
            decreases self.jobs.len() - i,
        {
            let m = &self.jobs[i].1;
            let status = match &m.last_status {
                Some(s) => Some(s.duplicate()),
                None => None,
            };
            out.push(ScheduledJob {
                name: m.name.clone(),
                cron: m.cron.clone(),
                job_type: m.job_type,
                enabled: m.enabled,
                next_run: None,
                last_run: m.last_run,
                last_status: status,
            });
            i = i + 1;
        }
        out
    }

    /// The number of jobs.
    pub fn job_count(&self) -> (r: usize)
        ensures
            r == self.job_list().len(),
    {
        self.jobs.len()
    }

    /// Whether the scheduler runs.
    pub fn is_running(&self) -> (r: bool)
        ensures
            r == self.runs(),
    {
        self.running
    }
}

/// When a cron expression next fires after the instant `after_ms` (milliseconds
/// since the epoch), as the `cron` crate computes it; `None` when the expression
/// does not parse or never fires again.
pub uninterp spec fn cron_next_after(expr: Seq<char>, after_ms: i64) -> Option<i64>;

/// Whether `ms` is an instant a schedule can be asked about: chrono can represent
/// it and the instant one second later, where the `cron` crate starts looking.
pub open spec fn schedulable(ms: int) -> bool {
    in_range(ms) && ms + 1000 <= MAX_MILLIS
}

/// `cron::Schedule::from_str(expr)`, then the first time of `Schedule::after` the
/// given instant, in milliseconds.
#[verifier::external_body]
fn cron_fire_after(expr: &str, after_ms: i64) -> (r: Option<i64>)
    requires
        schedulable(after_ms as int),
    ensures
        r == cron_next_after(expr@, after_ms),
{
    let after = chrono::DateTime::from_timestamp_millis(after_ms).unwrap();
    match <cron::Schedule as std::str::FromStr>::from_str(expr) {
        Ok(schedule) => match schedule.after(&after).next() {
            Some(t) => Some(t.timestamp_millis()),
            None => None,
        },
        Err(_) => None,
    }
}

/// When a cron expression next fires after `now`.
pub fn next_run_time_at(cron: &str, now: i64) -> (r: Option<i64>)
    requires
        schedulable(now as int),
    ensures
        r == cron_next_after(cron@, now),
{
    cron_fire_after(cron, now)
}

/// When a cron expression next fires after `now`; nothing when `now` is within a
/// second of the latest instant chrono can represent.
pub fn next_fire_at(cron: &str, now: i64) -> (r: Option<i64>)
    requires
        in_range(now as int),
    ensures
        if schedulable(now as int) { r == cron_next_after(cron@, now) } else { r is None },
{
    if now > MAX_MILLIS - 1000 {
        return None;
    }
    next_run_time_at(cron, now)
}

/// The jobs due at `now`: the positions, in order, whose next firing time is
/// known and not after `now`.
pub fn due_jobs(next: &Vec<Option<i64>>, now: i64) -> (r: Vec<usize>)
    ensures
        forall|k: int| 0 <= k < r@.len() ==> (#[trigger] r@[k]) < next@.len()
            && (next@[r@[k] as int] matches Some(t) && t <= now),
        forall|k1: int, k2: int| 0 <= k1 < k2 < r@.len() ==> #[trigger] r@[k1] < #[trigger] r@[k2],
        forall|i: int| #![trigger next@[i]] 0 <= i < next@.len() && (next@[i] matches Some(t) && t <= now)
            ==> exists|k: int| 0 <= k < r@.len() && #[trigger] r@[k] == i,
{
    let mut out: Vec<usize> = Vec::new();
    let mut i: usize = 0;
    while i < next.len()
        invariant
            i <= next@.len(),
            forall|k: int| 0 <= k < out@.len() ==> (#[trigger] out@[k]) < i
                && (next@[out@[k] as int] matches Some(t) && t <= now),
            forall|k1: int, k2: int| 0 <= k1 < k2 < out@.len() ==> #[trigger] out@[k1] < #[trigger] out@[k2],
            forall|j: int| #![trigger next@[j]] 0 <= j < i && (next@[j] matches Some(t) && t <= now)
                ==> exists|k: int| 0 <= k < out@.len() && #[trigger] out@[k] == j,
        decreases next.len() - i,
    {
        let due = match next[i] {
            Some(t) => t <= now,
            None => false,
        };
        if due {
            let ghost before = out@;
            out.push(i);
            proof {
                assert(out@[before.len() as int] == i);
                assert forall|j: int| #![trigger next@[j]] 0 <= j < i + 1 && (next@[j] matches Some(t) && t <= now)
                    implies exists|k: int| 0 <= k < out@.len() && #[trigger] out@[k] == j by {
                    if j < i {
                        let k = choose|k: int| 0 <= k < before.len() && #[trigger] before[k] == j;
                        assert(out@[k] == before[k]);
                    } else {
                        assert(out@[before.len() as int] == j);
                    }
                }
            }
        }
        i = i + 1;
    }
    out
}

/// When a job on `cron` next fires after `now`, as `next_fire_at` answers.
pub open spec fn fire_after(cron: Seq<char>, now: i64) -> Option<i64> {
    if schedulable(now as int) { cron_next_after(cron, now) } else { None }
}

/// Whether position `j` is among `due`.
pub open spec fn listed(due: Seq<usize>, j: int) -> bool {
    exists|m: int| 0 <= m < due.len() && due[m] == j
}

/// The first firing time of each planned job after `start`.
pub fn first_fire_times(plans: &Vec<JobPlan>, start: i64) -> (r: Vec<Option<i64>>)
    requires
        in_range(start as int),
    ensures
        r@.len() == plans@.len(),
        forall|j: int| 0 <= j < plans@.len() ==> #[trigger] r@[j] == fire_after(plans@[j].cron@, start),
{
    let mut out: Vec<Option<i64>> = Vec::new();
    let mut i: usize = 0;
    while i < plans.len()
        invariant
            i <= plans@.len(),
            in_range(start as int),
            out@.len() == i,
            forall|j: int| 0 <= j < i ==> #[trigger] out@[j] == fire_after(plans@[j].cron@, start),
        decreases plans.len() - i,
    {
        out.push(next_fire_at(plans[i].cron.as_str(), start));
        i = i + 1;
    }
    out
}

/// The jobs due at `now`, as `due_jobs` finds them; each of them gets its next
/// firing time after `now`, and the others keep theirs.
pub fn advance_due(plans: &Vec<JobPlan>, next: &mut Vec<Option<i64>>, now: i64) -> (r: Vec<usize>)
    requires
        old(next)@.len() == plans@.len(),
        in_range(now as int),
    ensures
        forall|k: int| 0 <= k < r@.len() ==> (#[trigger] r@[k]) < old(next)@.len()
            && (old(next)@[r@[k] as int] matches Some(t) && t <= now),
        forall|k1: int, k2: int| 0 <= k1 < k2 < r@.len() ==> #[trigger] r@[k1] < #[trigger] r@[k2],
        forall|i: int| #![trigger old(next)@[i]] 0 <= i < old(next)@.len() && (old(next)@[i] matches Some(t) && t <= now)
            ==> exists|k: int| 0 <= k < r@.len() && #[trigger] r@[k] == i,
        final(next)@.len() == old(next)@.len(),
        forall|j: int| 0 <= j < old(next)@.len() ==> #[trigger] final(next)@[j]
            == if listed(r@, j) { fire_after(plans@[j].cron@, now) } else { old(next)@[j] },
{
    let due = due_jobs(next, now);
    let ghost before = next@;
    let mut k: usize = 0;
    while k < due.len()
        invariant
            k <= due@.len(),
            in_range(now as int),
            next@.len() == before.len(),
            before.len() == plans@.len(),
            forall|m: int| 0 <= m < due@.len() ==> (#[trigger] due@[m]) < before.len(),
            forall|j: int| 0 <= j < before.len() ==> #[trigger] next@[j]
                == if (exists|m: int| 0 <= m < k && due@[m] == j) { fire_after(plans@[j].cron@, now) } else { before[j] },
        decreases due.len() - k,
    {
        let idx = due[k];
        let t = next_fire_at(plans[idx].cron.as_str(), now);
        let ghost mid = next@;
        next.set(idx, t);
        proof {
            assert forall|j: int| 0 <= j < before.len() implies #[trigger] next@[j]
                == if (exists|m: int| 0 <= m < k + 1 && due@[m] == j) { fire_after(plans@[j].cron@, now) } else { before[j] } by {
                if j == idx as int {
                    assert(due@[k as int] == j);
                } else {
                    assert(next@[j] == mid[j]);
                    if exists|m: int| 0 <= m < k + 1 && due@[m] == j {
                        let m = choose|m: int| 0 <= m < k + 1 && due@[m] == j;
                        assert(m < k);
                    }
                }
            }
        }
        k = k + 1;
    }
    due
}


/// When a cron expression next fires from the present on; nothing when the clock
/// reads within a second of the latest instant chrono can represent.
pub fn next_run_time(cron: &str) -> (r: Option<i64>)
    ensures
        exists|now: i64| in_range(now as int) && (if schedulable(now as int) {
            r == cron_next_after(cron@, now)
        } else {
            r is None
        }),
{
    let now = now_millis();
    if now > MAX_MILLIS - 1000 {
        return None;
    }
    next_run_time_at(cron, now)
}

} // verus!
