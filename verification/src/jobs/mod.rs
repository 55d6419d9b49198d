//! Job lifecycle: start, capture output, finish, cancel, history.
//!
//! The application owns the child process and its output channel; it
//! reports what it observes (output lines, the exit) to the
//! [`JobManager`], which keeps the books: the one running job, its log
//! buffer, what the on-screen log pane has already shown, and the history
//! of finished jobs, newest first.

pub mod job;
pub mod log_file;

use std::collections::VecDeque;

use vstd::prelude::*;

use crate::actions::ResolvedInputs;
use crate::log::LogLine;
use crate::process::LogEvent;

pub use job::{Job, JobStatus};

verus! {

/// The number of finished jobs kept in the history.
pub const MAX_HISTORY: usize = 50;

/// Why a job could not be started.
#[derive(Debug, Clone, Copy, PartialEq, Eq, Structural)]
pub enum JobError {
    /// Only one job runs at a time.
    AlreadyRunning,
}

impl JobError {
    pub fn message(self) -> (m: &'static str)
        ensures
            m@ == "a job is already running; cancel it first"@,
    {
        "a job is already running; cancel it first"
    }
}

/// How a child process ended, as observed by the application.
#[derive(Debug, Clone, Copy, PartialEq, Eq, Structural)]
pub struct ExitInfo {
    /// Whether it exited with status 0.
    pub success: bool,
    /// Its exit code, if it exited normally.
    pub code: Option<i32>,
}

/// The job that is running, with the lines captured so far.
#[derive(Debug)]
pub struct RunningJob {
    pub job: Job,
    /// All log lines captured so far. On completion the buffer moves to
    /// [`Job::log_buffer`] for history.
    pub log_buffer: Vec<LogLine>,
    /// Index of the next line in `log_buffer` that the App hasn't seen.
    pub drained_to: usize,
}

/// Owns the lifecycle of all jobs: a single running job at a time and a
/// history ring of finished ones.
#[derive(Debug)]
pub struct JobManager {
    pub current: Option<RunningJob>,
    pub history: VecDeque<Job>,
    /// The id that the next job gets.
    pub next_job_id: u64,
}

/// The older jobs that stay in the history when one more is added.
pub open spec fn kept_history(h: Seq<Job>) -> Seq<Job> {
    if h.len() > MAX_HISTORY - 1 {
        h.take(MAX_HISTORY - 1)
    } else {
        h
    }
}

/// `lines` extends `old` by one line per event, with the event's stream
/// and text.
pub open spec fn appended_events(old: Seq<LogLine>, lines: Seq<LogLine>, events: Seq<LogEvent>) -> bool {
    &&& lines.len() == old.len() + events.len()
    &&& lines.take(old.len() as int) == old
    &&& forall|k: int|
        0 <= k < events.len() ==> (#[trigger] lines[old.len() + k]).stream == events[k].stream
            && lines[old.len() + k].message == events[k].line
}

/// `j` is `before` completed with `status` and `code`, with `buffer` as
/// its log.
pub open spec fn finished_as(j: Job, before: Job, status: JobStatus, code: Option<i32>, buffer: Seq<LogLine>) -> bool {
    &&& j.id == before.id
    &&& j.action_id == before.action_id
    &&& j.inputs == before.inputs
    &&& j.started_at == before.started_at
    &&& j.status == status
    &&& j.exit_code == code
    &&& j.finished_at is Some
    &&& j.log_buffer@ == buffer
}

/// The lines of the running job that the App has not taken yet.
pub open spec fn undrained_lines(m: JobManager) -> Seq<LogLine> {
    match m.current {
        None => Seq::empty(),
        Some(run) => if run.drained_to < run.log_buffer@.len() {
            run.log_buffer@.subrange(run.drained_to as int, run.log_buffer@.len() as int)
        } else {
            Seq::empty()
        },
    }
}

/// `m` once the App has taken the running job's new lines.
pub open spec fn drained(m: JobManager) -> JobManager {
    match m.current {
        None => m,
        Some(run) => if run.drained_to < run.log_buffer@.len() {
            JobManager {
                current: Some(RunningJob { drained_to: run.log_buffer@.len() as usize, ..run }),
                ..m
            }
        } else {
            m
        },
    }
}

/// `after` is `before` with the lines of `events` appended to the running
/// job's buffer (nothing changes without a running job).
pub open spec fn ingested(before: JobManager, after: JobManager, events: Seq<LogEvent>) -> bool {
    &&& after.history == before.history
    &&& after.next_job_id == before.next_job_id
    &&& before.current is None ==> after.current is None
    &&& before.current matches Some(b) ==> after.current matches Some(a) && a.job == b.job
        && a.drained_to == b.drained_to && appended_events(b.log_buffer@, a.log_buffer@, events)
}

/// The status of a job whose child ended as `exit` describes.
pub open spec fn exit_status(exit: ExitInfo) -> JobStatus {
    if exit.success {
        JobStatus::Done
    } else {
        JobStatus::Failed
    }
}

impl JobManager {
    pub fn new() -> (m: Self)
        ensures
            m.current is None,
            m.history@.len() == 0,
            m.next_job_id == 1,
    {
        JobManager { current: None, history: VecDeque::new(), next_job_id: 1 }
    }

    pub fn is_running(&self) -> (r: bool)
        ensures
            r == self.current is Some,
    {
        self.current.is_some()
    }

    /// Records the start of a job for `action_id` (its process has been
    /// spawned). Errors, changing nothing, if one is already running.
    /// Returns the new job's id.
    pub fn start(&mut self, action_id: &str, inputs: ResolvedInputs) -> (r: Result<u64, JobError>)
        ensures
            old(self).current is Some ==> r == Err::<u64, JobError>(JobError::AlreadyRunning)
                && *final(self) == *old(self),
            old(self).current is None ==> {
                &&& r == Ok::<u64, JobError>(old(self).next_job_id)
                &&& final(self).current matches Some(run) && run.job.id == old(self).next_job_id
                    && run.job.action_id@ == action_id@ && run.job.inputs == inputs
                    && run.job.status == JobStatus::Running && run.job.log_buffer@.len() == 0
                    && run.log_buffer@.len() == 0 && run.drained_to == 0
                &&& final(self).history == old(self).history
                &&& final(self).next_job_id == old(self).next_job_id.wrapping_add(1)
            },
    {
        if self.is_running() {
            return Err(JobError::AlreadyRunning);
        }
        let id = self.next_job_id;
        let job = Job::new(id, action_id, inputs);
        self.current = Some(RunningJob { job, log_buffer: Vec::new(), drained_to: 0 });
        self.next_job_id = self.next_job_id.wrapping_add(1);
        Ok(id)
    }

    /// Appends the lines of `events` (stamped now) to the running job's
    /// buffer. Without a running job the events are dropped.
    pub fn ingest(&mut self, events: Vec<LogEvent>)
        ensures
            ingested(*old(self), *final(self), events@),
            final(self).history == old(self).history,
            final(self).next_job_id == old(self).next_job_id,
            old(self).current is None ==> final(self).current is None,
            old(self).current matches Some(before) ==> final(self).current matches Some(after)
                && after.job == before.job && after.drained_to == before.drained_to
                && appended_events(before.log_buffer@, after.log_buffer@, events@),
    {
        match self.current.take() {
            None => {},
            Some(mut running) => {
                let ghost before = running.log_buffer@;
                let ghost job0 = running.job;
                let ghost d0 = running.drained_to;
                let ghost evs = events@;
                let mut rest = events;
                let mut i: usize = 0;
                let n = rest.len();
                while rest.len() > 0
                    invariant
                        running.job == job0,
                        running.drained_to == d0,
                        n == evs.len(),
                        i + rest@.len() == n,
                        rest@ == evs.skip(i as int),
                        running.log_buffer@.len() == before.len() + i,
                        running.log_buffer@.take(before.len() as int) == before,
                        forall|k: int|
                            0 <= k < i ==> (#[trigger] running.log_buffer@[before.len() + k]).stream
                                == evs[k].stream && running.log_buffer@[before.len() + k].message
                                == evs[k].line,
                    decreases rest.len(),
                {
                    let ev = rest.remove(0);
                    assert(ev == evs[i as int]);
                    assert(rest@ =~= evs.skip(i + 1));
                    let ghost prev = running.log_buffer@;
                    running.log_buffer.push(LogLine::from_event(ev));
                    assert(running.log_buffer@.take(before.len() as int) =~= prev.take(
                        before.len() as int,
                    ));
                    i += 1;
                }
                assert(evs.skip(n as int) =~= Seq::<LogEvent>::empty());
                assert(running.log_buffer@.take(before.len() as int) == before);
                self.current = Some(running);
            },
        }
    }

    /// Takes the log lines the App hasn't seen yet: the running job's
    /// lines from `drained_to` on, after which all of them count as seen.
    /// Without a running job, nothing.
    pub fn take_new_logs(&mut self) -> (r: Vec<LogLine>)
        ensures
            r@ == undrained_lines(*old(self)),
            *final(self) == drained(*old(self)),
            final(self).history == old(self).history,
            final(self).next_job_id == old(self).next_job_id,
            old(self).current is None ==> final(self).current is None && r@.len() == 0,
            old(self).current matches Some(before) ==> final(self).current matches Some(after)
                && after.job == before.job && after.log_buffer == before.log_buffer && (if before.drained_to
                < before.log_buffer@.len() {
                r@ == before.log_buffer@.subrange(
                    before.drained_to as int,
                    before.log_buffer@.len() as int,
                ) && after.drained_to == before.log_buffer@.len()
            } else {
                r@.len() == 0 && after.drained_to == before.drained_to
            }),
    {
        let mut out: Vec<LogLine> = Vec::new();
        match self.current.take() {
            None => {},
            Some(mut running) => {
                let len = running.log_buffer.len();
                if running.drained_to < len {
                    let start = running.drained_to;
                    let mut i: usize = start;
                    while i < len
                        invariant
                            start <= i <= len,
                            len == running.log_buffer@.len(),
                            out@ =~= running.log_buffer@.subrange(start as int, i as int),
                        decreases len - i,
                    {
                        out.push(running.log_buffer[i].duplicate());
                        i += 1;
                    }
                    running.drained_to = len;
                }
                self.current = Some(running);
            },
        }
        out
    }

    /// Drops the oldest finished jobs beyond [`MAX_HISTORY`].
    fn trim_history(&mut self)
        ensures
            final(self).current == old(self).current,
            final(self).next_job_id == old(self).next_job_id,
            final(self).history@ == (if old(self).history@.len() > MAX_HISTORY {
                old(self).history@.take(MAX_HISTORY as int)
            } else {
                old(self).history@
            }),
    {
        let ghost full = self.history@;
        if self.history.len() > MAX_HISTORY {
            while self.history.len() > MAX_HISTORY
                invariant
                    self.current == old(self).current,
                    self.next_job_id == old(self).next_job_id,
                    full == old(self).history@,
                    MAX_HISTORY <= self.history@.len() <= full.len(),
                    self.history@ == full.take(self.history@.len() as int),
                decreases self.history@.len(),
            {
                let ghost prev = self.history@;
                let _ = self.history.pop_back();
                assert(self.history@ =~= full.take(self.history@.len() as int));
            }
        } else {
            assert(self.history@ =~= full);
        }
    }

    /// Puts a finished job at the front of the history.
    fn record(&mut self, job: Job)
        ensures
            final(self).current == old(self).current,
            final(self).next_job_id == old(self).next_job_id,
            final(self).history@.len() == 1 + kept_history(old(self).history@).len(),
            final(self).history@[0] == job,
            final(self).history@.skip(1) == kept_history(old(self).history@),
    {
        let ghost before = self.history@;
        self.history.push_front(job);
        assert(self.history@ =~= seq![job] + before);
        self.trim_history();
        assert(self.history@.skip(1) =~= kept_history(before));
    }

    /// Non-blocking poll: given how the current job's process ended (or
    /// `None` while it is still running), finish the job. A finished job
    /// moves, with its whole log buffer, to the front of the history.
    /// Returns the job's new status if it just finished, else `None`.
    pub fn poll(&mut self, exit: Option<ExitInfo>) -> (r: Option<JobStatus>)
        ensures
            final(self).next_job_id == old(self).next_job_id,
            (old(self).current is None || exit is None) ==> r is None && *final(self) == *old(self),
            old(self).current matches Some(before) ==> (exit matches Some(e) ==> {
                &&& r == Some(exit_status(e))
                &&& final(self).current is None
                &&& finished_as(
                    final(self).history@[0],
                    before.job,
                    exit_status(e),
                    e.code,
                    before.log_buffer@,
                )
                &&& final(self).history@.len() == 1 + kept_history(old(self).history@).len()
                &&& final(self).history@.skip(1) == kept_history(old(self).history@)
            }),
    {
        if self.current.is_none() {
            return None;
        }
        match exit {
            None => None,
            Some(e) => {
                let running = self.current.take().unwrap();
                let status = if e.success {
                    JobStatus::Done
                } else {
                    JobStatus::Failed
                };
                let mut job = running.job;
                job.complete(status, e.code);
                job.log_buffer = running.log_buffer;
                self.record(job);
                Some(status)
            },
        }
    }

    /// Forgets the current job (if any) without recording it in the
    /// history: what becomes of a job whose process could not be stopped.
    pub fn discard_current(&mut self)
        ensures
            final(self).current is None,
            final(self).history == old(self).history,
            final(self).next_job_id == old(self).next_job_id,
    {
        self.current = None;
    }

    /// Records the cancellation of the current job (if any) after its
    /// process was stopped: the job moves, with its whole log buffer, to
    /// the front of the history as cancelled, without an exit code.
    /// Idempotent.
    pub fn cancel_current(&mut self)
        ensures
            final(self).next_job_id == old(self).next_job_id,
            final(self).current is None,
            old(self).current is None ==> *final(self) == *old(self),
            old(self).current matches Some(before) ==> {
                &&& finished_as(
                    final(self).history@[0],
                    before.job,
                    JobStatus::Cancelled,
                    None,
                    before.log_buffer@,
                )
                &&& final(self).history@.len() == 1 + kept_history(old(self).history@).len()
                &&& final(self).history@.skip(1) == kept_history(old(self).history@)
            },
    {
        match self.current.take() {
            None => {},
            Some(running) => {
                let mut job = running.job;
                job.complete(JobStatus::Cancelled, None);
                job.log_buffer = running.log_buffer;
                self.record(job);
            },
        }
    }
}

/// Taking the new lines twice in a row gives nothing the second time,
/// and changes nothing more.
pub proof fn lemma_take_new_logs_twice(m: JobManager)
    requires
        m.current matches Some(run) ==> run.log_buffer@.len() <= usize::MAX,
    ensures
        undrained_lines(drained(m)).len() == 0,
        drained(drained(m)) == drained(m),
{
}

/// After lines are ingested, the next take gives the lines that were not
/// taken before, followed by the ingested ones, in order.
pub proof fn lemma_take_after_ingest(m: JobManager, m1: JobManager, events: Seq<LogEvent>)
    requires
        m.current matches Some(run) && run.drained_to <= run.log_buffer@.len(),
        ingested(m, m1, events),
    ensures
        undrained_lines(m1).len() == undrained_lines(m).len() + events.len(),
        undrained_lines(m1).take(undrained_lines(m).len() as int) == undrained_lines(m),
        forall|k: int|
            0 <= k < events.len() ==> (#[trigger] undrained_lines(m1)[undrained_lines(m).len() + k]).stream
                == events[k].stream && undrained_lines(m1)[undrained_lines(m).len() + k].message
                == events[k].line,
{
    let run = m.current->0;
    let run1 = m1.current->0;
    let old_len = run.log_buffer@.len();
    let d = run.drained_to as int;
    assert(run1.drained_to == run.drained_to);
    let u = undrained_lines(m);
    let u1 = undrained_lines(m1);
    if events.len() == 0 {
        assert(run1.log_buffer@ =~= run.log_buffer@.take(old_len as int));
        assert(u1 =~= u);
    } else {
        assert(u1 =~= run1.log_buffer@.subrange(d, run1.log_buffer@.len() as int));
        assert(u =~= run.log_buffer@.subrange(d, old_len as int));
        assert forall|i: int| 0 <= i < u.len() implies u1[i] == u[i] by {
            assert(run1.log_buffer@.take(old_len as int)[d + i] == run.log_buffer@[d + i]);
        }
        assert(u1.take(u.len() as int) =~= u);
        assert forall|k: int| 0 <= k < events.len() implies (#[trigger] u1[u.len() + k]).stream
            == events[k].stream && u1[u.len() + k].message == events[k].line by {
            assert(u1[u.len() + k] == run1.log_buffer@[old_len + k]);
        }
    }
}

impl Default for JobManager {
    fn default() -> (m: Self)
        ensures
            m.current is None,
            m.history@.len() == 0,
            m.next_job_id == 1,
    {
        Self::new()
    }
}

} // verus!
