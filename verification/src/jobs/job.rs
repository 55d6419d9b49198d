//! Job value type. A `Job` represents a single execution of an action,
//! from start to finish.

use vstd::prelude::*;

use crate::actions::ResolvedInputs;
use crate::clock::{local_now, Stamp};
use crate::log::LogLine;
use crate::process::LogEvent;

verus! {

/// Lifecycle status of a job.
#[derive(Debug, Clone, Copy, PartialEq, Eq, Structural)]
pub enum JobStatus {
    /// Spawned but not yet observed to finish.
    Running,
    /// Exited 0.
    Done,
    /// Exited non-zero.
    Failed,
    /// Cancelled by the user (SIGTERM/SIGKILL).
    Cancelled,
}

/// The glyph shown for a job status.
pub open spec fn status_badge(s: JobStatus) -> Seq<char> {
    match s {
        JobStatus::Running => "…"@,
        JobStatus::Done => "✓"@,
        JobStatus::Failed => "✗"@,
        JobStatus::Cancelled => "↻"@,
    }
}

/// The word used for a job status in log files.
pub open spec fn status_word(s: JobStatus) -> Seq<char> {
    match s {
        JobStatus::Running => "running"@,
        JobStatus::Done => "done"@,
        JobStatus::Failed => "failed"@,
        JobStatus::Cancelled => "cancelled"@,
    }
}

impl JobStatus {
    pub fn badge(self) -> (b: &'static str)
        ensures
            b@ == status_badge(self),
    {
        match self {
            JobStatus::Running => "…",
            JobStatus::Done => "✓",
            JobStatus::Failed => "✗",
            JobStatus::Cancelled => "↻",
        }
    }
}

pub fn status_label(s: JobStatus) -> (l: &'static str)
    ensures
        l@ == status_word(s),
{
    match s {
        JobStatus::Running => "running",
        JobStatus::Done => "done",
        JobStatus::Failed => "failed",
        JobStatus::Cancelled => "cancelled",
    }
}

/// A finished or running job.
#[derive(Debug)]
pub struct Job {
    pub id: u64,
    pub action_id: String,
    /// The inputs the user resolved when starting this job, kept so that
    /// a job can be re-run with the exact same inputs.
    pub inputs: ResolvedInputs,
    pub status: JobStatus,
    pub started_at: Stamp,
    pub finished_at: Option<Stamp>,
    pub exit_code: Option<i32>,
    /// Captured log lines, in arrival order.
    pub log_buffer: Vec<LogLine>,
}

impl Job {
    /// A new running job with the given id, started now.
    pub fn new(id: u64, action_id: &str, inputs: ResolvedInputs) -> (j: Self)
        ensures
            j.id == id,
            j.action_id@ == action_id@,
            j.inputs == inputs,
            j.status == JobStatus::Running,
            j.finished_at is None,
            j.exit_code is None,
            j.log_buffer@.len() == 0,
    {
        Job {
            id,
            action_id: action_id.to_owned(),
            inputs,
            status: JobStatus::Running,
            started_at: local_now(),
            finished_at: None,
            exit_code: None,
            log_buffer: Vec::new(),
        }
    }

    /// Marks the job finished now, with the given status and exit code.
    pub fn complete(&mut self, status: JobStatus, exit_code: Option<i32>)
        ensures
            final(self).status == status,
            final(self).exit_code == exit_code,
            final(self).finished_at is Some,
            final(self).id == old(self).id,
            final(self).action_id == old(self).action_id,
            final(self).inputs == old(self).inputs,
            final(self).started_at == old(self).started_at,
            final(self).log_buffer == old(self).log_buffer,
    {
        self.status = status;
        self.finished_at = Some(local_now());
        self.exit_code = exit_code;
    }
}

impl LogLine {
    /// The log line for an event from a child process, stamped now.
    pub fn from_event(ev: LogEvent) -> (l: Self)
        ensures
            l.stream == ev.stream,
            l.message == ev.line,
    {
        LogLine { timestamp: local_now(), stream: ev.stream, message: ev.line }
    }
}

} // verus!
