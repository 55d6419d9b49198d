use mtui::actions::ResolvedInputs;
use mtui::jobs::job::status_label;
use mtui::jobs::{ExitInfo, Job, JobError, JobManager, JobStatus, MAX_HISTORY};
use mtui::log::LogStream;
use mtui::process::line_event;

#[test]
fn job_round_trip() {
    let j = Job::new(1, "test", ResolvedInputs::default());
    assert_eq!(j.action_id, "test");
    assert_eq!(j.status, JobStatus::Running);
    assert!(j.finished_at.is_none());
}

#[test]
fn job_complete_records_status_and_code() {
    let mut j = Job::new(3, "install_pkgs", ResolvedInputs::default());
    j.complete(JobStatus::Failed, Some(2));
    assert_eq!(j.status, JobStatus::Failed);
    assert_eq!(j.exit_code, Some(2));
    assert!(j.finished_at.is_some());
    assert_eq!(j.id, 3);
}

#[test]
fn badges_and_labels() {
    assert_eq!(JobStatus::Running.badge(), "…");
    assert_eq!(JobStatus::Done.badge(), "✓");
    assert_eq!(JobStatus::Failed.badge(), "✗");
    assert_eq!(JobStatus::Cancelled.badge(), "↻");
    assert_eq!(status_label(JobStatus::Cancelled), "cancelled");
    assert_eq!(LogStream::Stderr.badge(), "!");
    assert_eq!(LogStream::Out.badge(), "›");
    assert_eq!(JobError::AlreadyRunning.message(), "a job is already running; cancel it first");
}

#[test]
fn only_one_job_at_a_time() {
    let mut m = JobManager::new();
    assert!(!m.is_running());
    assert_eq!(m.start("test", ResolvedInputs::default()), Ok(1));
    assert!(m.is_running());
    assert_eq!(m.start("test", ResolvedInputs::default()), Err(JobError::AlreadyRunning));
    assert_eq!(m.next_job_id, 2);
}

#[test]
fn take_new_logs_returns_lines_then_empty() {
    let mut m = JobManager::new();
    m.start("test", ResolvedInputs::default()).unwrap();
    m.ingest(vec![
        line_event(LogStream::Out, "line1\n"),
        line_event(LogStream::Out, "line2\r\n"),
        line_event(LogStream::Stderr, "line3"),
    ]);
    let lines = m.take_new_logs();
    let msgs: Vec<&str> = lines.iter().map(|l| l.message.as_str()).collect();
    assert_eq!(msgs, vec!["line1", "line2", "line3"]);
    assert_eq!(lines[2].stream, LogStream::Stderr);
    assert!(m.take_new_logs().is_empty(), "no new lines after a take");
    m.ingest(vec![line_event(LogStream::Out, "line4")]);
    let more = m.take_new_logs();
    assert_eq!(more.len(), 1);
    assert_eq!(more[0].message, "line4");
}

#[test]
fn no_logs_without_a_job() {
    let mut m = JobManager::new();
    m.ingest(vec![line_event(LogStream::Out, "dropped")]);
    assert!(m.take_new_logs().is_empty());
    assert_eq!(m.poll(Some(ExitInfo { success: true, code: Some(0) })), None);
}

#[test]
fn poll_finishes_into_history() {
    let mut m = JobManager::new();
    m.start("test", ResolvedInputs::default()).unwrap();
    m.ingest(vec![line_event(LogStream::Out, "hi")]);
    assert_eq!(m.poll(None), None);
    assert!(m.is_running());
    assert_eq!(m.poll(Some(ExitInfo { success: true, code: Some(0) })), Some(JobStatus::Done));
    assert!(!m.is_running());
    assert_eq!(m.history.len(), 1);
    assert_eq!(m.history[0].status, JobStatus::Done);
    assert_eq!(m.history[0].exit_code, Some(0));
    assert_eq!(m.history[0].log_buffer.len(), 1);

    m.start("other", ResolvedInputs::default()).unwrap();
    assert_eq!(m.poll(Some(ExitInfo { success: false, code: Some(42) })), Some(JobStatus::Failed));
    assert_eq!(m.history[0].action_id, "other");
    assert_eq!(m.history[0].exit_code, Some(42));
    assert_eq!(m.history[1].action_id, "test");
}

#[test]
fn cancel_running_job_records_cancelled() {
    let mut m = JobManager::new();
    m.start("test", ResolvedInputs::default()).unwrap();
    m.ingest(vec![line_event(LogStream::Out, "partial")]);
    m.cancel_current();
    assert!(!m.is_running());
    assert_eq!(m.history[0].log_buffer.len(), 1);
    assert_eq!(m.history[0].log_buffer[0].message, "partial");
    assert_eq!(m.history[0].status, JobStatus::Cancelled);
    assert_eq!(m.history[0].exit_code, None);
    // Idempotent.
    m.cancel_current();
    assert_eq!(m.history.len(), 1);
}

#[test]
fn history_is_capped_newest_first() {
    let mut m = JobManager::new();
    for _ in 0..(MAX_HISTORY + 5) {
        m.start("test", ResolvedInputs::default()).unwrap();
        m.poll(Some(ExitInfo { success: true, code: Some(0) }));
    }
    assert_eq!(m.history.len(), MAX_HISTORY);
    assert_eq!(m.history[0].id, (MAX_HISTORY + 5) as u64);
    assert_eq!(m.history[MAX_HISTORY - 1].id, 6);
}

#[test]
fn discarded_job_is_not_recorded() {
    let mut m = JobManager::new();
    m.start("test", ResolvedInputs::default()).unwrap();
    m.discard_current();
    assert!(!m.is_running());
    assert!(m.history.is_empty());
    assert_eq!(m.start("test", ResolvedInputs::default()), Ok(2));
}
