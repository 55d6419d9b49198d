use mtui::actions::ResolvedInputs;
use mtui::app::{App, AppEffect, Focus, MAX_LOG_LINES};
use mtui::config::Cli;
use mtui::input::InputAction;
use mtui::jobs::{ExitInfo, JobStatus};
use mtui::log::LogStream;
use mtui::process::line_event;
use mtui::ui::{footer_hint, log_pane_rows, main_pane_hint};
use mtui::actions::InputKind;
use mtui::ui::browser::Entry;

fn app() -> App {
    App::new(Cli { reset_state: false, dry_run: false, log_level: "info".to_string() })
}

fn key(a: &mut App, k: InputAction) -> AppEffect {
    a.handle_key_with_home(k, Some("/home/me".to_string()))
}

fn last_line(a: &App) -> (LogStream, String) {
    let l = a.log_lines.last().unwrap();
    (l.stream, l.message.clone())
}

#[test]
fn new_app_starts_on_the_sidebar() {
    let a = app();
    assert_eq!(a.focus, Focus::Sidebar);
    assert_eq!(a.sidebar_index, 0);
    assert_eq!(a.action_metas.len(), 7);
    assert_eq!(a.last_status.len(), 7);
    assert_eq!(a.log_lines.len(), 2);
    assert_eq!(a.log_lines[0].message, "mtui ready. Press ? for help, Tab to cycle focus, q to quit.");
}

#[test]
fn sidebar_navigation() {
    let mut a = app();
    key(&mut a, InputAction::SidebarDown);
    key(&mut a, InputAction::SidebarDown);
    assert_eq!(a.sidebar_index, 2);
    key(&mut a, InputAction::SidebarUp);
    assert_eq!(a.sidebar_index, 1);
    key(&mut a, InputAction::SidebarBottom);
    assert_eq!(a.sidebar_index, 6);
    key(&mut a, InputAction::SidebarDown);
    assert_eq!(a.sidebar_index, 6);
    key(&mut a, InputAction::SidebarTop);
    assert_eq!(a.sidebar_index, 0);
    key(&mut a, InputAction::SidebarUp);
    assert_eq!(a.sidebar_index, 0);
    key(&mut a, InputAction::JumpTo(3));
    assert_eq!(a.sidebar_index, 2);
    assert_eq!(a.focus, Focus::Main);
    key(&mut a, InputAction::JumpTo(9));
    assert_eq!(a.sidebar_index, 2);
}

#[test]
fn tab_cycles_focus_and_back() {
    let mut a = app();
    key(&mut a, InputAction::TabFocusNext);
    assert_eq!(a.focus, Focus::Main);
    key(&mut a, InputAction::TabFocusNext);
    assert_eq!(a.focus, Focus::Log);
    key(&mut a, InputAction::TabFocusNext);
    assert_eq!(a.focus, Focus::Sidebar);
    key(&mut a, InputAction::TabFocusPrev);
    assert_eq!(a.focus, Focus::Log);
    key(&mut a, InputAction::TabFocusNext);
    assert_eq!(a.focus, Focus::Sidebar);
}

#[test]
fn help_overlay_is_modal() {
    let mut a = app();
    key(&mut a, InputAction::Help);
    assert!(a.show_help);
    assert!(matches!(key(&mut a, InputAction::Enter), AppEffect::Nothing));
    key(&mut a, InputAction::SidebarDown);
    assert_eq!(a.sidebar_index, 0);
    assert!(a.show_help);
    key(&mut a, InputAction::Esc);
    assert!(!a.show_help);
    key(&mut a, InputAction::Quit);
    assert!(a.should_quit);
}

#[test]
fn enter_on_test_action_starts_it() {
    let mut a = app();
    match key(&mut a, InputAction::Enter) {
        AppEffect::Start { action, inputs } => {
            assert_eq!(action, 0);
            assert!(inputs.dir.is_none() && inputs.file.is_none() && inputs.choice.is_none());
        },
        other => panic!("expected a start, got {other:?}"),
    }
}

#[test]
fn enter_on_registered_no_input_action_starts_it() {
    let mut a = app();
    key(&mut a, InputAction::SidebarBottom);
    match key(&mut a, InputAction::Enter) {
        AppEffect::Start { action, .. } => assert_eq!(action, 6),
        other => panic!("expected a start, got {other:?}"),
    }
}

#[test]
fn dir_action_needs_a_selected_directory() {
    let mut a = app();
    key(&mut a, InputAction::SidebarDown);
    assert!(matches!(key(&mut a, InputAction::Enter), AppEffect::Nothing));
    assert_eq!(
        last_line(&a),
        (LogStream::Failure, "Select a directory for \"Install .pkg files\" first.".to_string())
    );
    // A browser was opened at the home directory, to be read.
    let b = a.browsers[1].as_ref().unwrap();
    assert_eq!(b.path, "/home/me");
    assert!(b.needs_refresh);
    assert_eq!(b.input_kind, InputKind::Dir);
}

#[test]
fn one_job_at_a_time_and_esc_cancels() {
    let mut a = app();
    a.on_job_started(0, ResolvedInputs::default());
    assert_eq!(last_line(&a), (LogStream::Info, "Started \"Test action\".".to_string()));
    assert!(matches!(key(&mut a, InputAction::Enter), AppEffect::Nothing));
    assert_eq!(
        last_line(&a),
        (LogStream::Failure, "A job is already running. Press Esc to cancel.".to_string())
    );
    a.on_job_started(0, ResolvedInputs::default());
    assert_eq!(
        last_line(&a),
        (
            LogStream::Failure,
            "Failed to start \"Test action\": a job is already running; cancel it first".to_string()
        )
    );
    assert!(matches!(key(&mut a, InputAction::Esc), AppEffect::Cancel));
    assert_eq!(last_line(&a), (LogStream::Info, "Cancelling…".to_string()));
}

#[test]
fn job_output_and_finish_reach_the_log_and_sidebar() {
    let mut a = app();
    a.on_job_started(0, ResolvedInputs::default());
    a.job_manager.ingest(vec![line_event(LogStream::Out, "hello\n")]);
    a.pump_job_logs();
    assert_eq!(last_line(&a), (LogStream::Out, "hello".to_string()));
    let n = a.log_lines.len();
    a.pump_job_logs();
    assert_eq!(a.log_lines.len(), n);
    assert_eq!(a.poll_job(None), None);
    assert_eq!(a.poll_job(Some(ExitInfo { success: true, code: Some(0) })), Some(JobStatus::Done));
    assert_eq!(last_line(&a), (LogStream::Success, "✓ Done: test".to_string()));
    assert_eq!(a.last_status[0], Some(JobStatus::Done));

    a.on_job_started(0, ResolvedInputs::default());
    assert_eq!(a.poll_job(Some(ExitInfo { success: false, code: Some(1) })), Some(JobStatus::Failed));
    assert_eq!(
        last_line(&a),
        (LogStream::Failure, "✗ Failed: test (see log pane for details)".to_string())
    );
    assert_eq!(a.last_status[0], Some(JobStatus::Failed));
}

#[test]
fn start_and_cancel_failures_are_logged() {
    let mut a = app();
    a.on_job_start_failed(1, "spawn failed");
    assert_eq!(
        last_line(&a),
        (LogStream::Failure, "Failed to start \"Install .pkg files\": spawn failed".to_string())
    );
    a.on_cancel_failed("no such process");
    assert_eq!(last_line(&a), (LogStream::Failure, "Cancel failed: no such process".to_string()));
}

#[test]
fn clear_and_trim_log() {
    let mut a = app();
    key(&mut a, InputAction::ClearLog);
    assert_eq!(a.log_lines.len(), 1);
    assert_eq!(a.log_lines[0].message, "Log cleared.");
    for i in 0..(MAX_LOG_LINES + 10) {
        a.push_log(LogStream::Info, format!("line {i}"));
    }
    a.trim_log();
    assert_eq!(a.log_lines.len(), MAX_LOG_LINES);
    assert_eq!(a.log_lines.last().unwrap().message, format!("line {}", MAX_LOG_LINES + 9));
}

#[test]
fn browser_takes_navigation_keys_in_main_pane() {
    let mut a = app();
    key(&mut a, InputAction::JumpTo(2));
    assert_eq!(a.focus, Focus::Main);
    key(&mut a, InputAction::SidebarDown);
    // The sidebar selection stays; the browser took the key.
    assert_eq!(a.sidebar_index, 1);
    assert!(a.browsers[1].is_some());
}

#[test]
fn ui_hints() {
    assert_eq!(footer_hint(Focus::Log), "[Tab] cycle focus  [Ctrl-L] clear  [?] help");
    assert_eq!(log_pane_rows(40), 12);
    assert_eq!(log_pane_rows(5), 3);
    assert_eq!(main_pane_hint(InputKind::NoInput), "  Press Enter to run. Press Esc to cancel a running job.");
}

#[test]
fn first_keys_act_on_the_read_listing() {
    let listing = || {
        vec![
            Entry { name: "a".to_string(), path: "/home/me/a".to_string(), is_dir: true, size: 0, modified: 0 },
            Entry { name: "b".to_string(), path: "/home/me/b".to_string(), is_dir: true, size: 0, modified: 0 },
        ]
    };
    // Enter from the sidebar on a directory action: the browser is made
    // and read before the key, so the directory under the cursor is used.
    let mut a = app();
    key(&mut a, InputAction::SidebarDown);
    a.prepare_key_with_home(InputAction::Enter, Some("/home/me".to_string()));
    a.browsers[1].as_mut().unwrap().apply_listing(Ok(listing()));
    match key(&mut a, InputAction::Enter) {
        AppEffect::Start { action, inputs } => {
            assert_eq!(action, 1);
            assert_eq!(inputs.dir.as_deref(), Some("/home/me/a"));
        },
        other => panic!("expected a start, got {other:?}"),
    }
    // The first j in the main pane moves the cursor of the read listing.
    let mut b = app();
    key(&mut b, InputAction::JumpTo(2));
    b.prepare_key_with_home(InputAction::SidebarDown, Some("/home/me".to_string()));
    b.browsers[1].as_mut().unwrap().apply_listing(Ok(listing()));
    key(&mut b, InputAction::SidebarDown);
    assert_eq!(b.browsers[1].as_ref().unwrap().cursor, 1);
    // Keys that do not act on a browser create none.
    let mut c = app();
    c.prepare_key_with_home(InputAction::SidebarDown, Some("/home/me".to_string()));
    assert!(c.browsers.iter().all(|x| x.is_none()));
}
