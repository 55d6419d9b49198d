use mtui::clock::Stamp;
use mtui::log::{LogLine, LogStream};
use mtui::process::{cancel_step, line_event, sudo_wrapped, CancelStep, CommandSpec, CANCEL_POLL_MS};
use mtui::sudo::{askpass_needs_write, askpass_path, data_dir_in};
use mtui::jobs::log_file::{decimal_text, log_dir_in, log_file_name, signed_text};
use mtui::jobs::{Job, JobStatus};
use mtui::actions::ResolvedInputs;
use mtui::text::{concat3, join_path, path_le_exec, strip_line_ending, text_eq, text_le_exec, trim};

#[test]
fn paths_join() {
    assert_eq!(join_path("/a/b", "c"), "/a/b/c");
    assert_eq!(join_path("/a/b/", "c"), "/a/b/c");
    assert_eq!(join_path("/a", "/abs"), "/abs");
}

#[test]
fn text_helpers() {
    assert_eq!(trim("  a b \t"), "a b");
    assert_eq!(strip_line_ending("x\r\n"), "x");
    assert_eq!(strip_line_ending("x\n"), "x");
    assert_eq!(strip_line_ending("x"), "x");
    assert!(text_eq("abc", "abc"));
    assert!(!text_eq("abc", "abd"));
    assert!(text_le_exec("abc", "abd"));
    assert!(text_le_exec("ab", "abc"));
    assert!(!text_le_exec("b", "abc"));
    // '/' ranks before every other character in path order.
    assert!(path_le_exec("/t/a/z", "/t/a-b"));
    assert_eq!(concat3("a", "b", "c"), "abc");
}

#[test]
fn sudo_wrapping_sets_askpass() {
    let spec = CommandSpec::new("bash").arg("/bin/x").env("K", "V").cwd("/w");
    let w = sudo_wrapped(&spec, "/data/mtui/askpass.sh");
    assert_eq!(w.program, "sudo");
    assert_eq!(w.args, vec!["-A".to_string(), "-E".to_string(), "bash".to_string(), "/bin/x".to_string()]);
    assert_eq!(
        w.env,
        vec![
            ("SUDO_ASKPASS".to_string(), "/data/mtui/askpass.sh".to_string()),
            ("K".to_string(), "V".to_string())
        ]
    );
    assert_eq!(w.cwd.as_deref(), Some("/w"));
}

#[test]
fn command_builders() {
    let c = CommandSpec::new("bash").args(vec!["-c".to_string(), "echo".to_string()]).path_arg("/p");
    assert_eq!(c.args, vec!["-c".to_string(), "echo".to_string(), "/p".to_string()]);
    assert_eq!(c.cwd, None);
    assert!(c.env.is_empty());
}

#[test]
fn line_events_strip_endings() {
    let e = line_event(LogStream::Stderr, "oops\r\n");
    assert_eq!(e.stream, LogStream::Stderr);
    assert_eq!(e.line, "oops");
}

#[test]
fn cancel_steps() {
    assert_eq!(CANCEL_POLL_MS, 100);
    assert_eq!(cancel_step(0, 3000, true), CancelStep::Done);
    assert_eq!(cancel_step(100, 3000, false), CancelStep::Wait);
    assert_eq!(cancel_step(3000, 3000, false), CancelStep::Kill);
}

#[test]
fn askpass_location_and_rewrite() {
    assert_eq!(data_dir_in("/home/u/.local/share"), "/home/u/.local/share/mtui");
    assert_eq!(askpass_path("/d/mtui"), "/d/mtui/askpass.sh");
    assert!(askpass_needs_write(None, "x"));
    assert!(askpass_needs_write(Some("old"), "new"));
    assert!(!askpass_needs_write(Some("same"), "same"));
}

#[test]
fn decimal_numbers() {
    assert_eq!(decimal_text(0), "0");
    assert_eq!(decimal_text(1234567890), "1234567890");
    assert_eq!(decimal_text(u64::MAX), "18446744073709551615");
    assert_eq!(signed_text(-42), "-42");
    assert_eq!(signed_text(i32::MIN), "-2147483648");
    assert_eq!(signed_text(7), "7");
}

#[test]
fn log_file_name_and_dir() {
    assert_eq!(log_file_name(17), "17.log");
    assert_eq!(log_dir_in("/Users/me"), "/Users/me/Library/Logs/mtui");
}

fn stamp(year: i32, month: u32, day: u32, hour: u32, minute: u32, second: u32, nanosecond: u32) -> Stamp {
    Stamp { year, month, day, hour, minute, second, nanosecond }
}

#[test]
fn log_file_text_lists_header_and_lines() {
    let mut j = Job::new(5, "test", ResolvedInputs::default());
    j.log_buffer.push(LogLine {
        timestamp: stamp(2026, 6, 15, 10, 11, 12, 0),
        stream: LogStream::Out,
        message: "hello".to_string(),
    });
    j.log_buffer.push(LogLine {
        timestamp: stamp(2026, 6, 15, 9, 5, 7, 0),
        stream: LogStream::Stderr,
        message: "oops".to_string(),
    });
    j.complete(JobStatus::Failed, Some(3));
    assert_eq!(
        j.log_file_text(),
        "# Job 5 (test): failed\n# exit code: 3\n[2026-06-15 10:11:12] [›] hello\n[2026-06-15 09:05:07] [!] oops\n"
    );
    let mut k = Job::new(6, "x", ResolvedInputs::default());
    k.complete(JobStatus::Done, None);
    assert_eq!(k.log_file_text(), "# Job 6 (x): done\n");
}

#[test]
fn log_file_stamps_as_chrono_writes_them() {
    let mut j = Job::new(7, "t", ResolvedInputs::default());
    for (ts, msg) in [
        (stamp(7, 3, 9, 0, 0, 0, 0), "early"),
        (stamp(2016, 12, 31, 23, 59, 59, 1_500_000_000), "leap"),
        (stamp(-44, 3, 15, 12, 0, 0, 0), "bce"),
        (stamp(12345, 1, 1, 0, 0, 0, 0), "far"),
        (stamp(2026, 13, 1, 0, 0, 0, 0), "no such month"),
    ] {
        j.log_buffer.push(LogLine { timestamp: ts, stream: LogStream::Info, message: msg.to_string() });
    }
    j.complete(JobStatus::Done, None);
    assert_eq!(
        j.log_file_text(),
        "# Job 7 (t): done\n\
         [0007-03-09 00:00:00] [·] early\n\
         [2016-12-31 23:59:60] [·] leap\n\
         [-0044-03-15 12:00:00] [·] bce\n\
         [+12345-01-01 00:00:00] [·] far\n\
         [] [·] no such month\n"
    );
}
