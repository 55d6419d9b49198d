//! The text of a job's log file and where it is written
//! (`~/Library/Logs/mtui/<id>.log`). The application writes the file.

use vstd::prelude::*;

use crate::jobs::job::{status_label, status_word, Job};
use crate::log::{stream_badge, LogLine};
use crate::clock::{stamp_format, stamp_text};
use crate::text::{join_path, path_join, push_char};

verus! {

/// The decimal digit `d` (`0` to `9`) as a character.
pub open spec fn digit_char(d: nat) -> char {
    seq!['0', '1', '2', '3', '4', '5', '6', '7', '8', '9'][d as int]
}

/// `n` written in decimal, without leading zeros.
pub open spec fn decimal(n: nat) -> Seq<char>
    decreases n,
{
    if n < 10 {
        seq![digit_char(n)]
    } else {
        decimal(n / 10).push(digit_char(n % 10))
    }
}

/// `i` written in decimal, with a leading `-` when negative.
pub open spec fn signed_decimal(i: int) -> Seq<char> {
    if i < 0 {
        seq!['-'] + decimal((-i) as nat)
    } else {
        decimal(i as nat)
    }
}

fn digit(d: u64) -> (c: char)
    requires
        d < 10,
    ensures
        c == digit_char(d as nat),
{
    match d {
        0 => '0',
        1 => '1',
        2 => '2',
        3 => '3',
        4 => '4',
        5 => '5',
        6 => '6',
        7 => '7',
        8 => '8',
        _ => '9',
    }
}

/// `n` in decimal.
pub fn decimal_text(n: u64) -> (r: String)
    ensures
        r@ == decimal(n as nat),
    decreases n,
{
    if n < 10 {
        let mut s = String::new();
        push_char(&mut s, digit(n));
        s
    } else {
        let mut s = decimal_text(n / 10);
        push_char(&mut s, digit(n % 10));
        s
    }
}

/// `i` in decimal, with a leading `-` when negative.
pub fn signed_text(i: i32) -> (r: String)
    ensures
        r@ == signed_decimal(i as int),
{
    if i < 0 {
        let m: i64 = i as i64;
        let mut s = String::new();
        push_char(&mut s, '-');
        let digits = decimal_text((0 - m) as u64);
        s.append(digits.as_str());
        assert(s@ =~= seq!['-'] + decimal((-(i as int)) as nat));
        s
    } else {
        decimal_text(i as u64)
    }
}

/// The head of a job's log file: a line naming the job and its status,
/// and one with the exit code when there is one.
pub open spec fn log_file_header(id: u64, action_id: Seq<char>, status: crate::jobs::JobStatus, code: Option<i32>) -> Seq<char> {
    "# Job "@ + decimal(id as nat) + " ("@ + action_id + "): "@ + status_word(status) + "\n"@
        + match code {
        Some(c) => "# exit code: "@ + signed_decimal(c as int) + "\n"@,
        None => Seq::empty(),
    }
}

/// The time of a line in the log file: chrono's `%Y-%m-%d %H:%M:%S` text
/// of its stamp, or nothing for fields that make no date and time (the
/// clock gives none such).
pub open spec fn shown_stamp(s: crate::clock::Stamp) -> Seq<char> {
    match stamp_format(s) {
        Some(t) => t,
        None => Seq::empty(),
    }
}

/// One line of the log file: `[<time>] [<badge>] <message>`.
pub open spec fn log_file_line(line: LogLine) -> Seq<char> {
    "["@ + shown_stamp(line.timestamp) + "] ["@ + stream_badge(line.stream) + "] "@ + line.message@
        + "\n"@
}

/// The lines of the log file for `lines`.
pub open spec fn log_file_body(lines: Seq<LogLine>) -> Seq<char>
    decreases lines.len(),
{
    if lines.len() == 0 {
        Seq::empty()
    } else {
        log_file_body(lines.drop_last()) + log_file_line(lines.last())
    }
}

fn append_line(s: &mut String, line: &LogLine)
    ensures
        final(s)@ == old(s)@ + log_file_line(*line),
{
    let stamp = match stamp_text(&line.timestamp) {
        Some(t) => t,
        None => String::new(),
    };
    s.append("[");
    s.append(stamp.as_str());
    s.append("] [");
    s.append(line.stream.badge());
    s.append("] ");
    s.append(line.message.as_str());
    s.append("\n");
    assert(s@ =~= old(s)@ + log_file_line(*line));
}

impl Job {
    /// The text of the job's log file: the header, then each captured line
    /// as `[<time>] [<badge>] <message>`, times as `%Y-%m-%d %H:%M:%S`.
    pub fn log_file_text(&self) -> (r: String)
        ensures
            r@ == log_file_header(self.id, self.action_id@, self.status, self.exit_code)
                + log_file_body(self.log_buffer@),
    {
        let mut s = "# Job ".to_owned();
        let id = decimal_text(self.id);
        s.append(id.as_str());
        s.append(" (");
        s.append(self.action_id.as_str());
        s.append("): ");
        s.append(status_label(self.status));
        s.append("\n");
        match self.exit_code {
            Some(c) => {
                s.append("# exit code: ");
                let t = signed_text(c);
                s.append(t.as_str());
                s.append("\n");
            },
            None => {},
        }
        let ghost head = s@;
        proof {
            reveal_strlit("# Job ");
            reveal_strlit(" (");
            reveal_strlit("): ");
            reveal_strlit("\n");
            reveal_strlit("# exit code: ");
            assert(head =~= log_file_header(self.id, self.action_id@, self.status, self.exit_code));
        }
        let mut i: usize = 0;
        while i < self.log_buffer.len()
            invariant
                i <= self.log_buffer@.len(),
                s@ == head + log_file_body(self.log_buffer@.take(i as int)),
            decreases self.log_buffer.len() - i,
        {
            append_line(&mut s, &self.log_buffer[i]);
            proof {
                let t = self.log_buffer@.take(i + 1);
                assert(t.drop_last() =~= self.log_buffer@.take(i as int));
                assert(t.last() == self.log_buffer@[i as int]);
                assert(s@ =~= head + log_file_body(t));
            }
            i += 1;
        }
        assert(self.log_buffer@.take(i as int) =~= self.log_buffer@);
        s
    }
}

/// The name of a job's log file: `<id>.log`.
pub fn log_file_name(id: u64) -> (r: String)
    ensures
        r@ == decimal(id as nat) + ".log"@,
{
    let mut s = decimal_text(id);
    s.append(".log");
    s
}

/// The directory of the log files inside the home directory `home`:
/// `<home>/Library/Logs/mtui`.
pub fn log_dir_in(home: &str) -> (r: String)
    ensures
        r@ == path_join(path_join(path_join(home@, "Library"@), "Logs"@), "mtui"@),
{
    let a = join_path(home, "Library");
    let b = join_path(a.as_str(), "Logs");
    join_path(b.as_str(), "mtui")
}

} // verus!
