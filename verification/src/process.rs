//! Commands for child processes: what to run, with which arguments,
//! environment and working directory; the `sudo -A -E` wrapping; the
//! classification of output lines; and the steps of a cancellation.
//!
//! Spawning, streaming and signalling are done by the application around
//! this library; the decisions they follow are made here.

use vstd::prelude::*;

use crate::log::LogStream;
use crate::text::{strip_line_ending, trim_line_end};

verus! {

/// A spec for a child process: program, args, env, cwd.
#[derive(Debug)]
pub struct CommandSpec {
    pub program: String,
    pub args: Vec<String>,
    pub env: Vec<(String, String)>,
    pub cwd: Option<String>,
}

/// The contents of a [`CommandSpec`], as text.
pub struct CommandView {
    pub program: Seq<char>,
    pub args: Seq<Seq<char>>,
    pub env: Seq<(Seq<char>, Seq<char>)>,
    pub cwd: Option<Seq<char>>,
}

impl View for CommandSpec {
    type V = CommandView;

    open spec fn view(&self) -> CommandView {
        CommandView {
            program: self.program@,
            args: self.args.deep_view(),
            env: self.env.deep_view(),
            cwd: self.cwd.deep_view(),
        }
    }
}

/// A command for `program` with nothing else set.
pub open spec fn bare_command(program: Seq<char>) -> CommandView {
    CommandView { program, args: seq![], env: seq![], cwd: None }
}

impl CommandSpec {
    pub fn new(program: &str) -> (r: Self)
        ensures
            r@ == bare_command(program@),
    {
        let r = CommandSpec { program: program.to_owned(), args: Vec::new(), env: Vec::new(), cwd: None };
        assert(r.args.deep_view() =~= seq![]);
        assert(r.env.deep_view() =~= seq![]);
        r
    }

    /// Appends one argument.
    pub fn arg(self, a: &str) -> (r: Self)
        ensures
            r@ == (CommandView { args: self@.args.push(a@), ..self@ }),
    {
        let mut s = self;
        let ghost before = s.args.deep_view();
        s.args.push(a.to_owned());
        assert(s.args.deep_view() =~= before.push(a@));
        s
    }

    /// Appends a path as one argument, in its text form.
    pub fn path_arg(self, p: &str) -> (r: Self)
        ensures
            r@ == (CommandView { args: self@.args.push(p@), ..self@ }),
    {
        self.arg(p)
    }

    /// Appends several arguments, in order.
    pub fn args(self, items: Vec<String>) -> (r: Self)
        ensures
            r@ == (CommandView { args: self@.args + items.deep_view(), ..self@ }),
    {
        let mut s = self;
        let ghost before = s.args.deep_view();
        let ghost all_items = items.deep_view();
        let mut i: usize = 0;
        assert(before + all_items.take(0) =~= before);
        while i < items.len()
            invariant
                i <= items.len(),
                all_items == items.deep_view(),
                s.program == self.program,
                s.env == self.env,
                s.cwd == self.cwd,
                s.args.deep_view() =~= before + all_items.take(i as int),
            decreases items.len() - i,
        {
            let ghost prev = s.args.deep_view();
            let item = items[i].clone();
            s.args.push(item);
            assert(s.args.deep_view() =~= prev.push(all_items[i as int]));
            assert(all_items.take(i + 1) =~= all_items.take(i as int).push(all_items[i as int]));
            i += 1;
        }
        assert(all_items.take(items.len() as int) =~= all_items);
        s
    }

    /// Adds one environment variable.
    pub fn env(self, key: &str, val: &str) -> (r: Self)
        ensures
            r@ == (CommandView { env: self@.env.push((key@, val@)), ..self@ }),
    {
        let mut s = self;
        let ghost before = s.env.deep_view();
        s.env.push((key.to_owned(), val.to_owned()));
        assert(s.env.deep_view() =~= before.push((key@, val@)));
        s
    }

    /// Sets the working directory.
    pub fn cwd(self, path: &str) -> (r: Self)
        ensures
            r@ == (CommandView { cwd: Some(path@), ..self@ }),
    {
        let mut s = self;
        s.cwd = Some(path.to_owned());
        s
    }
}

/// The command that runs `c` through `sudo -A -E`, with `SUDO_ASKPASS`
/// pointing at the askpass helper (set before the command's own
/// variables, which therefore win).
pub open spec fn sudo_view(c: CommandView, askpass: Seq<char>) -> CommandView {
    CommandView {
        program: "sudo"@,
        args: seq!["-A"@, "-E"@, c.program] + c.args,
        env: seq![("SUDO_ASKPASS"@, askpass)] + c.env,
        cwd: c.cwd,
    }
}

fn copy_texts(v: &Vec<String>) -> (r: Vec<String>)
    ensures
        r.deep_view() == v.deep_view(),
{
    let mut out: Vec<String> = Vec::new();
    let mut i: usize = 0;
    while i < v.len()
        invariant
            i <= v.len(),
            out.deep_view() =~= v.deep_view().take(i as int),
        decreases v.len() - i,
    {
        out.push(v[i].clone());
        assert(v.deep_view().take(i + 1) =~= v.deep_view().take(i as int).push(v[i as int]@));
        i += 1;
    }
    assert(v.deep_view().take(v.len() as int) =~= v.deep_view());
    out
}

fn copy_pairs(v: &Vec<(String, String)>) -> (r: Vec<(String, String)>)
    ensures
        r.deep_view() == v.deep_view(),
{
    let mut out: Vec<(String, String)> = Vec::new();
    let mut i: usize = 0;
    while i < v.len()
        invariant
            i <= v.len(),
            out.deep_view() =~= v.deep_view().take(i as int),
        decreases v.len() - i,
    {
        let k = v[i].0.clone();
        let x = v[i].1.clone();
        out.push((k, x));
        assert(v.deep_view().take(i + 1) =~= v.deep_view().take(i as int).push(
            (v[i as int].0@, v[i as int].1@),
        ));
        i += 1;
    }
    assert(v.deep_view().take(v.len() as int) =~= v.deep_view());
    out
}

/// `spec` wrapped in `sudo -A -E`, as it is spawned for actions that need
/// elevated rights.
pub fn sudo_wrapped(spec: &CommandSpec, askpass: &str) -> (r: CommandSpec)
    ensures
        r@ == sudo_view(spec@, askpass@),
{
    let a = "-A";
    let e = "-E";
    let sudo = "sudo";
    let key = "SUDO_ASKPASS";
    let mut args: Vec<String> = Vec::new();
    args.push(a.to_owned());
    args.push(e.to_owned());
    args.push(spec.program.clone());
    let mut tail = copy_texts(&spec.args);
    args.append(&mut tail);
    let mut env: Vec<(String, String)> = Vec::new();
    env.push((key.to_owned(), askpass.to_owned()));
    let mut env_tail = copy_pairs(&spec.env);
    env.append(&mut env_tail);
    let cwd = crate::text::copy_opt_text(&spec.cwd);
    let r = CommandSpec { program: sudo.to_owned(), args, env, cwd };
    assert(r.args.deep_view() =~= seq![a@, e@, spec.program@] + spec.args.deep_view());
    assert(r.env.deep_view() =~= seq![(key@, askpass@)] + spec.env.deep_view());
    r
}

/// A line of output from a child process, classified by stream.
#[derive(Debug)]
pub struct LogEvent {
    pub stream: LogStream,
    pub line: String,
}

/// The event for one line read from a child's stream, with the line
/// ending removed.
pub fn line_event(stream: LogStream, raw: &str) -> (ev: LogEvent)
    ensures
        ev.stream == stream,
        ev.line@ == trim_line_end(raw@),
{
    LogEvent { stream, line: strip_line_ending(raw) }
}

/// Milliseconds between two checks for exit while a cancelled child is
/// given time to stop.
pub const CANCEL_POLL_MS: u64 = 100;

/// What to do next while cancelling a child that was sent `SIGTERM`.
#[derive(Debug, Clone, Copy, PartialEq, Eq, Structural)]
pub enum CancelStep {
    /// The child has exited; cancellation is complete.
    Done,
    /// Wait [`CANCEL_POLL_MS`] and check again.
    Wait,
    /// The grace period is over: kill the child and reap it.
    Kill,
}

/// The next cancellation step after `waited_ms` of the `grace_ms` grace
/// period have passed; `exited` tells whether the child has exited.
pub open spec fn cancel_step_spec(waited_ms: u64, grace_ms: u64, exited: bool) -> CancelStep {
    if waited_ms < grace_ms {
        if exited {
            CancelStep::Done
        } else {
            CancelStep::Wait
        }
    } else {
        CancelStep::Kill
    }
}

pub fn cancel_step(waited_ms: u64, grace_ms: u64, exited: bool) -> (s: CancelStep)
    ensures
        s == cancel_step_spec(waited_ms, grace_ms, exited),
{
    if waited_ms < grace_ms {
        if exited {
            CancelStep::Done
        } else {
            CancelStep::Wait
        }
    } else {
        CancelStep::Kill
    }
}

} // verus!
