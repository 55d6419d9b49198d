//! Log line types shared by the on-screen log pane, the job manager's
//! per-job buffers and the streamed output of child processes.

use vstd::prelude::*;

use crate::clock::Stamp;

verus! {

/// Visual stream classification for a log line. Drives color and glyph.
#[derive(Debug, Clone, Copy, PartialEq, Eq, Structural)]
pub enum LogStream {
    /// App-emitted informational line.
    Info,
    /// Child process stdout.
    Out,
    /// Child process stderr.
    Stderr,
    /// Job finished successfully.
    Success,
    /// Job failed.
    Failure,
}

/// The glyph shown in front of a line of the given stream.
pub open spec fn stream_badge(s: LogStream) -> Seq<char> {
    match s {
        LogStream::Info => "·"@,
        LogStream::Out => "›"@,
        LogStream::Stderr => "!"@,
        LogStream::Success => "✓"@,
        LogStream::Failure => "✗"@,
    }
}

impl LogStream {
    pub fn badge(self) -> (b: &'static str)
        ensures
            b@ == stream_badge(self),
    {
        match self {
            LogStream::Info => "·",
            LogStream::Out => "›",
            LogStream::Stderr => "!",
            LogStream::Success => "✓",
            LogStream::Failure => "✗",
        }
    }
}

/// A single log line: timestamp (local wall-clock time) + stream + message.
#[derive(Debug)]
pub struct LogLine {
    pub timestamp: Stamp,
    pub stream: LogStream,
    pub message: String,
}

impl LogLine {
    /// An owned copy of this line.
    pub fn duplicate(&self) -> (r: LogLine)
        ensures
            r == *self,
    {
        LogLine {
            timestamp: self.timestamp,
            stream: self.stream,
            message: self.message.clone(),
        }
    }
}

} // verus!
