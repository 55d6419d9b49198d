//! Command-line options. The application parses them from the command
//! line into this value.

use vstd::prelude::*;

verus! {

#[derive(Debug)]
pub struct Cli {
    /// Reset persisted state on startup.
    pub reset_state: bool,
    /// Print what actions would do without executing them.
    pub dry_run: bool,
    /// Log level (trace, debug, info, warn, error).
    pub log_level: String,
}

} // verus!
