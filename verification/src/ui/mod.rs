//! The state behind the terminal UI's widgets, and the small decisions of
//! the renderers (which hint to show, how tall the log pane is). The
//! application draws the widgets.

pub mod browser;
pub mod sidebar;

use vstd::prelude::*;

use crate::actions::InputKind;
use crate::app::Focus;

verus! {

/// The keybinding hint of the footer, for the focused pane.
pub open spec fn footer_hint_spec(focus: Focus) -> Seq<char> {
    match focus {
        Focus::Sidebar => "[j/k] move  [1-6] jump  [Enter] select  [?] help"@,
        Focus::Main => "[Tab] cycle focus  [Enter] run  [?] help"@,
        Focus::Log => "[Tab] cycle focus  [Ctrl-L] clear  [?] help"@,
    }
}

pub fn footer_hint(focus: Focus) -> (h: &'static str)
    ensures
        h@ == footer_hint_spec(focus),
{
    match focus {
        Focus::Sidebar => "[j/k] move  [1-6] jump  [Enter] select  [?] help",
        Focus::Main => "[Tab] cycle focus  [Enter] run  [?] help",
        Focus::Log => "[Tab] cycle focus  [Ctrl-L] clear  [?] help",
    }
}

/// Rows of the log pane for a terminal `height` rows high: 30% of the
/// height, at least 3.
pub open spec fn log_pane_rows_spec(height: u16) -> int {
    let pct = height * 30 / 100;
    if pct < 3 {
        3
    } else {
        pct
    }
}

pub fn log_pane_rows(height: u16) -> (r: u16)
    ensures
        r == log_pane_rows_spec(height),
{
    let pct = (height as u32 * 30) / 100;
    if pct < 3 {
        3
    } else {
        pct as u16
    }
}

/// The hint at the bottom of an action's main pane before its browser
/// exists, for the action's input kind.
pub open spec fn main_pane_hint_spec(kind: InputKind) -> Seq<char> {
    match kind {
        InputKind::Dir | InputKind::File => "  Press Tab to focus this pane, then '/' to type a path."@,
        InputKind::Choice => "  Version picker lands in M4. Stay tuned."@,
        InputKind::NoInput => "  Press Enter to run. Press Esc to cancel a running job."@,
    }
}

pub fn main_pane_hint(kind: InputKind) -> (h: &'static str)
    ensures
        h@ == main_pane_hint_spec(kind),
{
    match kind {
        InputKind::Dir | InputKind::File => "  Press Tab to focus this pane, then '/' to type a path.",
        InputKind::Choice => "  Version picker lands in M4. Stay tuned.",
        InputKind::NoInput => "  Press Enter to run. Press Esc to cancel a running job.",
    }
}

} // verus!
