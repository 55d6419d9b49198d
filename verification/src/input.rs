//! Key event → semantic input action mapping.
//!
//! Keeping this in one place means the keybinding table maps directly to
//! a `match` arm here, and UI code never branches on raw key codes. The
//! application turns the terminal's key events into [`KeyEvent`]s.

use vstd::prelude::*;

verus! {

/// Semantic input actions. UI code branches on these, never on raw key codes.
#[derive(Debug, Clone, Copy, PartialEq, Eq, Structural)]
pub enum InputAction {
    /// Quit the application.
    Quit,
    /// Toggle the help overlay.
    Help,
    /// Cycle focus forward (sidebar → main → log → sidebar).
    TabFocusNext,
    /// Cycle focus backward.
    TabFocusPrev,
    /// Move the selection down by one.
    SidebarDown,
    /// Move the selection up by one.
    SidebarUp,
    /// Jump the selection to the first item.
    SidebarTop,
    /// Jump the selection to the last item.
    SidebarBottom,
    /// Jump directly to action N (1-indexed).
    JumpTo(usize),
    /// Confirm / run the focused action.
    Enter,
    /// Close a modal, or cancel a running job.
    Esc,
    /// Clear the log pane.
    ClearLog,
    /// Yank the visible log to the system clipboard.
    YankLog,
    /// Open the browser entry under the cursor (cd into a directory).
    OpenEntry,
    /// Go up one directory in the browser.
    GoUp,
    /// Toggle the check mark on the file under the cursor.
    ToggleCheck,
    /// Focus the browser's path field.
    PathInput,
    /// Jump the browser to `$HOME`.
    GoHome,
    /// Re-read the browser's directory.
    Refresh,
    /// Delete the last character of the path field.
    Backspace,
    /// A character without a binding (typed into the path field).
    Char(char),
    /// Unhandled key — explicitly a no-op.
    Noop,
}

/// The key of a key event, as far as the bindings distinguish keys.
#[derive(Debug, Clone, Copy, PartialEq, Eq, Structural)]
pub enum KeyCode {
    Char(char),
    Up,
    Down,
    Left,
    Right,
    Tab,
    BackTab,
    Enter,
    Esc,
    Backspace,
    /// A function key, `F(n)`.
    F(u8),
    /// Any other key.
    Other,
}

/// A key press: the key, and whether Control was held.
#[derive(Debug, Clone, Copy, PartialEq, Eq, Structural)]
pub struct KeyEvent {
    pub code: KeyCode,
    pub ctrl: bool,
}

/// The action bound to a key event.
pub open spec fn key_action(e: KeyEvent) -> InputAction {
    if e.ctrl {
        match e.code {
            KeyCode::Char('c') => InputAction::Quit,
            KeyCode::Char('l') => InputAction::ClearLog,
            _ => InputAction::Noop,
        }
    } else {
        match e.code {
            KeyCode::Char('q') => InputAction::Quit,
            KeyCode::Char('?') => InputAction::Help,
            KeyCode::Char('j') | KeyCode::Down => InputAction::SidebarDown,
            KeyCode::Char('k') | KeyCode::Up => InputAction::SidebarUp,
            KeyCode::Char('g') => InputAction::SidebarTop,
            KeyCode::Char('G') => InputAction::SidebarBottom,
            KeyCode::Char('1') => InputAction::JumpTo(1),
            KeyCode::Char('2') => InputAction::JumpTo(2),
            KeyCode::Char('3') => InputAction::JumpTo(3),
            KeyCode::Char('4') => InputAction::JumpTo(4),
            KeyCode::Char('5') => InputAction::JumpTo(5),
            KeyCode::Char('6') => InputAction::JumpTo(6),
            KeyCode::Char('y') => InputAction::YankLog,
            KeyCode::Char('l') | KeyCode::Right => InputAction::OpenEntry,
            KeyCode::Char('h') | KeyCode::Left => InputAction::GoUp,
            KeyCode::Char(' ') => InputAction::ToggleCheck,
            KeyCode::Char('/') => InputAction::PathInput,
            KeyCode::Char('~') => InputAction::GoHome,
            KeyCode::Char('r') => InputAction::Refresh,
            KeyCode::Char(c) => InputAction::Char(c),
            KeyCode::Backspace => InputAction::Backspace,
            KeyCode::Tab => InputAction::TabFocusNext,
            KeyCode::BackTab => InputAction::TabFocusPrev,
            KeyCode::Enter => InputAction::Enter,
            KeyCode::Esc => InputAction::Esc,
            _ => InputAction::Noop,
        }
    }
}

pub fn map_key(event: KeyEvent) -> (a: InputAction)
    ensures
        a == key_action(event),
{
    // Ctrl combos first, then plain keys.
    if event.ctrl {
        return match event.code {
            KeyCode::Char('c') => InputAction::Quit,
            KeyCode::Char('l') => InputAction::ClearLog,
            _ => InputAction::Noop,
        };
    }
    match event.code {
        KeyCode::Char('q') => InputAction::Quit,
        KeyCode::Char('?') => InputAction::Help,
        KeyCode::Char('j') | KeyCode::Down => InputAction::SidebarDown,
        KeyCode::Char('k') | KeyCode::Up => InputAction::SidebarUp,
        KeyCode::Char('g') => InputAction::SidebarTop,
        KeyCode::Char('G') => InputAction::SidebarBottom,
        KeyCode::Char('1') => InputAction::JumpTo(1),
        KeyCode::Char('2') => InputAction::JumpTo(2),
        KeyCode::Char('3') => InputAction::JumpTo(3),
        KeyCode::Char('4') => InputAction::JumpTo(4),
        KeyCode::Char('5') => InputAction::JumpTo(5),
        KeyCode::Char('6') => InputAction::JumpTo(6),
        KeyCode::Char('y') => InputAction::YankLog,
        KeyCode::Char('l') | KeyCode::Right => InputAction::OpenEntry,
        KeyCode::Char('h') | KeyCode::Left => InputAction::GoUp,
        KeyCode::Char(' ') => InputAction::ToggleCheck,
        KeyCode::Char('/') => InputAction::PathInput,
        KeyCode::Char('~') => InputAction::GoHome,
        KeyCode::Char('r') => InputAction::Refresh,
        KeyCode::Char(c) => InputAction::Char(c),
        KeyCode::Backspace => InputAction::Backspace,
        KeyCode::Tab => InputAction::TabFocusNext,
        KeyCode::BackTab => InputAction::TabFocusPrev,
        KeyCode::Enter => InputAction::Enter,
        KeyCode::Esc => InputAction::Esc,
        _ => InputAction::Noop,
    }
}

/// The arrow keys do what the letters beside them on the home row do:
/// ↑ as `k` (up), ↓ as `j` (down) and ← as `h` (go up a directory), with
/// or without Ctrl, and → as `l` (open) without Ctrl (Ctrl-L clears the
/// log). Without Ctrl, ↑ and `k` move up and ↓ and `j` move down.
pub proof fn lemma_arrows_as_letters(ctrl: bool)
    ensures
        key_action(KeyEvent { code: KeyCode::Up, ctrl }) == key_action(KeyEvent { code: KeyCode::Char('k'), ctrl }),
        key_action(KeyEvent { code: KeyCode::Down, ctrl }) == key_action(KeyEvent { code: KeyCode::Char('j'), ctrl }),
        key_action(KeyEvent { code: KeyCode::Left, ctrl }) == key_action(KeyEvent { code: KeyCode::Char('h'), ctrl }),
        !ctrl ==> key_action(KeyEvent { code: KeyCode::Right, ctrl }) == key_action(KeyEvent { code: KeyCode::Char('l'), ctrl }),
        !ctrl ==> key_action(KeyEvent { code: KeyCode::Up, ctrl }) == InputAction::SidebarUp,
        !ctrl ==> key_action(KeyEvent { code: KeyCode::Down, ctrl }) == InputAction::SidebarDown,
        !ctrl ==> key_action(KeyEvent { code: KeyCode::Left, ctrl }) == InputAction::GoUp,
        !ctrl ==> key_action(KeyEvent { code: KeyCode::Right, ctrl }) == InputAction::OpenEntry,
{
}

} // verus!
