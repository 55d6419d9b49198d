use mtui::input::{map_key, InputAction, KeyCode, KeyEvent};

fn key(code: KeyCode, ctrl: bool) -> KeyEvent {
    KeyEvent { code, ctrl }
}

#[test]
fn q_quits() {
    assert_eq!(map_key(key(KeyCode::Char('q'), false)), InputAction::Quit);
}

#[test]
fn ctrl_c_quits() {
    assert_eq!(map_key(key(KeyCode::Char('c'), true)), InputAction::Quit);
}

#[test]
fn digits_jump() {
    assert_eq!(map_key(key(KeyCode::Char('1'), false)), InputAction::JumpTo(1));
    assert_eq!(map_key(key(KeyCode::Char('6'), false)), InputAction::JumpTo(6));
}

#[test]
fn tab_cycles() {
    assert_eq!(map_key(key(KeyCode::Tab, false)), InputAction::TabFocusNext);
    assert_eq!(map_key(key(KeyCode::BackTab, false)), InputAction::TabFocusPrev);
}

#[test]
fn unknown_keys_are_noop() {
    assert_eq!(map_key(key(KeyCode::F(1), false)), InputAction::Noop);
}

#[test]
fn browser_and_log_keys() {
    assert_eq!(map_key(key(KeyCode::Char('l'), true)), InputAction::ClearLog);
    assert_eq!(map_key(key(KeyCode::Char('x'), true)), InputAction::Noop);
    assert_eq!(map_key(key(KeyCode::Char('l'), false)), InputAction::OpenEntry);
    assert_eq!(map_key(key(KeyCode::Right, false)), InputAction::OpenEntry);
    assert_eq!(map_key(key(KeyCode::Left, false)), InputAction::GoUp);
    assert_eq!(map_key(key(KeyCode::Char(' '), false)), InputAction::ToggleCheck);
    assert_eq!(map_key(key(KeyCode::Char('/'), false)), InputAction::PathInput);
    assert_eq!(map_key(key(KeyCode::Char('~'), false)), InputAction::GoHome);
    assert_eq!(map_key(key(KeyCode::Char('r'), false)), InputAction::Refresh);
    assert_eq!(map_key(key(KeyCode::Char('7'), false)), InputAction::Char('7'));
    assert_eq!(map_key(key(KeyCode::Backspace, false)), InputAction::Backspace);
    assert_eq!(map_key(key(KeyCode::Down, false)), InputAction::SidebarDown);
    assert_eq!(map_key(key(KeyCode::Char('k'), false)), InputAction::SidebarUp);
    assert_eq!(map_key(key(KeyCode::Char('G'), false)), InputAction::SidebarBottom);
    assert_eq!(map_key(key(KeyCode::Enter, false)), InputAction::Enter);
    assert_eq!(map_key(key(KeyCode::Esc, false)), InputAction::Esc);
    assert_eq!(map_key(key(KeyCode::Other, false)), InputAction::Noop);
}
