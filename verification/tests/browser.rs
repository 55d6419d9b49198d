use mtui::actions::InputKind;
use mtui::input::InputAction;
use mtui::ui::browser::{sort_entries, Browser, Entry, SortBy};

fn file(name: &str, size: u64, modified: i128) -> Entry {
    Entry { name: name.to_string(), path: format!("/t/{name}"), is_dir: false, size, modified }
}

fn dir(name: &str) -> Entry {
    Entry { name: name.to_string(), path: format!("/t/{name}"), is_dir: true, size: 4096, modified: 0 }
}

fn listed(kind: InputKind, entries: Vec<Entry>) -> Browser {
    let mut b = Browser::new("/t", kind);
    assert!(b.needs_refresh);
    b.apply_listing(Ok(entries));
    b
}

#[test]
fn lists_entries_sorted_by_name() {
    let b = listed(InputKind::Dir, vec![file("a.txt", 5, 0), dir("sub")]);
    assert!(b.error.is_none());
    assert!(!b.needs_refresh);
    assert!(b.entries.iter().any(|e| e.name == "a.txt" && !e.is_dir));
    assert!(b.entries.iter().any(|e| e.name == "sub" && e.is_dir && e.size == 0));
    let names: Vec<&str> = b.entries.iter().map(|e| e.name.as_str()).collect();
    assert_eq!(names, vec!["a.txt", "sub"]);
}

#[test]
fn hidden_entries_dropped_unless_shown() {
    let raw = || vec![file(".hidden", 0, 0), file("visible.txt", 0, 0)];
    let b = listed(InputKind::Dir, raw());
    assert!(b.entries.iter().any(|e| e.name == "visible.txt"));
    assert!(!b.entries.iter().any(|e| e.name == ".hidden"));
    let mut b2 = b;
    b2.show_hidden = true;
    b2.apply_listing(Ok(raw()));
    assert!(b2.entries.iter().any(|e| e.name == ".hidden"));
}

#[test]
fn read_errors_are_reported() {
    let mut b = Browser::new("/nope", InputKind::Dir);
    b.apply_listing(Err("No such file or directory".to_string()));
    assert_eq!(b.error.as_deref(), Some("cannot read /nope: No such file or directory"));
    assert!(b.entries.is_empty());
}

#[test]
fn cursor_stays_on_the_listing() {
    let mut b = listed(InputKind::Dir, vec![file("a", 0, 0), file("b", 0, 0), file("c", 0, 0)]);
    assert_eq!(b.cursor, 0);
    b.cursor_down();
    assert_eq!(b.cursor, 1);
    b.cursor_down();
    b.cursor_down();
    assert_eq!(b.cursor, 2);
    b.cursor_up();
    assert_eq!(b.cursor, 1);
    b.cursor_top();
    assert_eq!(b.cursor, 0);
    b.cursor_bottom();
    assert_eq!(b.cursor, 2);
    b.cursor_top();
    b.cursor_up();
    assert_eq!(b.cursor, 0);
}

#[test]
fn toggle_checked_only_for_files() {
    let mut b = listed(InputKind::File, vec![file("a.txt", 0, 0), dir("sub")]);
    let a_pos = b.entries.iter().position(|e| e.name == "a.txt").unwrap();
    b.cursor = a_pos;
    b.toggle_checked();
    assert_eq!(b.checked.len(), 1);
    assert!(b.is_checked("/t/a.txt"));
    b.toggle_checked();
    assert!(b.checked.is_empty());
    let sub_pos = b.entries.iter().position(|e| e.name == "sub").unwrap();
    b.cursor = sub_pos;
    b.toggle_checked();
    assert!(b.checked.is_empty(), "directories shouldn't be checkable");
}

#[test]
fn resolved_file_prefers_first_checked_in_path_order() {
    let mut b = listed(InputKind::File, vec![file("b", 0, 0), file("a", 0, 0), file("c", 0, 0)]);
    // Entries are a, b, c; check c then b.
    b.cursor = 2;
    b.toggle_checked();
    b.cursor = 1;
    b.toggle_checked();
    assert_eq!(b.checked_files(), vec!["/t/b".to_string(), "/t/c".to_string()]);
    assert_eq!(b.resolved_file(), Some("/t/b".to_string()));
    b.clear_checked();
    b.cursor = 0;
    assert_eq!(b.resolved_file(), Some("/t/a".to_string()));
}

#[test]
fn selected_dir_only_for_directories() {
    let mut b = listed(InputKind::Dir, vec![file("a", 0, 0), dir("sub")]);
    assert_eq!(b.selected_dir(), None);
    b.cursor = 1;
    assert_eq!(b.selected_dir(), Some("/t/sub".to_string()));
    let f = listed(InputKind::File, vec![dir("sub")]);
    assert_eq!(f.selected_dir(), None);
}

#[test]
fn open_and_go_up_navigate() {
    let mut b = listed(InputKind::Dir, vec![dir("sub")]);
    b.open_selected();
    assert_eq!(b.path, "/t/sub");
    assert!(b.needs_refresh);
    b.go_up();
    assert_eq!(b.path, "/t");
    let mut root = Browser::new("/", InputKind::Dir);
    root.go_up();
    assert_eq!(root.path, "/");
}

#[test]
fn path_field_keys() {
    let mut b = listed(InputKind::Dir, vec![file("a", 0, 0)]);
    assert_eq!(b.path_line(), "  /t");
    assert!(b.handle_key_with_home(InputAction::PathInput, None));
    assert!(b.path_input_active);
    assert_eq!(b.path_input, "/t");
    assert_eq!(b.path_line(), "> /t_");
    // Every key is taken while the field is open.
    assert!(b.handle_key_with_home(InputAction::TabFocusNext, None));
    b.handle_key_with_home(InputAction::Backspace, None);
    b.handle_key_with_home(InputAction::Char('u'), None);
    b.handle_key_with_home(InputAction::Char('s'), None);
    assert_eq!(b.path_input, "/us");
    b.handle_key_with_home(InputAction::Enter, Some("/home/me".to_string()));
    assert!(!b.path_input_active);
    assert_eq!(b.path, "/us");
    assert_eq!(b.cursor, 0);
    assert!(b.checked.is_empty());
}

#[test]
fn path_field_expands_tilde_and_rejects_relative() {
    let mut b = Browser::new("/t", InputKind::Dir);
    b.handle_key_with_home(InputAction::PathInput, None);
    b.path_input = "  ~/Music ".to_string();
    b.handle_key_with_home(InputAction::Enter, Some("/home/me".to_string()));
    assert_eq!(b.path, "/home/me/Music");
    b.handle_key_with_home(InputAction::PathInput, None);
    b.path_input = "relative/dir".to_string();
    b.handle_key_with_home(InputAction::Enter, Some("/home/me".to_string()));
    assert_eq!(b.path, "/home/me/Music");
    assert_eq!(b.error.as_deref(), Some("not an absolute path: relative/dir"));
    b.handle_key_with_home(InputAction::PathInput, None);
    b.handle_key_with_home(InputAction::Esc, None);
    assert!(!b.path_input_active);
    assert!(b.path_input.is_empty());
}

#[test]
fn home_and_refresh_keys() {
    let mut b = listed(InputKind::Dir, vec![file("a", 0, 0)]);
    assert!(b.handle_key_with_home(InputAction::GoHome, Some("/home/me".to_string())));
    assert_eq!(b.path, "/home/me");
    b.apply_listing(Ok(vec![]));
    assert!(b.handle_key_with_home(InputAction::Refresh, None));
    assert!(b.needs_refresh);
    assert!(!b.handle_key_with_home(InputAction::Enter, None));
    assert!(!b.handle_key_with_home(InputAction::Quit, None));
}

#[test]
fn sort_modes() {
    let v = vec![file("b", 1, 30), file("a", 3, 10), file("c", 2, 20)];
    let names = |v: &Vec<Entry>| v.iter().map(|e| e.name.clone()).collect::<Vec<_>>();
    let by_name = sort_entries(v, SortBy::Name);
    assert_eq!(names(&by_name), vec!["a", "b", "c"]);
    let by_size = sort_entries(by_name, SortBy::Size);
    assert_eq!(names(&by_size), vec!["a", "c", "b"]);
    let by_time = sort_entries(by_size, SortBy::Mtime);
    assert_eq!(names(&by_time), vec!["b", "c", "a"]);
}

#[test]
fn hints_and_markers() {
    let mut b = listed(InputKind::File, vec![file("a", 0, 0), dir("d")]);
    assert_eq!(b.hint(), "  [j/k] move  [Space] check  [Esc] up  [/] path  [r] refresh");
    b.toggle_checked();
    assert_eq!(b.row_markers(0), ("▶", "[x] ", " "));
    assert_eq!(b.row_markers(1), (" ", "    ", "/"));
    b.path_input_active = true;
    assert_eq!(b.hint(), "  [Esc] cancel  [Enter] open");
    let d = Browser::new("/", InputKind::Dir);
    assert_eq!(d.hint(), "  [j/k] move  [Enter] open  [Esc] up  [/] path  [~] home  [r] refresh");
}
