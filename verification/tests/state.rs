use std::time::{Duration, SystemTime};

use mtui::state::{default_log_pane_pct, default_window, PersistedState, WindowState, MAX_RECENTS};

#[test]
fn push_recent_is_mru_and_capped() {
    let mut s = PersistedState::default();
    for i in 0..20 {
        s.push_recent(&format!("/tmp/path-{i}"));
    }
    assert_eq!(s.recent_paths.len(), MAX_RECENTS);
    assert_eq!(s.recent_paths[0].path, "/tmp/path-19");
    s.push_recent("/tmp/path-5");
    assert_eq!(s.recent_paths[0].path, "/tmp/path-5");
    assert_eq!(
        s.recent_paths.iter().filter(|r| r.path == "/tmp/path-5").count(),
        1,
        "duplicates are removed"
    );
}

#[test]
fn push_recent_at_stamps_and_keeps_order() {
    let t0 = SystemTime::UNIX_EPOCH + Duration::from_secs(10);
    let t1 = SystemTime::UNIX_EPOCH + Duration::from_secs(20);
    let mut s = PersistedState::default();
    s.push_recent_at("/a", t0);
    s.push_recent_at("/b", t0);
    s.push_recent_at("/c", t0);
    s.push_recent_at("/a", t1);
    let paths: Vec<&str> = s.recent_paths.iter().map(|r| r.path.as_str()).collect();
    assert_eq!(paths, vec!["/a", "/c", "/b"]);
    assert_eq!(s.recent_paths[0].last_used, t1);
    assert_eq!(s.recent_paths[1].last_used, t0);
    assert_eq!(s.version, 1);
}

#[test]
fn default_state_values() {
    let s = PersistedState::default();
    assert_eq!(s.version, 1);
    assert_eq!(s.window, WindowState { cols: 120, rows: 40 });
    assert_eq!(default_window(), WindowState { cols: 120, rows: 40 });
    assert_eq!(default_log_pane_pct(), 30);
    assert_eq!(s.log_pane_pct, 30);
    assert!(s.recent_paths.is_empty());
    assert!(s.danger_zone_acknowledged.is_empty());
    assert!(!s.show_hidden);
}

#[test]
fn config_path_prefers_xdg() {
    assert_eq!(
        PersistedState::config_path(Some("/xdg".to_string())),
        Some("/xdg/mtui/state.json".to_string())
    );
    assert_eq!(
        PersistedState::config_path_from(None, Some("/home/u".to_string())),
        Some("/home/u/.config/mtui/state.json".to_string())
    );
    assert_eq!(
        PersistedState::config_path_from(Some("/x".to_string()), Some("/home/u".to_string())),
        Some("/x/mtui/state.json".to_string())
    );
    assert_eq!(PersistedState::config_path_from(None, None), None);
}
