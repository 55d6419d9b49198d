use mtui::actions::{metadata, ActionInfo};
use mtui::jobs::JobStatus;
use mtui::ui::sidebar::{build_rows, status_prefix, visible_index_for, Row};

fn metas() -> Vec<ActionInfo> {
    metadata()
}

#[test]
fn rows_contain_all_registered_actions() {
    let rows = build_rows(&metas(), &[]);
    let action_count = rows.iter().filter(|r| matches!(r, Row::Action { .. })).count();
    assert_eq!(action_count, metas().len());
}

#[test]
fn sidebar_starts_with_category_header() {
    let rows = build_rows(&metas(), &[]);
    assert!(matches!(rows[0], Row::Category(ref c) if c == "Dev"));
}

#[test]
fn visible_index_for_first_action() {
    let rows = build_rows(&metas(), &[]);
    let idx = visible_index_for(&rows, 0).expect("action 0 exists");
    assert!(matches!(rows[idx], Row::Action { index: 0, .. }));
}

#[test]
fn status_badges_appear_when_set() {
    let metas = metas();
    let last_status = vec![Some(JobStatus::Done); metas.len()];
    let rows = build_rows(&metas, &last_status);
    for r in &rows {
        if let Row::Action { index: 0, status: Some(s), .. } = r {
            assert_eq!(*s, JobStatus::Done);
            return;
        }
    }
    panic!("expected an action row for index 0");
}

#[test]
fn rows_are_grouped_with_separators() {
    let rows = build_rows(&metas(), &[]);
    // Dev, test | Installers, install, run | Plugins, move, remove |
    // Maintenance, reset | System patches, ozone | quit footer.
    let shape: Vec<String> = rows
        .iter()
        .map(|r| match r {
            Row::Category(c) => format!("C:{c}"),
            Row::Action { index, .. } => format!("A{index}"),
            Row::Separator => "-".to_string(),
            Row::Quit => "Q".to_string(),
        })
        .collect();
    assert_eq!(
        shape,
        vec![
            "C:Dev", "A0", "-", "C:Installers", "A1", "A2", "-", "C:Plugins", "A3", "A4", "-",
            "C:Maintenance", "A5", "-", "C:System patches", "A6", "-", "Q",
        ]
    );
    assert_eq!(visible_index_for(&rows, 3), Some(8));
    assert_eq!(visible_index_for(&rows, 7), None);
}

#[test]
fn status_prefixes() {
    assert_eq!(status_prefix(None), "  ");
    assert_eq!(status_prefix(Some(JobStatus::Running)), "… ");
    assert_eq!(status_prefix(Some(JobStatus::Failed)), "✗ ");
    assert_eq!(status_prefix(Some(JobStatus::Cancelled)), "↻ ");
}
