use mtui::actions::install_pkgs::InstallPkgsAction;
use mtui::actions::locate::{bin_dir_candidates, pick_bin_dir, sentinel_path, SENTINEL};
use mtui::actions::move_kd_plugs::MoveKdPlugsAction;
use mtui::actions::patch_ozone::PatchOzoneAction;
use mtui::actions::remove_protection::RemoveProtectionAction;
use mtui::actions::reset_ableton::{select_versions, ResetAbletonAction, VersionProbe};
use mtui::actions::run_patchers::RunPatchersAction;
use mtui::actions::{
    all, command_for, count, find_action, metadata, Action, InputKind, ResolvedInputs, TestAction,
};

const BIN: &str = "/opt/music-tools/bin";

#[test]
fn install_pkgs_info_matches() {
    let a = InstallPkgsAction;
    let info = a.info();
    assert_eq!(info.id, "install_pkgs");
    assert_eq!(info.input_kind, InputKind::Dir);
    assert!(a.requires_sudo());
}

#[test]
fn command_targets_script_in_bin() {
    let a = InstallPkgsAction;
    let spec = a.build_command(
        BIN,
        ResolvedInputs { dir: Some("/tmp/fake".to_string()), ..Default::default() },
    );
    assert_eq!(spec.program, "bash");
    assert!(spec.args[0].ends_with("install_pkgs"));
    assert_eq!(spec.args[1], "/tmp/fake");
    assert_eq!(spec.cwd.as_deref(), Some("/tmp/fake"));
}

#[test]
fn move_kd_plugs_info_matches() {
    let a = MoveKdPlugsAction;
    let info = a.info();
    assert_eq!(info.id, "move_kd_plugs");
    assert_eq!(info.input_kind, InputKind::Dir);
    assert!(a.requires_sudo());
}

#[test]
fn command_sets_cwd_to_input_dir() {
    let a = MoveKdPlugsAction;
    let spec = a.build_command(
        BIN,
        ResolvedInputs { dir: Some("/tmp/kd".to_string()), ..Default::default() },
    );
    assert_eq!(spec.cwd.as_deref(), Some("/tmp/kd"));
    assert!(spec.args[0].ends_with("move_kd_plugs"));
}

#[test]
fn patch_ozone_info_matches() {
    let a = PatchOzoneAction;
    let info = a.info();
    assert_eq!(info.id, "patch_ozone");
    assert_eq!(info.input_kind, InputKind::NoInput);
    assert!(a.requires_sudo());
}

#[test]
fn command_targets_ozone_script() {
    let a = PatchOzoneAction;
    let spec = a.build_command(BIN, ResolvedInputs::default());
    assert!(spec.args[0].ends_with("patch-ozone.sh"));
}

#[test]
fn remove_protection_info_matches() {
    let a = RemoveProtectionAction;
    let info = a.info();
    assert_eq!(info.id, "remove_protection");
    assert_eq!(info.input_kind, InputKind::File);
    assert!(a.requires_sudo());
}

#[test]
fn command_passes_file() {
    let a = RemoveProtectionAction;
    let spec = a.build_command(
        BIN,
        ResolvedInputs { file: Some("/Applications/My App.app".to_string()), ..Default::default() },
    );
    assert!(spec.args[0].ends_with("remove_protection"));
    assert_eq!(spec.args[1], "/Applications/My App.app");
}

#[test]
fn reset_ableton_info_matches() {
    let a = ResetAbletonAction;
    let info = a.info();
    assert_eq!(info.id, "reset_ableton");
    assert_eq!(info.input_kind, InputKind::Choice);
    assert!(a.requires_sudo());
}

#[test]
fn command_passes_version() {
    let a = ResetAbletonAction;
    let spec = a.build_command(
        BIN,
        ResolvedInputs { choice: Some("12.1.5".into()), ..Default::default() },
    );
    assert!(spec.args[0].ends_with("reset_ableton"));
    assert_eq!(spec.args[1], "12.1.5");
}

#[test]
fn run_patchers_info_matches() {
    let a = RunPatchersAction;
    let info = a.info();
    assert_eq!(info.id, "run_patchers");
    assert_eq!(info.input_kind, InputKind::Dir);
    assert!(a.requires_sudo());
}

#[test]
fn command_targets_script() {
    let a = RunPatchersAction;
    let spec = a.build_command(
        BIN,
        ResolvedInputs { dir: Some("/tmp/cmds".to_string()), ..Default::default() },
    );
    assert_eq!(spec.cwd.as_deref(), Some("/tmp/cmds"));
    assert!(spec.args[0].ends_with("run_patchers"));
}

#[test]
fn test_action_runs_without_sudo() {
    let a = TestAction::new("echo x");
    assert!(!a.requires_sudo());
    let spec = a.build_command(BIN, ResolvedInputs::default());
    assert_eq!(spec.program, "bash");
    assert!(spec.args.contains(&"-c".to_string()));
}

#[test]
fn registry_has_test_plus_six_placeholders() {
    let actions = all();
    assert_eq!(actions.len(), 7, "1 test + 6 placeholders");
    let meta = metadata();
    assert_eq!(meta.len(), 7);
    assert_eq!(meta[0].id, "test");
    assert_eq!(meta[0].category, "Dev");
    let ids: Vec<&str> = meta.iter().map(|m| m.id).collect();
    for required in [
        "install_pkgs",
        "run_patchers",
        "move_kd_plugs",
        "remove_protection",
        "reset_ableton",
        "patch_ozone",
    ] {
        assert!(ids.contains(&required), "missing action: {required}");
    }
}

// ---- contracts on concrete values -------------------------------------

#[test]
fn commands_have_exact_argv_and_cwd() {
    let spec = InstallPkgsAction.build_command(
        BIN,
        ResolvedInputs { dir: Some("/tmp/fake".to_string()), ..Default::default() },
    );
    assert_eq!(spec.args, vec!["/opt/music-tools/bin/install_pkgs".to_string(), "/tmp/fake".to_string()]);
    assert!(spec.env.is_empty());

    let spec = RunPatchersAction.build_command(
        BIN,
        ResolvedInputs { dir: Some("/tmp/cmds".to_string()), ..Default::default() },
    );
    assert_eq!(spec.program, "bash");
    assert_eq!(spec.args, vec!["/opt/music-tools/bin/run_patchers".to_string(), "/tmp/cmds".to_string()]);

    let spec = MoveKdPlugsAction.build_command(
        BIN,
        ResolvedInputs { dir: Some("/tmp/kd".to_string()), ..Default::default() },
    );
    assert_eq!(spec.args, vec!["/opt/music-tools/bin/move_kd_plugs".to_string()]);

    let spec = RemoveProtectionAction.build_command(
        BIN,
        ResolvedInputs { file: Some("/Applications/My App.app".to_string()), ..Default::default() },
    );
    assert_eq!(spec.cwd, None);

    let spec = ResetAbletonAction.build_command(
        BIN,
        ResolvedInputs { choice: Some("12.1.5".into()), ..Default::default() },
    );
    assert_eq!(spec.args, vec!["/opt/music-tools/bin/reset_ableton".to_string(), "12.1.5".to_string()]);
}

#[test]
fn ozone_script_sits_next_to_bin() {
    let spec = PatchOzoneAction.build_command(BIN, ResolvedInputs::default());
    assert_eq!(spec.program, "bash");
    assert_eq!(spec.args, vec!["/opt/music-tools/ozone-12/patch-ozone.sh".to_string()]);
}

#[test]
fn test_action_command_is_bash_dash_c() {
    let spec = TestAction::new("echo x").build_command(BIN, ResolvedInputs::default());
    assert_eq!(spec.args, vec!["-c".to_string(), "echo x".to_string()]);
    assert_eq!(spec.cwd, None);
}

#[test]
fn command_for_refuses_missing_inputs() {
    assert!(command_for(&InstallPkgsAction, BIN, ResolvedInputs::default()).is_none());
    assert!(command_for(&RunPatchersAction, BIN, ResolvedInputs::default()).is_none());
    assert!(command_for(&MoveKdPlugsAction, BIN, ResolvedInputs::default()).is_none());
    assert!(command_for(&RemoveProtectionAction, BIN, ResolvedInputs::default()).is_none());
    assert!(command_for(&ResetAbletonAction, BIN, ResolvedInputs::default()).is_none());
    // The ozone script needs a parent of the bin directory.
    assert!(command_for(&PatchOzoneAction, "/", ResolvedInputs::default()).is_none());
    assert!(command_for(&PatchOzoneAction, BIN, ResolvedInputs::default()).is_some());
    let c = command_for(
        &ResetAbletonAction,
        BIN,
        ResolvedInputs { choice: Some("11.3".into()), ..Default::default() },
    )
    .unwrap();
    assert_eq!(c.args[1], "11.3");
}

#[test]
fn registry_lookup_by_id() {
    assert_eq!(count(), 7);
    assert_eq!(find_action("test"), Some(0));
    assert_eq!(find_action("patch_ozone"), Some(6));
    assert_eq!(find_action("reset_ableton"), Some(5));
    assert_eq!(find_action("nope"), None);
    let meta = metadata();
    assert_eq!(meta[4].input_kind, InputKind::File);
    assert_eq!(meta[1].category, "Installers");
}

#[test]
fn registry_ids_are_distinct() {
    let meta = metadata();
    for i in 0..meta.len() {
        for j in (i + 1)..meta.len() {
            assert_ne!(meta[i].id, meta[j].id);
        }
    }
}

// ---- locating bin/ ------------------------------------------------------

#[test]
fn finds_a_known_directory() {
    // Run from tui/ in a checkout at /repo: cwd/../bin is the repo's bin/,
    // the first candidate that holds the sentinel script.
    let c = bin_dir_candidates(None, Some("/repo/tui".to_string()), None, vec![]);
    let holds_sentinel: Vec<bool> =
        c.iter().map(|x| sentinel_path(&x.path) == "/repo/tui/../bin/install_pkgs").collect();
    let dir = pick_bin_dir(&holds_sentinel);
    assert!(dir.is_some(), "could not locate bin/");
    let dir = &c[dir.unwrap()];
    assert_eq!(dir.path, "/repo/tui/../bin");
    assert!(dir.canonicalize);
    assert!(sentinel_path(&dir.path).ends_with("install_pkgs"));
}

#[test]
fn bin_dir_candidates_in_search_order() {
    let c = bin_dir_candidates(
        Some("/env/bin".to_string()),
        Some("/work/tui".to_string()),
        Some("/repo/tui/target/release/mtui".to_string()),
        vec!["/usr/bin".to_string(), "/opt/bin".to_string()],
    );
    let got: Vec<(String, bool)> = c.into_iter().map(|x| (x.path, x.canonicalize)).collect();
    assert_eq!(
        got,
        vec![
            ("/env/bin".to_string(), true),
            ("/work/tui/../bin".to_string(), true),
            ("/work/tui/bin".to_string(), true),
            ("/repo/tui/target/release/../../../bin".to_string(), true),
            ("/repo/tui/target/release/bin".to_string(), true),
            ("/usr/bin".to_string(), false),
            ("/opt/bin".to_string(), false),
        ]
    );
}

#[test]
fn bin_dir_candidates_skip_what_is_unknown() {
    let c = bin_dir_candidates(None, None, None, vec![]);
    assert!(c.is_empty());
    let c = bin_dir_candidates(None, None, Some("/".to_string()), vec!["/x".to_string()]);
    assert_eq!(c.len(), 1);
    assert_eq!(c[0].path, "/x");
}

#[test]
fn sentinel_and_pick() {
    assert_eq!(SENTINEL, "install_pkgs");
    assert_eq!(sentinel_path("/a/bin"), "/a/bin/install_pkgs");
    assert_eq!(pick_bin_dir(&vec![false, true, true]), Some(1));
    assert_eq!(pick_bin_dir(&vec![false, false]), None);
    assert_eq!(pick_bin_dir(&vec![]), None);
}

// ---- Ableton versions ---------------------------------------------------

fn probe(name: &str, is_dir: bool, has_cfg: bool, undo: u64) -> VersionProbe {
    VersionProbe { name: Some(name.to_string()), is_dir, has_cfg, cfg_mtime: None, undo_size: undo }
}

#[test]
fn select_versions_filters_and_sorts() {
    let probes = vec![
        probe("Live 12.1.5", true, true, 10),
        probe("Live 11.3", true, true, 20),
        probe("notes.txt", false, false, 0),
        probe("Live 10.1", true, false, 0),
        VersionProbe { name: None, is_dir: true, has_cfg: true, cfg_mtime: None, undo_size: 0 },
    ];
    let v = select_versions(probes, 7);
    let names: Vec<&str> = v.iter().map(|x| x.version.as_str()).collect();
    assert_eq!(names, vec!["Live 11.3", "Live 12.1.5"]);
    assert_eq!(v[0].undo_size, 20);
    assert_eq!(v[1].templates_size, 7);
}

#[test]
fn which_actions_run_bin_scripts() {
    assert!(InstallPkgsAction.needs_bin_dir());
    assert!(RunPatchersAction.needs_bin_dir());
    assert!(MoveKdPlugsAction.needs_bin_dir());
    assert!(RemoveProtectionAction.needs_bin_dir());
    assert!(ResetAbletonAction.needs_bin_dir());
    assert!(PatchOzoneAction.needs_bin_dir());
    assert!(!TestAction::new("echo x").needs_bin_dir());
    assert!(all().iter().all(|a| !a.needs_bin_dir()));
}
