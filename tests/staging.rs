use axoupdater::staging_dir::{
    can_execute_from_dir, next_staging_action, runtime_dir_with_unix_fallback,
    sanitized_parent_component, tempdir_name_prefix, ProbeOutcome, StagingAction,
};

#[test]
fn test_parent_component_is_sanitized() {
    assert_eq!(
        sanitized_parent_component("../parent/workspace"),
        ".._parent_workspace"
    );
    assert_eq!(sanitized_parent_component(""), "axoupdater");
}

#[test]
fn test_tempdir_name_prefix_shape() {
    assert_eq!(
        tempdir_name_prefix("parent-workspace"),
        "parent-workspace-axoupdate-".to_owned()
    );
}

#[test]
fn all_dot_names_fall_back() {
    assert_eq!(sanitized_parent_component("..."), "axoupdater");
    assert_eq!(sanitized_parent_component("a b/c"), "a_b_c");
    assert_eq!(sanitized_parent_component("é"), "_");
    assert_eq!(tempdir_name_prefix(""), "axoupdater-axoupdate-");
}

#[test]
fn staging_falls_back_to_later_roots() {
    assert!(matches!(next_staging_action(&vec![], 4), StagingAction::Probe(0)));
    assert!(matches!(next_staging_action(&vec![false, false], 4), StagingAction::Probe(2)));
    assert!(matches!(next_staging_action(&vec![false, false, false], 4), StagingAction::Probe(3)));
    assert!(matches!(next_staging_action(&vec![false, false, false, false], 4), StagingAction::GiveUp));
}

#[test]
fn staging_uses_first_usable_root() {
    assert!(matches!(next_staging_action(&vec![false, true], 4), StagingAction::Use(1)));
    assert!(matches!(next_staging_action(&vec![true], 4), StagingAction::Use(0)));
}

#[test]
fn probe_script_is_always_removed_once_written() {
    let ok = can_execute_from_dir(&ProbeOutcome { written: true, made_executable: true, exited_zero: true });
    assert!(ok.usable && ok.remove_probe);
    let failed_run = can_execute_from_dir(&ProbeOutcome { written: true, made_executable: true, exited_zero: false });
    assert!(!failed_run.usable && failed_run.remove_probe);
    let failed_chmod = can_execute_from_dir(&ProbeOutcome { written: true, made_executable: false, exited_zero: false });
    assert!(!failed_chmod.usable && failed_chmod.remove_probe);
    let not_written = can_execute_from_dir(&ProbeOutcome { written: false, made_executable: false, exited_zero: false });
    assert!(!not_written.usable && not_written.remove_probe);
}

#[test]
fn runtime_dir_fallback_rules() {
    assert_eq!(
        runtime_dir_with_unix_fallback(Some("/run/user/5".to_string()), true, "/run/user/5".to_string(), false),
        Some("/run/user/5".to_string())
    );
    assert_eq!(
        runtime_dir_with_unix_fallback(None, false, "/run/user/1000".to_string(), true),
        Some("/run/user/1000".to_string())
    );
    assert_eq!(runtime_dir_with_unix_fallback(None, true, "/run/user/1000".to_string(), true), None);
    assert_eq!(runtime_dir_with_unix_fallback(None, false, "/run/user/1000".to_string(), false), None);
}
