use nfo_viewer::startup::{startup_plan, LogLevel, LogTarget, Plugin, StartupPlan};

#[test]
fn logging_is_at_debug_level_to_log_directory_and_standard_error() {
    let plan = startup_plan(false);
    assert_eq!(plan.log_level, LogLevel::Debug);
    assert_eq!(plan.log_targets, vec![LogTarget::LogDir, LogTarget::Stderr]);
}

#[test]
fn plugins_are_registered_in_their_fixed_order() {
    let expected = vec![Plugin::Log, Plugin::Fs, Plugin::Dialog, Plugin::Cli];
    assert_eq!(startup_plan(false).plugins, expected);
    assert_eq!(startup_plan(true).plugins, expected);
}

#[test]
fn developer_panel_is_opened_in_debug_builds_only() {
    assert!(startup_plan(true).open_devtools);
    assert!(!startup_plan(false).open_devtools);
}

#[test]
fn release_plan_is_complete() {
    assert_eq!(
        startup_plan(false),
        StartupPlan {
            log_level: LogLevel::Debug,
            log_targets: vec![LogTarget::LogDir, LogTarget::Stderr],
            plugins: vec![Plugin::Log, Plugin::Fs, Plugin::Dialog, Plugin::Cli],
            open_devtools: false,
        }
    );
}
