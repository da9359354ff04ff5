use conmind::startup::{
    config_file_name, config_file_step, console_enabled, default_config_text, was_restarted,
    ConfigFileAction, ConfigFileEvent,
};

#[test]
fn console_follows_the_setting() {
    assert!(console_enabled(Some(true), false));
    assert!(!console_enabled(Some(false), false));
}

#[test]
fn unreadable_config_opens_the_console() {
    assert!(console_enabled(None, false));
}

#[test]
fn no_console_in_a_special_location() {
    assert!(!console_enabled(Some(true), true));
    assert!(!console_enabled(None, true));
}

#[test]
fn config_file_steps() {
    assert_eq!(config_file_step(ConfigFileEvent::Located { special: true }), ConfigFileAction::Finish);
    assert_eq!(config_file_step(ConfigFileEvent::Located { special: false }), ConfigFileAction::Search);
    assert_eq!(config_file_step(ConfigFileEvent::Searched { found: true }), ConfigFileAction::Finish);
    assert_eq!(config_file_step(ConfigFileEvent::Searched { found: false }), ConfigFileAction::WriteDefault);
    assert_eq!(config_file_step(ConfigFileEvent::Written { ok: true }), ConfigFileAction::ReportCreated);
    assert_eq!(config_file_step(ConfigFileEvent::Written { ok: false }), ConfigFileAction::ReportFailure);
}

#[test]
fn default_config_text_and_name() {
    assert_eq!(default_config_text(), "debug_console = false\nsensitivity = 1.0\n");
    assert_eq!(config_file_name(), "config.toml");
}

#[test]
fn restart_flag_is_found() {
    let args = vec!["conmind.exe".to_string(), "--was-restarted".to_string()];
    assert!(was_restarted(&args));
}

#[test]
fn restart_flag_must_match_exactly() {
    let args = vec!["conmind.exe".to_string(), "--was-restarted=1".to_string(), "was-restarted".to_string()];
    assert!(!was_restarted(&args));
    assert!(!was_restarted(&Vec::new()));
}
