use gpui_starter::state::config_store::{
    default_stable, default_true, exceeds_state_file_cap, normalized_locale, normalized_version,
    SaveState, APP_STATE_VERSION, LOCALE_EN, LOCALE_ZH_CN, MAX_STATE_FILE_BYTES,
};
use gpui_starter::state::config_validation::{
    validate_granted_permissions, validate_locale, validate_theme, validate_update_channel,
    ConfigLint, LintSeverity,
};

#[test]
fn normalization_defaults_and_is_idempotent() {
    assert_eq!(normalized_version(0), APP_STATE_VERSION);
    assert_eq!(normalized_version(5), 5);
    assert_eq!(normalized_locale("fr"), LOCALE_EN);
    assert_eq!(normalized_locale(LOCALE_ZH_CN), "zh-CN");
    let once = normalized_locale("de-DE");
    assert_eq!(normalized_locale(&once), once);
    assert_eq!(normalized_version(normalized_version(0)), normalized_version(0));
    assert!(default_true());
    assert_eq!(default_stable(), "stable");
}

#[test]
fn oversized_state_files_are_refused_unread() {
    assert!(!exceeds_state_file_cap(MAX_STATE_FILE_BYTES));
    assert!(exceeds_state_file_cap(MAX_STATE_FILE_BYTES + 1));
    assert_eq!(MAX_STATE_FILE_BYTES, 1024 * 1024);
}

#[test]
fn unchanged_config_is_never_rewritten() {
    let mut s = SaveState::new(b"{\"a\":1}".to_vec());
    s.mark_dirty();
    assert_eq!(s.prepare_flush(Ok(b"{\"a\":1}".to_vec())), None);
    assert!(!s.dirty);
}

#[test]
fn a_changed_config_is_written_and_committed() {
    let mut s = SaveState::new(b"old".to_vec());
    s.mark_dirty();
    let bytes = s.prepare_flush(Ok(b"new".to_vec())).expect("bytes to write");
    assert_eq!(bytes, b"new".to_vec());
    assert!(!s.commit_flush(bytes, b"new", Ok(())));
    assert!(!s.dirty);
    assert_eq!(s.last_flushed_bytes, b"new".to_vec());
    assert!(s.last_save_error.is_none());
}

#[test]
fn a_stale_write_rearms_the_flush() {
    let mut s = SaveState::new(b"v1".to_vec());
    s.mark_dirty();
    let bytes = s.prepare_flush(Ok(b"v2".to_vec())).unwrap();
    assert!(s.commit_flush(bytes, b"v3", Ok(())));
    assert!(s.dirty);
    assert_eq!(s.last_flushed_bytes, b"v1".to_vec());
}

#[test]
fn a_failed_write_keeps_the_change_pending() {
    let mut s = SaveState::new(b"v1".to_vec());
    s.mark_dirty();
    let bytes = s.prepare_flush(Ok(b"v2".to_vec())).unwrap();
    assert!(!s.commit_flush(bytes, b"v2", Err("disk full".into())));
    assert!(s.dirty);
    assert_eq!(s.last_save_error.as_deref(), Some("disk full"));
    assert_eq!(s.prepare_flush(Err("bad value".into())), None);
    assert_eq!(s.last_save_error.as_deref(), Some("bad value"));
}

fn only(lints: Vec<ConfigLint>) -> ConfigLint {
    assert_eq!(lints.len(), 1);
    lints.into_iter().next().unwrap()
}

#[test]
fn update_channel_lints() {
    assert!(validate_update_channel("beta").is_empty());
    let l = only(validate_update_channel(""));
    assert_eq!(l.field, "update_channel");
    assert_eq!(l.severity, LintSeverity::Warning);
    assert_eq!(l.message, "update_channel is empty; the updater will default to \"stable\"");
    let l = only(validate_update_channel("canary"));
    assert_eq!(
        l.message,
        "update_channel = \"canary\" is not recognised (expected one of [\"stable\", \"beta\", \"nightly\"]); the updater will fall back to \"stable\""
    );
}

#[test]
fn locale_and_theme_lints() {
    assert!(validate_locale("zh-CN").is_empty());
    assert_eq!(
        only(validate_locale("x\"y")).message,
        "locale = \"x\\\"y\" has no bundled translations (expected one of [\"en\", \"zh-CN\"]); falling back to \"en\""
    );
    assert_eq!(only(validate_locale("")).message, "locale is empty; falling back to \"en\"");
    assert!(validate_theme("Default Dark").is_empty());
    assert_eq!(
        only(validate_theme("  \t")).message,
        "theme is empty or blank; the default theme will be used"
    );
    assert_eq!(LintSeverity::Error.as_str(), "error");
}

#[test]
fn unknown_permissions_are_linted_once_each_in_order() {
    let granted = vec![
        "notifications".to_string(),
        "camera".to_string(),
        "bluetooth".to_string(),
        "camera".to_string(),
    ];
    let lints = validate_granted_permissions(&granted);
    let fields: Vec<&str> = lints.iter().map(|l| l.field.as_str()).collect();
    assert_eq!(
        fields,
        vec!["granted_permissions.bluetooth", "granted_permissions.camera"]
    );
    assert_eq!(lints[0].severity, LintSeverity::Info);
    assert_eq!(
        lints[1].message,
        "granted permission \"camera\" is not recognised by this build (known: [\"notifications\"]); it will be ignored"
    );
    assert!(validate_granted_permissions(&["notifications".to_string()]).is_empty());
}
