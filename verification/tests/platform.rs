use gpui_starter::capabilities::CapabilityStatus;
use gpui_starter::services::i18n::{locale_or_default, localized_or_id, I18nError};
use gpui_starter::services::secure_storage::{
    entry_creation_error, KeyringFailure, SecureStorageError, SecureStorageSnapshot,
};

fn failure(no_entry: bool, message: &str) -> KeyringFailure {
    KeyringFailure { no_entry, message: message.to_string() }
}

#[test]
fn keyring_probe_sets_availability() {
    let ok = SecureStorageSnapshot::from_probe(true);
    assert!(ok.available);
    assert!(ok.last_error.is_none());
    let cap = ok.capability_status();
    assert!(cap.supported && cap.enabled && !cap.degraded);

    let missing = SecureStorageSnapshot::from_probe(false);
    assert_eq!(
        missing.last_error.as_deref(),
        Some("keyring entry initialization unavailable")
    );
    let cap = missing.capability_status();
    assert!(!cap.enabled && cap.degraded);
    assert_eq!(cap.reason.as_deref(), Some("keyring entry initialization unavailable"));

    let unknown = SecureStorageSnapshot::default().capability_status();
    assert_eq!(unknown.last_error.as_deref(), Some("secure storage unavailable"));
}

#[test]
fn secret_outcomes_update_the_snapshot() {
    let mut snap = SecureStorageSnapshot::from_probe(true);
    let err = snap
        .finish_set("svc", "token", Err(failure(false, "locked")))
        .unwrap_err();
    assert_eq!(err.to_string(), "failed to set secret for 'svc/token': locked");
    assert_eq!(snap.last_error.as_deref(), Some("locked"));

    assert_eq!(snap.finish_get("svc", "token", Ok("s3cret".into())).unwrap().as_deref(), Some("s3cret"));
    assert!(snap.last_error.is_none());

    assert_eq!(snap.finish_get("svc", "gone", Err(failure(true, "No entry"))).unwrap(), None);
    let err = snap
        .finish_get("svc", "token", Err(failure(false, "dbus down")))
        .unwrap_err();
    assert!(matches!(err, SecureStorageError::GetFailed { .. }));
    assert!(snap.last_error.is_none());

    assert!(snap.finish_delete("svc", "token", Ok(())).is_ok());
    let err = snap
        .finish_delete("svc", "token", Err(failure(false, "denied")))
        .unwrap_err();
    assert_eq!(err.to_string(), "failed to delete secret for 'svc/token': denied");
    assert_eq!(
        entry_creation_error("svc", "k", "bad name").to_string(),
        "entry creation failed for 'svc/k': bad name"
    );
}

#[test]
fn capability_constructors() {
    let ok = CapabilityStatus::supported_enabled();
    assert!(ok.supported && ok.enabled && !ok.degraded && ok.reason.is_none());
    let bad = CapabilityStatus::error("broken");
    assert!(bad.supported && !bad.enabled && bad.degraded);
    assert_eq!(bad.last_error.as_deref(), Some("broken"));
}

#[test]
fn localization_fallbacks() {
    assert_eq!(localized_or_id(Some("Einstellungen".into()), "settings"), "Einstellungen");
    assert_eq!(localized_or_id(None, "settings"), "settings");
    assert_eq!(locale_or_default(Some("zh-CN".into())), "zh-CN");
    assert_eq!(locale_or_default(None), "en");
    assert_eq!(
        I18nError::InitFailed("no bundle".into()).to_string(),
        "i18n initialization failed: no bundle"
    );
}
