use gpui_starter::ids::{AppErrorSeverity, AppTimestamp, EventId};
use gpui_starter::services::error_surface::{
    scrub_home_with, ErrorAction, ErrorCategory, ErrorRecord, ErrorSurfaceState, MAX_RECORDS,
};

fn record(n: u128, message: &str) -> ErrorRecord {
    ErrorRecord {
        id: EventId(n),
        occurred_at: AppTimestamp(1_700_000_000, 0),
        severity: AppErrorSeverity::Warning,
        category: ErrorCategory::Network,
        message: message.to_string(),
        actions: vec![ErrorAction::Retry],
    }
}

#[test]
fn error_category_labels() {
    assert_eq!(ErrorCategory::Network.label(), "network");
    assert_eq!(ErrorCategory::Storage.label(), "storage");
    assert_eq!(ErrorCategory::Rendering.label(), "rendering");
    assert_eq!(ErrorCategory::Config.label(), "config");
    assert_eq!(ErrorCategory::System.label(), "system");
}

#[test]
fn scrub_home_replaces_home_prefix() {
    assert_eq!(
        scrub_home_with("/home/me/logs/x.log", "/home/me"),
        "~/logs/x.log"
    );
    assert_eq!(scrub_home_with("/home/me2/x", "/home/me"), "~2/x");
    assert_eq!(scrub_home_with("plain text", ""), "plain text");
}

#[test]
fn category_labels_parse_back() {
    for c in [
        ErrorCategory::Network,
        ErrorCategory::Storage,
        ErrorCategory::Rendering,
        ErrorCategory::Config,
        ErrorCategory::System,
    ] {
        assert_eq!(ErrorCategory::from_label(c.label()), Some(c));
    }
    assert_eq!(ErrorCategory::from_label("Storage"), Some(ErrorCategory::Storage));
    assert_eq!(ErrorCategory::from_label("disk"), None);
}

#[test]
fn newest_record_comes_first_and_store_is_capped() {
    let mut state = ErrorSurfaceState::default();
    assert_eq!(state.record_count(), 0);
    assert!(state.latest().is_none());
    assert!(state.latest_message().is_none());
    for i in 0..(MAX_RECORDS as u128 + 5) {
        state.push_record(record(i, &format!("error {i}")));
    }
    assert_eq!(state.record_count(), MAX_RECORDS);
    assert_eq!(state.latest().unwrap().id, EventId(MAX_RECORDS as u128 + 4));
    assert_eq!(
        state.latest_message().as_deref(),
        Some(format!("error {}", MAX_RECORDS + 4).as_str())
    );
    assert_eq!(state.records[MAX_RECORDS - 1].id, EventId(5));
}

#[test]
fn dismiss_removes_only_that_record() {
    let mut state = ErrorSurfaceState::default();
    state.push_record(record(1, "a"));
    state.push_record(record(2, "b"));
    state.push_record(record(3, "c"));
    state.dismiss(EventId(2));
    let ids: Vec<EventId> = state.records.iter().map(|r| r.id).collect();
    assert_eq!(ids, vec![EventId(3), EventId(1)]);
    state.dismiss(EventId(42));
    assert_eq!(state.record_count(), 2);
}

#[test]
fn report_scrubs_and_stores_the_record() {
    let mut state = ErrorSurfaceState::default();
    let stored = state.report(
        "cannot open /home/bob/data.db",
        "/home/bob",
        AppErrorSeverity::Error,
        ErrorCategory::Storage,
        vec![ErrorAction::Retry, ErrorAction::Dismiss],
    );
    assert_eq!(stored.message, "cannot open ~/data.db");
    assert_eq!(stored.severity, AppErrorSeverity::Error);
    assert_eq!(stored.category, ErrorCategory::Storage);
    assert_eq!(stored.actions, vec![ErrorAction::Retry, ErrorAction::Dismiss]);
    assert_eq!(state.record_count(), 1);
    assert_eq!(state.latest().unwrap().id, stored.id);
    let second = state.report("x", "", AppErrorSeverity::Info, ErrorCategory::System, vec![]);
    assert_ne!(second.id, stored.id);
    assert_eq!(state.latest().unwrap().id, second.id);
}

#[test]
fn severities_have_stored_names() {
    for s in [AppErrorSeverity::Info, AppErrorSeverity::Warning, AppErrorSeverity::Error] {
        assert_eq!(AppErrorSeverity::from_name(s.as_str()), Some(s));
    }
    assert_eq!(AppErrorSeverity::Warning.as_str(), "Warning");
    assert_eq!(AppErrorSeverity::from_name("warning"), None);
}

#[test]
fn fresh_ids_are_version_four_uuids_and_times_follow_the_epoch() {
    for _ in 0..32 {
        let id = EventId::new();
        assert_eq!((id.0 >> 76) & 0xf, 4);
        assert_eq!((id.0 >> 62) & 0x3, 2);
    }
    let now = AppTimestamp::now();
    assert!(now.0 > 1_600_000_000);
    assert!(now.1 < 1_000_000_000);
}

#[test]
fn reported_records_get_fresh_uuid_ids_and_current_times() {
    let mut state = ErrorSurfaceState::default();
    let r = state.report("x", "", AppErrorSeverity::Info, ErrorCategory::System, vec![]);
    assert_eq!((r.id.0 >> 76) & 0xf, 4);
    assert!(r.occurred_at.0 > 1_600_000_000);
}

#[test]
fn an_overfull_store_is_cut_back_to_the_cap() {
    let mut state = ErrorSurfaceState::default();
    state.records = (0..(MAX_RECORDS as u128 + 10)).map(|i| record(i, "old")).collect();
    state.push_record(record(9999, "new"));
    assert_eq!(state.record_count(), MAX_RECORDS);
    assert_eq!(state.records[0].id, EventId(9999));
    assert_eq!(state.records[1].id, EventId(0));
}
