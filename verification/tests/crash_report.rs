use gpui_starter::services::crash_report::{
    scrub, sort_newest_first, CrashEnvironment, CrashReport, CrashReportSnapshot,
    MAX_BACKTRACE_CHARS, MAX_PANIC_MESSAGE_CHARS,
};

fn env_with_home(home: &str) -> CrashEnvironment {
    CrashEnvironment {
        home: home.to_string(),
        app_version: "0.1.0".to_string(),
        os: "linux".to_string(),
        arch: "x86_64".to_string(),
    }
}

fn report_at(message: &str, timestamp: &str) -> CrashReport {
    CrashReport {
        id: format!("id-{message}"),
        panic_message: message.to_string(),
        backtrace: "bt".to_string(),
        app_version: "0.1.0".to_string(),
        os: "linux".to_string(),
        arch: "x86_64".to_string(),
        timestamp: timestamp.to_string(),
        render_path: false,
        recent_errors: vec![],
    }
}

#[test]
fn crash_report_new_populates_fields() {
    let report = CrashReport::new(
        "panic message".into(),
        "backtrace".into(),
        true,
        vec!["err1".into()],
        &env_with_home(""),
    );
    assert_eq!(report.panic_message, "panic message");
    assert_eq!(report.backtrace, "backtrace");
    assert!(report.render_path);
    assert_eq!(report.recent_errors, vec!["err1"]);
    assert!(!report.id.is_empty());
    assert!(!report.app_version.is_empty());
    assert!(!report.os.is_empty());
    assert!(!report.arch.is_empty());
    assert!(!report.timestamp.is_empty());
}

#[test]
fn snapshot_default_values() {
    let snap = CrashReportSnapshot::default();
    assert_eq!(snap.pending_count, 0);
    assert!(snap.last_crash_timestamp.is_none());
    assert!(snap.upload_endpoint.is_empty());
    assert!(snap.last_upload_error.is_none());
}

#[test]
fn new_caps_report_sizes() {
    let long_error = "x".repeat(10_000);
    let many_errors: Vec<String> = (0..50)
        .map(|i| format!("err{i}-{}", "y".repeat(600)))
        .collect();
    let report = CrashReport::new(
        long_error.clone(),
        long_error,
        false,
        many_errors,
        &env_with_home(""),
    );
    assert_eq!(report.panic_message.chars().count(), 2048);
    assert_eq!(report.backtrace.chars().count(), 8192);
    assert_eq!(report.recent_errors.len(), 20);
    assert_eq!(report.recent_errors[0].chars().count(), 512);
}

#[test]
fn new_scrubs_home_dir_from_reported_text() {
    let home = "/home/alice";
    let report = CrashReport::new(
        format!("panicked at {home}/src/main.rs"),
        format!("frame 0: {home}/src/lib.rs"),
        false,
        vec![format!("error reading {home}/secret.txt")],
        &env_with_home(home),
    );
    assert!(!report.panic_message.contains(home));
    assert!(!report.backtrace.contains(home));
    assert!(!report.recent_errors[0].contains(home));
    assert!(report.panic_message.contains("~/src/main.rs"));
    assert_eq!(report.panic_message, "panicked at ~/src/main.rs");
    assert_eq!(report.recent_errors[0], "error reading ~/secret.txt");
}

#[test]
fn new_records_environment_and_fresh_identity() {
    let env = env_with_home("");
    let a = CrashReport::new("p".into(), "b".into(), false, vec![], &env);
    let b = CrashReport::new("p".into(), "b".into(), false, vec![], &env);
    assert_eq!(a.app_version, "0.1.0");
    assert_eq!(a.os, "linux");
    assert_eq!(a.arch, "x86_64");
    assert_eq!(a.id.len(), 36);
    assert_ne!(a.id, b.id);
    assert!(a.timestamp.len() >= 25);
}

#[test]
fn scrub_replaces_every_occurrence_then_caps() {
    assert_eq!(scrub("/h/x and /h/y", "/h", 100), "~/x and ~/y");
    assert_eq!(scrub("abcdef", "", 3), "abc");
    assert_eq!(scrub("/h/abc", "/h", 2), "~/");
    assert_eq!(scrub("héllo", "", 2), "hé");
    assert_eq!(MAX_PANIC_MESSAGE_CHARS, 2048);
    assert_eq!(MAX_BACKTRACE_CHARS, 8192);
}

#[test]
fn detect_pending_sorts_newest_first() {
    let sorted = sort_newest_first(vec![
        report_at("first", "2024-05-01T10:00:00.010+00:00"),
        report_at("third", "2024-05-03T08:00:00+00:00"),
        report_at("second", "2024-05-02T09:30:00+00:00"),
    ]);
    let order: Vec<&str> = sorted.iter().map(|r| r.panic_message.as_str()).collect();
    assert_eq!(order, vec!["third", "second", "first"]);
    assert!(sort_newest_first(vec![]).is_empty());
}

#[test]
fn sorting_keeps_every_report() {
    let sorted = sort_newest_first(vec![
        report_at("a", "2024-01-01T00:00:00+00:00"),
        report_at("b", "2024-01-01T00:00:00+00:00"),
        report_at("c", "2023-12-31T23:59:59+00:00"),
    ]);
    assert_eq!(sorted.len(), 3);
    assert_eq!(sorted[2].panic_message, "c");
    let mut names: Vec<&str> = sorted.iter().map(|r| r.panic_message.as_str()).collect();
    names.sort();
    assert_eq!(names, vec!["a", "b", "c"]);
}

#[test]
fn snapshot_tracks_pending_reports() {
    let mut snap = CrashReportSnapshot::with_endpoint("https://crash.example.com/upload");
    assert!(snap.upload_enabled());
    assert!(!CrashReportSnapshot::with_endpoint("").upload_enabled());

    snap.record_pending(Ok(vec![report_at("x", "2024-05-01T00:00:00+00:00")]));
    assert_eq!(snap.pending_count, 1);
    assert_eq!(
        snap.last_crash_timestamp.as_deref(),
        Some("2024-05-01T00:00:00+00:00")
    );

    snap.record_pending(Err("database locked".to_string()));
    assert_eq!(snap.pending_count, 0);
    assert!(snap.last_crash_timestamp.is_none());
    assert_eq!(snap.upload_endpoint, "https://crash.example.com/upload");
}

#[test]
fn only_a_2xx_status_marks_a_report_uploaded() {
    assert!(CrashReportSnapshot::upload_accepted(200));
    assert!(CrashReportSnapshot::upload_accepted(204));
    assert!(CrashReportSnapshot::upload_accepted(299));
    assert!(!CrashReportSnapshot::upload_accepted(199));
    assert!(!CrashReportSnapshot::upload_accepted(300));
    assert!(!CrashReportSnapshot::upload_accepted(500));
}

#[test]
fn report_ids_are_v4_uuid_text_and_times_are_rfc3339() {
    let r = CrashReport::new("p".into(), "b".into(), false, vec![], &env_with_home(""));
    let bytes: Vec<char> = r.id.chars().collect();
    assert_eq!(bytes[8], '-');
    assert_eq!(bytes[14], '4');
    assert!(matches!(bytes[19], '8' | '9' | 'a' | 'b'));
    assert!(chrono::DateTime::parse_from_rfc3339(&r.timestamp).is_ok());
}
