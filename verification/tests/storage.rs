use gpui_starter::ids::{AppErrorSeverity, AppTimestamp, EventId};
use gpui_starter::services::crash_report::CrashReport;
use gpui_starter::services::error_surface::{ErrorAction, ErrorCategory, ErrorRecord};
use gpui_starter::services::storage::protocol::{WorkerRequest, WorkerResponse, WorkerResult};
use gpui_starter::services::storage::rows::{
    decode_crash_row, decode_error_row, encode_crash_row, encode_error_row, CrashRow, ErrorRow,
};
use gpui_starter::services::storage::status::{
    apply_health_check, apply_maintenance, boot_snapshot, capability_status,
    record_health_result, StorageError, StorageSnapshot, CURRENT_SCHEMA_VERSION,
};

fn example_record() -> ErrorRecord {
    ErrorRecord {
        id: EventId::new(),
        occurred_at: AppTimestamp::now(),
        severity: AppErrorSeverity::Warning,
        category: ErrorCategory::Storage,
        message: "disk full".into(),
        actions: vec![ErrorAction::Retry, ErrorAction::Dismiss],
    }
}

fn error_row(category: &str, actions: &str) -> ErrorRow {
    ErrorRow {
        id: "550e8400-e29b-41d4-a716-446655440000".to_string(),
        occurred_at: "2024-05-01T10:00:00.250+00:00".to_string(),
        severity: "Error".to_string(),
        category: category.to_string(),
        message: "disk full".to_string(),
        actions: actions.to_string(),
    }
}

#[test]
fn responses_convert_to_trait_results() {
    assert_eq!(
        WorkerResponse::SchemaVersion { id: 1, version: 3 }.into_result(),
        Ok(WorkerResult::SchemaVersion(3))
    );
    assert_eq!(
        WorkerResponse::HealthCheck { id: 2 }.into_result(),
        Ok(WorkerResult::Unit)
    );
    let records = vec![example_record()];
    assert_eq!(
        WorkerResponse::LoadErrorHistory {
            id: 3,
            records: records.clone(),
        }
        .into_result(),
        Ok(WorkerResult::ErrorRecords(records))
    );
    assert_eq!(
        WorkerResponse::Error {
            id: 4,
            message: "opfs unavailable".into(),
        }
        .into_result(),
        Err("opfs unavailable".to_string())
    );
}

#[test]
fn ids_and_op_names_follow_the_variant() {
    assert_eq!(WorkerRequest::LoadErrorHistory { id: 9, limit: 10 }.id(), 9);
    assert_eq!(
        WorkerRequest::MarkCrashReportUploaded {
            id: 11,
            report_id: "r".into(),
            uploaded_at: "t".into()
        }
        .id(),
        11
    );
    assert_eq!(WorkerResponse::Error { id: 7, message: "x".into() }.id(), 7);
    assert_eq!(WorkerResult::SchemaVersion(1).op_name(), "schema-version");
    assert_eq!(WorkerResult::Unit.op_name(), "unit");
    assert_eq!(WorkerResult::ErrorRecords(vec![]).op_name(), "load-error-history");
    assert_eq!(
        WorkerResult::CrashReports(vec![]).op_name(),
        "load-pending-crash-reports"
    );
}

#[test]
fn boot_snapshot_reports_migration_outcome() {
    let ok = boot_snapshot("/data/app.db", Ok(CURRENT_SCHEMA_VERSION));
    assert!(ok.available);
    assert_eq!(ok.schema_version, 3);
    assert_eq!(ok.last_migration_result.as_deref(), Some("schema version 3 ready"));
    assert_eq!(ok.db_path, "/data/app.db");

    let failed = boot_snapshot("/data/app.db", Err("disk I/O error".to_string()));
    assert!(!failed.available);
    assert_eq!(failed.last_error.as_deref(), Some("disk I/O error"));
    assert_eq!(failed.last_migration_result.as_deref(), Some("migration failed"));
}

#[test]
fn health_and_maintenance_fold_into_the_snapshot() {
    let mut snap = boot_snapshot("/db", Ok(3));
    record_health_result(&mut snap, Ok(()));
    assert!(snap.healthy);

    apply_health_check(&mut snap, Err(StorageError::Sqlite("locked".into())), Ok(4));
    assert!(!snap.healthy);
    assert_eq!(snap.last_error.as_deref(), Some("locked"));
    assert_eq!(snap.schema_version, 3);

    apply_health_check(&mut snap, Ok(()), Ok(4));
    assert!(snap.healthy);
    assert!(snap.last_error.is_none());
    assert_eq!(snap.schema_version, 4);

    apply_maintenance(&mut snap, Ok(()), "2024-01-01T00:00:00Z");
    assert_eq!(snap.last_maintenance_at.as_deref(), Some("2024-01-01T00:00:00Z"));
    apply_maintenance(&mut snap, Err(StorageError::Web("opfs gone".into())), "later");
    assert_eq!(snap.last_maintenance_at.as_deref(), Some("2024-01-01T00:00:00Z"));
    assert_eq!(snap.last_error.as_deref(), Some("opfs gone"));

    let cap = capability_status(true, &snap);
    assert!(cap.supported && cap.enabled && cap.degraded);
    assert_eq!(cap.reason.as_deref(), Some("storage issue: opfs gone"));
}

#[test]
fn default_storage_snapshot_is_unavailable() {
    let snap = StorageSnapshot::default();
    assert!(!snap.available);
    assert!(!snap.healthy);
    assert_eq!(snap.schema_version, 0);
    assert_eq!(StorageError::Sqlite("boom".into()).to_string(), "boom");
}

#[test]
fn error_rows_decode_every_column() {
    let rec = decode_error_row(
        &error_row("storage", "[\"Retry\",\"OpenSettings\"]"),
        Ok(vec![ErrorAction::Retry, ErrorAction::OpenSettings]),
    )
    .unwrap();
    assert_eq!(rec.id, EventId(0x550e8400_e29b_41d4_a716_446655440000));
    assert_eq!(rec.occurred_at, AppTimestamp(1_714_557_600, 250_000_000));
    assert_eq!(rec.severity, AppErrorSeverity::Error);
    assert_eq!(rec.category, ErrorCategory::Storage);
    assert_eq!(rec.message, "disk full");
    assert_eq!(rec.actions, vec![ErrorAction::Retry, ErrorAction::OpenSettings]);
    let capitalised = decode_error_row(&error_row("Network", "[]"), Ok(vec![])).unwrap();
    assert_eq!(capitalised.category, ErrorCategory::Network);
}

#[test]
fn error_rows_with_bad_columns_are_refused() {
    let err = decode_error_row(&error_row("disk", "[]"), Ok(vec![])).unwrap_err();
    assert_eq!(
        err.to_string(),
        "Invalid parameter name: unknown error category `disk`"
    );
    let unknown = "unknown variant `Explode`, expected one of `Retry`, `OpenSettings`, `Dismiss` at line 1 column 10";
    let err = decode_error_row(&error_row("storage", "[\"Explode\"]"), Err(unknown.into()))
        .unwrap_err();
    assert_eq!(err.to_string(), format!("Invalid parameter name: {unknown}"));
    let mut row = error_row("storage", "[]");
    row.severity = "Fatal".to_string();
    assert_eq!(
        decode_error_row(&row, Ok(vec![])).unwrap_err().to_string(),
        "Invalid parameter name: unknown variant `Fatal`, expected one of `Info`, `Warning`, `Error` at line 1 column 7"
    );
    let mut row = error_row("storage", "[]");
    row.id = "not-a-uuid".to_string();
    assert!(decode_error_row(&row, Ok(vec![]))
        .unwrap_err()
        .to_string()
        .starts_with("Invalid parameter name: "));
    let mut row = error_row("storage", "[]");
    row.occurred_at = "yesterday".to_string();
    assert!(decode_error_row(&row, Ok(vec![])).is_err());
    assert_eq!(
        decode_error_row(&error_row("storage", "not json"), Err("expected ident at line 1 column 2".into()))
            .unwrap_err(),
        StorageError::Sqlite("Invalid parameter name: expected ident at line 1 column 2".into())
    );
}

#[test]
fn the_actions_column_is_consulted_last() {
    let mut row = error_row("disk", "oops");
    let bad = || Err::<Vec<ErrorAction>, String>("expected value at line 1 column 1".into());
    assert_eq!(
        decode_error_row(&row, bad()).unwrap_err().to_string(),
        "Invalid parameter name: unknown error category `disk`"
    );
    row.category = "system".into();
    assert_eq!(
        decode_error_row(&row, bad()).unwrap_err().to_string(),
        "Invalid parameter name: expected value at line 1 column 1"
    );
    row.id = "nope".into();
    let err = decode_error_row(&row, bad()).unwrap_err().to_string();
    assert!(err.starts_with("Invalid parameter name: "));
    assert!(!err.contains("expected value"));
}

#[test]
fn severity_column_is_read_as_a_json_string() {
    let mut row = error_row("storage", "[]");
    row.severity = "In\\u0066o".to_string();
    assert_eq!(decode_error_row(&row, Ok(vec![])).unwrap().severity, AppErrorSeverity::Info);
    row.severity = "Warning".to_string();
    assert_eq!(decode_error_row(&row, Ok(vec![])).unwrap().severity, AppErrorSeverity::Warning);
    row.severity = "Err\"or".to_string();
    assert!(decode_error_row(&row, Ok(vec![])).is_err());
    row.severity = "info".to_string();
    assert_eq!(
        decode_error_row(&row, Ok(vec![])).unwrap_err().to_string(),
        "Invalid parameter name: unknown variant `info`, expected one of `Info`, `Warning`, `Error` at line 1 column 6"
    );
}

#[test]
fn error_records_survive_a_row_round_trip() {
    let original = ErrorRecord {
        id: EventId(0x0123_4567_89ab_cdef_0123_4567_89ab_cdef),
        occurred_at: AppTimestamp(1_700_000_123, 456_789_012),
        severity: AppErrorSeverity::Info,
        category: ErrorCategory::Rendering,
        message: "frame dropped".into(),
        actions: vec![ErrorAction::Dismiss],
    };
    let row = encode_error_row(&original).unwrap();
    assert_eq!(row.id, "01234567-89ab-cdef-0123-456789abcdef");
    assert_eq!(row.severity, "Info");
    assert_eq!(row.category, "rendering");
    assert_eq!(row.actions, "[\"Dismiss\"]");
    assert_eq!(decode_error_row(&row, Ok(original.actions.clone())).unwrap(), original);
    let far = ErrorRecord { occurred_at: AppTimestamp(i64::MAX, 0), ..original };
    assert_eq!(
        encode_error_row(&far).unwrap_err(),
        StorageError::Sqlite("timestamp out of range".into())
    );
}

#[test]
fn persist_and_load_crash_report_roundtrip() {
    let report = CrashReport {
        id: "abc".into(),
        panic_message: "test panic".into(),
        backtrace: "backtrace here".into(),
        app_version: "0.1.0".into(),
        os: "linux".into(),
        arch: "x86_64".into(),
        timestamp: "2024-05-01T10:00:00+00:00".into(),
        render_path: true,
        recent_errors: vec!["error1".into(), "error \"2\"\n".into()],
    };
    let row = encode_crash_row(&report);
    assert_eq!(row.recent_errors, "[\"error1\",\"error \\\"2\\\"\\n\"]");
    let loaded = decode_crash_row(&row).unwrap();
    assert_eq!(loaded, report);
}

#[test]
fn crash_rows_with_bad_error_lists_are_refused() {
    let row = CrashRow {
        id: "x".into(),
        panic_message: "p".into(),
        backtrace: "b".into(),
        app_version: "v".into(),
        os: "o".into(),
        arch: "a".into(),
        timestamp: "t".into(),
        render_path: false,
        recent_errors: "{\"not\":\"a list\"}".into(),
    };
    assert!(matches!(decode_crash_row(&row), Err(StorageError::Sqlite(_))));
}

#[test]
fn error_rows_round_trip_across_four_digit_years() {
    for (secs, nanos) in [
        (-62_167_219_200i64, 0u32),
        (-2_208_988_800, 5_000_000),
        (0, 0),
        (0, 1),
        (1, 999_999_999),
        (1_714_557_600, 250_000_000),
        (1_714_557_600, 250_001_000),
        (253_402_300_799, 999_999_999),
    ] {
        let rec = ErrorRecord {
            id: EventId(u128::MAX - secs.unsigned_abs() as u128 - nanos as u128),
            occurred_at: AppTimestamp(secs, nanos),
            severity: AppErrorSeverity::Warning,
            category: ErrorCategory::Config,
            message: "m".into(),
            actions: vec![ErrorAction::OpenSettings, ErrorAction::Retry],
        };
        let row = encode_error_row(&rec).unwrap();
        assert_eq!(decode_error_row(&row, Ok(rec.actions.clone())).unwrap(), rec, "time {secs}.{nanos}");
    }
}

#[test]
fn stored_times_keep_their_sub_millisecond_digits() {
    let rec = ErrorRecord {
        id: EventId(1),
        occurred_at: AppTimestamp(1_700_000_000, 123_456_789),
        severity: AppErrorSeverity::Info,
        category: ErrorCategory::System,
        message: "m".into(),
        actions: vec![],
    };
    let row = encode_error_row(&rec).unwrap();
    assert_eq!(row.occurred_at, "2023-11-14T22:13:20.123456789+00:00");
}
