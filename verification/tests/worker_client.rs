use gpui_starter::services::storage::protocol::WorkerResult;
use gpui_starter::services::storage::status::{
    apply_worker_ready, worker_boot_snapshot, StorageError, WEB_DB_PATH_LABEL,
};
use gpui_starter::services::storage::worker_client::{finish_call, mismatch, RequestTable};

#[test]
fn requests_get_fresh_increasing_ids() {
    let mut table = RequestTable::new();
    assert_eq!(table.begin(), Ok(1));
    assert_eq!(table.begin(), Ok(2));
    assert_eq!(table.begin(), Ok(3));
    assert_eq!(table.pending, vec![1, 2, 3]);
}

#[test]
fn a_reply_completes_its_request_once() {
    let mut table = RequestTable::new();
    let a = table.begin().unwrap();
    let b = table.begin().unwrap();
    assert!(table.complete(b));
    assert!(!table.complete(b));
    assert!(!table.complete(99));
    assert_eq!(table.pending, vec![a]);
}

#[test]
fn a_dead_worker_fails_everything() {
    let mut table = RequestTable::new();
    table.begin().unwrap();
    table.begin().unwrap();
    let failed = table.fail_all("storage worker error: crashed".to_string());
    assert_eq!(failed, vec![1, 2]);
    assert!(table.pending.is_empty());
    assert_eq!(table.begin(), Err("storage worker error: crashed".to_string()));
}

#[test]
fn replies_become_call_results() {
    assert_eq!(
        finish_call("health-check", Some(Some(Ok(WorkerResult::Unit)))),
        Ok(WorkerResult::Unit)
    );
    assert_eq!(
        finish_call("health-check", Some(Some(Err("opfs unavailable".into())))),
        Err(StorageError::Web("opfs unavailable".into()))
    );
    assert_eq!(
        finish_call("maintenance", Some(None)),
        Err(StorageError::Web("storage worker dropped the reply for `maintenance`".into()))
    );
    assert_eq!(
        finish_call("maintenance", None),
        Err(StorageError::Web(
            "storage worker not running (boot failed or unavailable)".into()
        ))
    );
    assert_eq!(
        mismatch("schema-version", &WorkerResult::Unit),
        StorageError::Web(
            "storage worker protocol mismatch: expected `schema-version`, got `unit`".into()
        )
    );
}

#[test]
fn worker_boot_and_readiness() {
    let starting = worker_boot_snapshot(Ok(()));
    assert_eq!(starting.db_path, WEB_DB_PATH_LABEL);
    assert_eq!(starting.last_migration_result.as_deref(), Some("sqlite worker starting"));
    let gone = worker_boot_snapshot(Err("no Worker API".into()));
    assert_eq!(gone.last_error.as_deref(), Some("no Worker API"));
    assert_eq!(gone.last_migration_result.as_deref(), Some("opfs sqlite unavailable"));

    let mut snap = worker_boot_snapshot(Ok(()));
    apply_worker_ready(&mut snap, Ok(()), Ok(3));
    assert!(snap.available && snap.healthy);
    assert_eq!(
        snap.last_migration_result.as_deref(),
        Some("schema version 3 ready (sqlite-wasm/opfs)")
    );

    let mut snap = worker_boot_snapshot(Ok(()));
    apply_worker_ready(
        &mut snap,
        Ok(()),
        Err(StorageError::Web("engine init failed".into())),
    );
    assert!(!snap.available);
    assert_eq!(snap.last_error.as_deref(), Some("engine init failed"));
    assert_eq!(snap.last_migration_result.as_deref(), Some("migration failed"));
}
