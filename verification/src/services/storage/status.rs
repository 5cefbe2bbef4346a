//! Storage service status: the snapshot the diagnostics page shows, how each
//! backend outcome updates it, and the capability entry derived from it.

use vstd::prelude::*;

use crate::capabilities::{CapabilityStatus, opt_chars};
use crate::ids::clone_opt_string;
use crate::text::{append_i64, append_str, owned, signed_decimal};

verus! {

broadcast use vstd::string::group_string_axioms;

/// The schema version the native migrations bring a database to.
pub const CURRENT_SCHEMA_VERSION: i64 = 3;

/// Storage state shown on the diagnostics page.
#[derive(Clone, Debug)]
pub struct StorageSnapshot {
    pub available: bool,
    pub db_path: String,
    pub schema_version: i64,
    pub healthy: bool,
    pub last_maintenance_at: Option<String>,
    pub last_migration_result: Option<String>,
    pub last_error: Option<String>,
}

impl Default for StorageSnapshot {
    fn default() -> (r: Self)
        ensures
            !r.available,
            r.db_path@.len() == 0,
            r.schema_version == 0,
            !r.healthy,
            r.last_maintenance_at is None,
            r.last_migration_result is None,
            r.last_error is None,
    {
        StorageSnapshot {
            available: false,
            db_path: String::new(),
            schema_version: 0,
            healthy: false,
            last_maintenance_at: None,
            last_migration_result: None,
            last_error: None,
        }
    }
}

/// A storage failure: the SQLite driver's or the web worker's message.
#[derive(Debug, PartialEq, Eq)]
pub enum StorageError {
    /// Native SQLite failure.
    Sqlite(String),
    /// Web backend failure: worker transport, OPFS, or worker-side SQL.
    Web(String),
}

pub open spec fn storage_error_message(e: StorageError) -> Seq<char> {
    match e {
        StorageError::Sqlite(m) => m@,
        StorageError::Web(m) => m@,
    }
}

impl StorageError {
    /// The error message.
    pub fn to_string(&self) -> (r: String)
        ensures
            r@ == storage_error_message(*self),
    {
        match self {
            StorageError::Sqlite(m) => owned(m.as_str()),
            StorageError::Web(m) => owned(m.as_str()),
        }
    }
}

/// The capability entry a snapshot stands for.
pub fn capability_status(supported: bool, snapshot: &StorageSnapshot) -> (r: CapabilityStatus)
    ensures
        r.supported == supported,
        r.enabled == snapshot.available,
        r.degraded == (snapshot.last_error is Some || !snapshot.healthy),
        opt_chars(r.last_error) == opt_chars(snapshot.last_error),
        opt_chars(r.reason) == match snapshot.last_error {
            Some(e) => Some("storage issue: "@ + e@),
            None => None,
        },
{
    let reason = match &snapshot.last_error {
        Some(e) => {
            let mut m = owned("storage issue: ");
            append_str(&mut m, e.as_str());
            Some(m)
        },
        None => None,
    };
    CapabilityStatus {
        supported,
        enabled: snapshot.available,
        degraded: snapshot.last_error.is_some() || !snapshot.healthy,
        reason,
        last_error: clone_opt_string(&snapshot.last_error),
    }
}

/// The snapshot after the native boot: the database path and the outcome of
/// running the migrations.
pub fn boot_snapshot(db_path: &str, migration: Result<i64, String>) -> (r: StorageSnapshot)
    ensures
        r.db_path@ == db_path@,
        !r.healthy,
        r.last_maintenance_at is None,
        match migration {
            Ok(v) => r.available && r.schema_version == v && r.last_error is None && opt_chars(
                r.last_migration_result,
            ) == Some("schema version "@ + signed_decimal(v as int) + " ready"@),
            Err(e) => !r.available && r.schema_version == 0 && opt_chars(r.last_error) == Some(e@)
                && opt_chars(r.last_migration_result) == Some("migration failed"@),
        },
{
    match migration {
        Ok(v) => {
            let mut m = owned("schema version ");
            append_i64(&mut m, v);
            append_str(&mut m, " ready");
            StorageSnapshot {
                available: true,
                db_path: owned(db_path),
                schema_version: v,
                healthy: false,
                last_maintenance_at: None,
                last_migration_result: Some(m),
                last_error: None,
            }
        },
        Err(e) => StorageSnapshot {
            available: false,
            db_path: owned(db_path),
            schema_version: 0,
            healthy: false,
            last_maintenance_at: None,
            last_migration_result: Some(owned("migration failed")),
            last_error: Some(e),
        },
    }
}

/// Fold a boot-time health-check outcome into a snapshot.
pub fn record_health_result(snapshot: &mut StorageSnapshot, result: Result<(), StorageError>)
    ensures
        final(snapshot).available == old(snapshot).available,
        final(snapshot).schema_version == old(snapshot).schema_version,
        final(snapshot).db_path@ == old(snapshot).db_path@,
        opt_chars(final(snapshot).last_maintenance_at) == opt_chars(
            old(snapshot).last_maintenance_at,
        ),
        opt_chars(final(snapshot).last_migration_result) == opt_chars(
            old(snapshot).last_migration_result,
        ),
        match result {
            Ok(()) => final(snapshot).healthy && opt_chars(final(snapshot).last_error) == opt_chars(
                old(snapshot).last_error,
            ),
            Err(e) => !final(snapshot).healthy && opt_chars(final(snapshot).last_error) == Some(
                storage_error_message(e),
            ),
        },
{
    match result {
        Ok(()) => snapshot.healthy = true,
        Err(err) => {
            snapshot.healthy = false;
            snapshot.last_error = Some(err.to_string());
        },
    }
}

/// Fold a periodic health check (and the schema version read beside it)
/// into a snapshot: success clears the last error.
pub fn apply_health_check(
    snapshot: &mut StorageSnapshot,
    result: Result<(), StorageError>,
    version: Result<i64, StorageError>,
)
    ensures
        final(snapshot).available == old(snapshot).available,
        final(snapshot).db_path@ == old(snapshot).db_path@,
        match result {
            Ok(()) => final(snapshot).healthy && final(snapshot).last_error is None
                && final(snapshot).schema_version == match version {
                Ok(v) => v,
                Err(_) => old(snapshot).schema_version,
            },
            Err(e) => !final(snapshot).healthy && opt_chars(final(snapshot).last_error) == Some(
                storage_error_message(e),
            ) && final(snapshot).schema_version == old(snapshot).schema_version,
        },
{
    match result {
        Ok(()) => {
            snapshot.healthy = true;
            snapshot.last_error = None;
            if let Ok(v) = version {
                snapshot.schema_version = v;
            }
        },
        Err(err) => {
            snapshot.healthy = false;
            snapshot.last_error = Some(err.to_string());
        },
    }
}

/// Fold a maintenance outcome into a snapshot; `finished_at` is the time the
/// run ended.
pub fn apply_maintenance(
    snapshot: &mut StorageSnapshot,
    result: Result<(), StorageError>,
    finished_at: &str,
)
    ensures
        final(snapshot).available == old(snapshot).available,
        final(snapshot).healthy == old(snapshot).healthy,
        final(snapshot).schema_version == old(snapshot).schema_version,
        match result {
            Ok(()) => opt_chars(final(snapshot).last_maintenance_at) == Some(finished_at@)
                && final(snapshot).last_error is None,
            Err(e) => opt_chars(final(snapshot).last_maintenance_at) == opt_chars(
                old(snapshot).last_maintenance_at,
            ) && opt_chars(final(snapshot).last_error) == Some(storage_error_message(e)),
        },
{
    match result {
        Ok(()) => {
            snapshot.last_maintenance_at = Some(owned(finished_at));
            snapshot.last_error = None;
        },
        Err(err) => {
            snapshot.last_error = Some(err.to_string());
        },
    }
}

/// The label the web backend shows as its database path.
pub const WEB_DB_PATH_LABEL: &'static str = "opfs:/gpui-starter-app.db";

/// The provisional snapshot when the web storage worker is spawned (or
/// could not be, for the given reason).
pub fn worker_boot_snapshot(boot: Result<(), String>) -> (r: StorageSnapshot)
    ensures
        !r.available,
        !r.healthy,
        r.schema_version == 0,
        r.last_maintenance_at is None,
        match boot {
            Ok(()) => r.db_path@ == WEB_DB_PATH_LABEL@ && r.last_error is None && opt_chars(
                r.last_migration_result,
            ) == Some("sqlite worker starting"@),
            Err(reason) => r.db_path@.len() == 0 && opt_chars(r.last_error) == Some(reason@)
                && opt_chars(r.last_migration_result) == Some("opfs sqlite unavailable"@),
        },
{
    match boot {
        Ok(()) => StorageSnapshot {
            available: false,
            db_path: owned(WEB_DB_PATH_LABEL),
            schema_version: 0,
            healthy: false,
            last_maintenance_at: None,
            last_migration_result: Some(owned("sqlite worker starting")),
            last_error: None,
        },
        Err(reason) => StorageSnapshot {
            available: false,
            db_path: String::new(),
            schema_version: 0,
            healthy: false,
            last_maintenance_at: None,
            last_migration_result: Some(owned("opfs sqlite unavailable")),
            last_error: Some(reason),
        },
    }
}

/// Fold the web worker's first health and version round-trip (which doubles
/// as its readiness probe) into the snapshot: both succeed, or the first
/// error (health before version) is recorded.
pub fn apply_worker_ready(
    snapshot: &mut StorageSnapshot,
    health: Result<(), StorageError>,
    version: Result<i64, StorageError>,
)
    ensures
        final(snapshot).db_path@ == old(snapshot).db_path@,
        match (health, version) {
            (Ok(()), Ok(v)) => final(snapshot).available && final(snapshot).healthy
                && final(snapshot).schema_version == v && final(snapshot).last_error is None
                && opt_chars(final(snapshot).last_migration_result) == Some(
                "schema version "@ + signed_decimal(v as int) + " ready (sqlite-wasm/opfs)"@,
            ),
            (h, ver) => final(snapshot).available == old(snapshot).available
                && final(snapshot).healthy == old(snapshot).healthy
                && final(snapshot).schema_version == old(snapshot).schema_version
                && opt_chars(final(snapshot).last_migration_result) == Some("migration failed"@)
                && opt_chars(final(snapshot).last_error) == Some(
                match h {
                    Err(e) => storage_error_message(e),
                    Ok(()) => match ver {
                        Err(e) => storage_error_message(e),
                        Ok(_) => "storage worker failed to initialize"@,
                    },
                },
            ),
        },
{
    match (health, version) {
        (Ok(()), Ok(v)) => {
            snapshot.available = true;
            snapshot.healthy = true;
            snapshot.schema_version = v;
            snapshot.last_error = None;
            let mut m = owned("schema version ");
            append_i64(&mut m, v);
            append_str(&mut m, " ready (sqlite-wasm/opfs)");
            snapshot.last_migration_result = Some(m);
        },
        (h, ver) => {
            let error = match h {
                Err(e) => e.to_string(),
                Ok(()) => match ver {
                    Err(e) => e.to_string(),
                    Ok(_) => owned("storage worker failed to initialize"),
                },
            };
            snapshot.last_error = Some(error);
            snapshot.last_migration_result = Some(owned("migration failed"));
        },
    }
}

} // verus!
