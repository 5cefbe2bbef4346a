//! The message protocol between the web storage backend and its SQLite
//! worker: one request variant per storage operation, one response variant
//! per successful answer plus a single error shape, correlated by `id`.

use vstd::prelude::*;

use crate::services::crash_report::CrashReport;
use crate::services::error_surface::ErrorRecord;

verus! {

broadcast use vstd::string::group_string_axioms;

/// App-to-worker request.
#[derive(Clone, Debug, PartialEq)]
pub enum WorkerRequest {
    SchemaVersion { id: u64 },
    HealthCheck { id: u64 },
    Maintenance { id: u64 },
    PersistErrorRecord { id: u64, record: ErrorRecord },
    LoadErrorHistory { id: u64, limit: usize },
    PersistCrashReport { id: u64, report: CrashReport },
    LoadPendingCrashReports { id: u64, limit: usize },
    MarkCrashReportUploaded { id: u64, report_id: String, uploaded_at: String },
}

/// Worker-to-app response.
#[derive(Clone, Debug, PartialEq)]
pub enum WorkerResponse {
    SchemaVersion { id: u64, version: i64 },
    HealthCheck { id: u64 },
    Maintenance { id: u64 },
    PersistErrorRecord { id: u64 },
    LoadErrorHistory { id: u64, records: Vec<ErrorRecord> },
    PersistCrashReport { id: u64 },
    LoadPendingCrashReports { id: u64, reports: Vec<CrashReport> },
    MarkCrashReportUploaded { id: u64 },
    Error { id: u64, message: String },
}

/// Payload of a successful response, one shape per request kind.
#[derive(Clone, Debug, PartialEq)]
pub enum WorkerResult {
    SchemaVersion(i64),
    Unit,
    ErrorRecords(Vec<ErrorRecord>),
    CrashReports(Vec<CrashReport>),
}

/// The correlation id a response carries.
pub open spec fn response_id(r: WorkerResponse) -> u64 {
    match r {
        WorkerResponse::SchemaVersion { id, .. } => id,
        WorkerResponse::HealthCheck { id } => id,
        WorkerResponse::Maintenance { id } => id,
        WorkerResponse::PersistErrorRecord { id } => id,
        WorkerResponse::LoadErrorHistory { id, .. } => id,
        WorkerResponse::PersistCrashReport { id } => id,
        WorkerResponse::LoadPendingCrashReports { id, .. } => id,
        WorkerResponse::MarkCrashReportUploaded { id } => id,
        WorkerResponse::Error { id, .. } => id,
    }
}

/// The trait-level result a response stands for.
pub open spec fn response_result(r: WorkerResponse) -> Result<WorkerResult, String> {
    match r {
        WorkerResponse::SchemaVersion { version, .. } => Ok(WorkerResult::SchemaVersion(version)),
        WorkerResponse::HealthCheck { .. } => Ok(WorkerResult::Unit),
        WorkerResponse::Maintenance { .. } => Ok(WorkerResult::Unit),
        WorkerResponse::PersistErrorRecord { .. } => Ok(WorkerResult::Unit),
        WorkerResponse::PersistCrashReport { .. } => Ok(WorkerResult::Unit),
        WorkerResponse::MarkCrashReportUploaded { .. } => Ok(WorkerResult::Unit),
        WorkerResponse::LoadErrorHistory { records, .. } => Ok(WorkerResult::ErrorRecords(records)),
        WorkerResponse::LoadPendingCrashReports { reports, .. } => Ok(
            WorkerResult::CrashReports(reports),
        ),
        WorkerResponse::Error { message, .. } => Err(message),
    }
}

/// The correlation id a request carries.
pub open spec fn request_id(r: WorkerRequest) -> u64 {
    match r {
        WorkerRequest::SchemaVersion { id } => id,
        WorkerRequest::HealthCheck { id } => id,
        WorkerRequest::Maintenance { id } => id,
        WorkerRequest::PersistErrorRecord { id, .. } => id,
        WorkerRequest::LoadErrorHistory { id, .. } => id,
        WorkerRequest::PersistCrashReport { id, .. } => id,
        WorkerRequest::LoadPendingCrashReports { id, .. } => id,
        WorkerRequest::MarkCrashReportUploaded { id, .. } => id,
    }
}

impl WorkerRequest {
    /// The correlation id, allocated by the app side.
    pub fn id(&self) -> (r: u64)
        ensures
            r == request_id(*self),
    {
        match self {
            Self::SchemaVersion { id }
            | Self::HealthCheck { id }
            | Self::Maintenance { id }
            | Self::PersistErrorRecord { id, .. }
            | Self::LoadErrorHistory { id, .. }
            | Self::PersistCrashReport { id, .. }
            | Self::LoadPendingCrashReports { id, .. }
            | Self::MarkCrashReportUploaded { id, .. } => *id,
        }
    }
}

impl WorkerResponse {
    /// The correlation id: the reply to the request with the same id,
    /// whatever the op.
    pub fn id(&self) -> (r: u64)
        ensures
            r == response_id(*self),
    {
        match self {
            Self::SchemaVersion { id, .. }
            | Self::HealthCheck { id }
            | Self::Maintenance { id }
            | Self::PersistErrorRecord { id }
            | Self::LoadErrorHistory { id, .. }
            | Self::PersistCrashReport { id }
            | Self::LoadPendingCrashReports { id, .. }
            | Self::MarkCrashReportUploaded { id }
            | Self::Error { id, .. } => *id,
        }
    }

    /// The success variant's payload, or `Err(message)` for the error shape.
    pub fn into_result(self) -> (r: Result<WorkerResult, String>)
        ensures
            r == response_result(self),
    {
        match self {
            Self::SchemaVersion { version, .. } => Ok(WorkerResult::SchemaVersion(version)),
            Self::HealthCheck { .. }
            | Self::Maintenance { .. }
            | Self::PersistErrorRecord { .. }
            | Self::PersistCrashReport { .. }
            | Self::MarkCrashReportUploaded { .. } => Ok(WorkerResult::Unit),
            Self::LoadErrorHistory { records, .. } => Ok(WorkerResult::ErrorRecords(records)),
            Self::LoadPendingCrashReports { reports, .. } => Ok(WorkerResult::CrashReports(reports)),
            Self::Error { message, .. } => Err(message),
        }
    }
}

pub open spec fn result_op_name(r: WorkerResult) -> Seq<char> {
    match r {
        WorkerResult::SchemaVersion(_) => "schema-version"@,
        WorkerResult::Unit => "unit"@,
        WorkerResult::ErrorRecords(_) => "load-error-history"@,
        WorkerResult::CrashReports(_) => "load-pending-crash-reports"@,
    }
}

impl WorkerResult {
    /// Op name this payload answers, for protocol-mismatch messages.
    pub fn op_name(&self) -> (r: &'static str)
        ensures
            r@ == result_op_name(*self),
    {
        match self {
            Self::SchemaVersion(_) => "schema-version",
            Self::Unit => "unit",
            Self::ErrorRecords(_) => "load-error-history",
            Self::CrashReports(_) => "load-pending-crash-reports",
        }
    }
}

/// Law: a response is an error exactly when it is the error shape, and the
/// success payload always names an op (never the error).
pub proof fn lemma_error_shape_is_the_only_failure(r: WorkerResponse)
    ensures
        response_result(r) is Err <==> r is Error,
{
}

} // verus!
