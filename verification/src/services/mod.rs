pub mod accessibility;
pub mod crash_report;
pub mod error_surface;
pub mod i18n;
pub mod notifications;
pub mod secure_storage;
pub mod storage;
pub mod telemetry;
pub mod updater;
