//! Verified core of the gpui-starter desktop application: deep-link routing,
//! error and crash-report bookkeeping, storage and telemetry status
//! derivations, config validation, and update-decision logic.

pub mod capabilities;
pub mod ids;
pub mod services;
pub mod shell;
pub mod state;
pub mod text;
