//! Capability registry entries: what each subsystem reports about itself.

use vstd::prelude::*;

use crate::text::owned;

verus! {

broadcast use vstd::string::group_string_axioms;

/// One subsystem's entry in the capability registry.
#[derive(Debug, PartialEq, Eq)]
pub struct CapabilityStatus {
    /// The platform offers the subsystem at all.
    pub supported: bool,
    /// The subsystem is switched on.
    pub enabled: bool,
    /// The subsystem runs but with reduced function.
    pub degraded: bool,
    /// Why the status is what it is, for the diagnostics page.
    pub reason: Option<String>,
    /// The last error the subsystem reported.
    pub last_error: Option<String>,
}

impl CapabilityStatus {
    /// A subsystem that is present and working.
    pub fn supported_enabled() -> (r: Self)
        ensures
            r.supported,
            r.enabled,
            !r.degraded,
            r.reason is None,
            r.last_error is None,
    {
        CapabilityStatus {
            supported: true,
            enabled: true,
            degraded: false,
            reason: None,
            last_error: None,
        }
    }

    /// A subsystem that failed: not enabled, degraded, with `message` as
    /// both the reason and the last error.
    pub fn error(message: &str) -> (r: Self)
        ensures
            r.supported,
            !r.enabled,
            r.degraded,
            opt_chars(r.reason) == Some(message@),
            opt_chars(r.last_error) == Some(message@),
    {
        CapabilityStatus {
            supported: true,
            enabled: false,
            degraded: true,
            reason: Some(owned(message)),
            last_error: Some(owned(message)),
        }
    }
}

/// The characters of an optional string.
pub open spec fn opt_chars(s: Option<String>) -> Option<Seq<char>> {
    match s {
        Some(t) => Some(t@),
        None => None,
    }
}

} // verus!
