//! Accessibility bridge state: whether the accesskit bridge is compiled in,
//! how many windows currently build an accessibility tree, and the capability
//! entry the registry shows for it.

use vstd::prelude::*;

use crate::capabilities::{CapabilityStatus, opt_chars};
use crate::text::{append_decimal, append_str, decimal, owned};

verus! {

broadcast use vstd::string::group_string_axioms;

/// Point-in-time accessibility state.
#[derive(Clone, Debug, PartialEq, Eq)]
pub struct AccessibilitySnapshot {
    /// The accesskit platform bridge is compiled in.
    pub accesskit_linked: bool,
    /// At least one open window is building an accessibility tree, i.e.
    /// assistive technology is connected.
    pub bridge_enabled: bool,
    pub status: String,
    /// Windows whose accessibility tree is currently active.
    pub active_windows: usize,
    /// Windows currently open.
    pub total_windows: usize,
}

/// The status line of a snapshot.
pub open spec fn accessibility_status(
    bridge_available: bool,
    active_windows: nat,
    total_windows: nat,
) -> Seq<char> {
    if !bridge_available {
        "no accesskit bridge in the wasm gpui stack"@
    } else if active_windows > 0 {
        "accesskit bridge active in "@ + decimal(active_windows) + " of "@ + decimal(total_windows)
            + " windows"@
    } else {
        "accesskit bridge ready; no assistive technology connected"@
    }
}

/// Whether this build carries the accesskit bridge. This library is built
/// for native targets, which always carry it; only the wasm stack lacks one.
pub fn bridge_available() -> (r: bool)
    ensures
        r,
{
    true
}

/// Snapshot for the given bridge availability and window counts.
pub fn observe(bridge_available: bool, active_windows: usize, total_windows: usize) -> (r:
    AccessibilitySnapshot)
    ensures
        r.accesskit_linked == bridge_available,
        r.bridge_enabled == (bridge_available && active_windows > 0),
        r.active_windows == active_windows,
        r.total_windows == total_windows,
        r.status@ == accessibility_status(
            bridge_available,
            active_windows as nat,
            total_windows as nat,
        ),
{
    let bridge_enabled = bridge_available && active_windows > 0;
    let status = if !bridge_available {
        owned("no accesskit bridge in the wasm gpui stack")
    } else if bridge_enabled {
        let mut s = owned("accesskit bridge active in ");
        append_decimal(&mut s, active_windows as u64);
        append_str(&mut s, " of ");
        append_decimal(&mut s, total_windows as u64);
        append_str(&mut s, " windows");
        s
    } else {
        owned("accesskit bridge ready; no assistive technology connected")
    };
    AccessibilitySnapshot {
        accesskit_linked: bridge_available,
        bridge_enabled,
        status,
        active_windows,
        total_windows,
    }
}

impl Default for AccessibilitySnapshot {
    /// The snapshot before any window is open.
    fn default() -> (r: Self)
        ensures
            r.accesskit_linked,
            !r.bridge_enabled,
            r.active_windows == 0,
            r.total_windows == 0,
            r.status@ == accessibility_status(true, 0, 0),
    {
        observe(bridge_available(), 0, 0)
    }
}

/// Capability entry for the registry: the infrastructure is enabled wherever
/// the bridge exists; a missing bridge is unsupported, not degraded.
pub fn capability_status(bridge_available: bool) -> (r: CapabilityStatus)
    ensures
        r.supported == bridge_available,
        r.enabled == bridge_available,
        !r.degraded,
        r.last_error is None,
        opt_chars(r.reason) == Some(
            if bridge_available {
                "accesskit bridge activates per window when assistive technology connects"@
            } else {
                "accesskit bridge unavailable on wasm"@
            },
        ),
{
    if bridge_available {
        CapabilityStatus {
            supported: true,
            enabled: true,
            degraded: false,
            reason: Some(
                owned("accesskit bridge activates per window when assistive technology connects"),
            ),
            last_error: None,
        }
    } else {
        CapabilityStatus {
            supported: false,
            enabled: false,
            degraded: false,
            reason: Some(owned("accesskit bridge unavailable on wasm")),
            last_error: None,
        }
    }
}

} // verus!
