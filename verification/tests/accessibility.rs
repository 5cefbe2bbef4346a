use gpui_starter::services::accessibility::{
    bridge_available, capability_status, observe, AccessibilitySnapshot,
};

#[test]
fn default_snapshot_matches_compiled_bridge() {
    let snap = AccessibilitySnapshot::default();
    assert_eq!(snap.accesskit_linked, true);
    assert!(!snap.bridge_enabled);
    assert_eq!(snap.active_windows, 0);
    assert_eq!(snap.total_windows, 0);
    assert!(!snap.status.is_empty());
}

#[test]
fn observe_reports_active_windows() {
    let snap = observe(true, 2, 3);
    assert!(snap.accesskit_linked);
    assert!(snap.bridge_enabled);
    assert_eq!(snap.active_windows, 2);
    assert_eq!(snap.total_windows, 3);
    assert!(snap.status.contains("2 of 3"));
}

#[test]
fn observe_without_active_windows_reports_ready() {
    let snap = observe(true, 0, 1);
    assert!(snap.accesskit_linked);
    assert!(!snap.bridge_enabled);
    assert!(snap.status.contains("ready"));
}

#[test]
fn observe_without_bridge_never_enables() {
    let snap = observe(false, 1, 1);
    assert!(!snap.accesskit_linked);
    assert!(!snap.bridge_enabled);
    assert!(snap.status.contains("wasm"));
}

#[test]
fn capability_status_reflects_bridge_availability() {
    let native = capability_status(true);
    assert!(native.supported);
    assert!(native.enabled);
    assert!(!native.degraded);
    assert!(native.reason.is_some());

    let wasm = capability_status(false);
    assert!(!wasm.supported);
    assert!(!wasm.enabled);
    assert!(!wasm.degraded);
    assert!(wasm.reason.is_some());
}

#[test]
fn capability_matches_the_compiled_bridge() {
    let bridge = bridge_available();
    let status = capability_status(bridge);

    assert_eq!(
        status.supported, bridge,
        "supported must equal bridge availability"
    );
    assert_eq!(
        status.enabled, bridge,
        "enabled must never outrun the bridge"
    );
    assert!(!status.degraded, "init-time registration is never degraded");
    assert!(status.last_error.is_none());
    assert!(status.reason.is_some_and(|reason| !reason.is_empty()));
}

#[test]
fn capability_without_bridge_is_unsupported_not_degraded() {
    let status = capability_status(false);

    assert!(!status.supported);
    assert!(!status.enabled);
    assert!(!status.degraded);
}

#[test]
fn default_snapshot_reflects_compiled_bridge_without_windows() {
    let snap = AccessibilitySnapshot::default();

    assert_eq!(snap.accesskit_linked, bridge_available());
    assert!(!snap.bridge_enabled);
    assert_eq!(snap.active_windows, 0);
    assert_eq!(snap.total_windows, 0);
    assert!(!snap.status.is_empty());
}

#[test]
fn observe_status_lines_are_exact() {
    assert_eq!(
        observe(true, 12, 40).status,
        "accesskit bridge active in 12 of 40 windows"
    );
    assert_eq!(
        observe(true, 0, 0).status,
        "accesskit bridge ready; no assistive technology connected"
    );
    assert_eq!(
        observe(false, 3, 3).status,
        "no accesskit bridge in the wasm gpui stack"
    );
    assert_eq!(
        capability_status(false).reason.as_deref(),
        Some("accesskit bridge unavailable on wasm")
    );
}
