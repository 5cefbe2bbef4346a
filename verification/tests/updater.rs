use base64::Engine as _;
use ed25519_dalek::{Signer as _, SigningKey};
use sha2::Digest as _;

use gpui_starter::services::updater::{
    available_version, check_signature_bytes, download_failure_status, download_file_name,
    finish_download, plan_apply_update, plan_marker, plan_pending_swap, platform_key, report_verification,
    status_after_download, swap_refusal_status, swap_result_status, verify_ed25519_signature, ApplyPlan, DownloadOutcome,
    Ed25519Failure, PendingSwapPlan, PlatformAsset, UpdateSnapshot, UpdateStatus,
};

fn signing_key() -> SigningKey {
    SigningKey::from_bytes(&[7u8; 32])
}

fn signature_for(file: &[u8]) -> String {
    let digest = sha2::Sha256::digest(file);
    let sig = signing_key().sign(&digest);
    base64::engine::general_purpose::STANDARD.encode(sig.to_bytes())
}

fn public_key() -> [u8; 32] {
    signing_key().verifying_key().to_bytes()
}

#[test]
fn a_correct_signature_verifies() {
    let file = b"new release binary";
    let sig = signature_for(file);
    assert_eq!(verify_ed25519_signature(file, &sig, &public_key()), Ok(()));
}

#[test]
fn a_tampered_file_is_rejected() {
    let sig = signature_for(b"new release binary");
    let err = verify_ed25519_signature(b"evil binary", &sig, &public_key()).unwrap_err();
    assert!(err.starts_with("Ed25519 signature verification failed: "), "{err}");
}

#[test]
fn malformed_signatures_are_rejected() {
    let err = verify_ed25519_signature(b"x", "***", &public_key()).unwrap_err();
    assert!(err.starts_with("failed to decode base64 signature: "), "{err}");
    let short = base64::engine::general_purpose::STANDARD.encode([1u8; 10]);
    let err = verify_ed25519_signature(b"x", &short, &public_key()).unwrap_err();
    assert_eq!(err, "invalid signature length: expected 64 bytes, got 10");
}

#[test]
fn signature_helpers_map_each_failure() {
    assert_eq!(check_signature_bytes(Ok(vec![0u8; 64])), Ok(vec![0u8; 64]));
    assert_eq!(
        check_signature_bytes(Err("Invalid padding".into())),
        Err("failed to decode base64 signature: Invalid padding".to_string())
    );
    assert_eq!(
        report_verification(Err(Ed25519Failure::InvalidKey("bad point".into()))),
        Err("invalid updater public key: bad point".to_string())
    );
    assert_eq!(report_verification(Ok(())), Ok(()));
}

#[test]
fn finished_downloads_fail_closed() {
    let file = b"payload";
    let sig = signature_for(file);
    assert_eq!(
        finish_download("1.2.0".into(), "/u/app.bin".into(), file, &sig, &public_key()),
        DownloadOutcome::Success { version: "1.2.0".into(), path: "/u/app.bin".into() }
    );
    assert_eq!(
        finish_download("1.2.0".into(), "/u/app.bin".into(), file, "", &public_key()),
        DownloadOutcome::PermanentFailure("manifest asset has no signature".into())
    );
    assert!(matches!(
        finish_download("1.2.0".into(), "/u/app.bin".into(), b"other", &sig, &public_key()),
        DownloadOutcome::PermanentFailure(_)
    ));
}

#[test]
fn download_names_are_pinned_to_plain_segments() {
    assert_eq!(download_file_name("https://x.example/r/app-1.2.tar.gz"), "app-1.2.tar.gz");
    assert_eq!(download_file_name("https://x.example/r/"), "update.bin");
    assert_eq!(download_file_name("https://x.example/r/.."), "update.bin");
    assert_eq!(download_file_name("https://x.example/r/."), "update.bin");
    assert_eq!(download_file_name("https://x.example/r/a\\b"), "update.bin");
    assert_eq!(download_file_name("plain-name"), "plain-name");
}

fn downloaded(signature: Option<&str>) -> UpdateSnapshot {
    let mut snap = UpdateSnapshot::default();
    snap.status = UpdateStatus::Downloaded { version: "2.0.0".into(), path: "/u/app".into() };
    snap.cached_asset = signature.map(|s| PlatformAsset {
        url: "https://x/app".into(),
        signature: s.into(),
        size: 10,
    });
    snap
}

#[test]
fn applying_requires_a_download_and_a_signature() {
    assert_eq!(plan_apply_update(&UpdateSnapshot::default()), ApplyPlan::NotDownloaded);
    assert_eq!(
        plan_apply_update(&downloaded(None)),
        ApplyPlan::Refused("cannot schedule swap: no signature available".into())
    );
    assert_eq!(
        plan_apply_update(&downloaded(Some("c2ln"))),
        ApplyPlan::Schedule {
            version: "2.0.0".into(),
            source_path: "/u/app".into(),
            signature: "c2ln".into()
        }
    );
}

#[test]
fn pending_swaps_are_planned_from_the_marker() {
    assert_eq!(plan_pending_swap(None, Some("1"), Some("s")), PendingSwapPlan::MissingSource);
    assert_eq!(plan_pending_swap(Some("/p"), Some("1"), Some("")), PendingSwapPlan::Unsigned);
    assert_eq!(plan_pending_swap(Some("/p"), Some("1"), None), PendingSwapPlan::Unsigned);
    assert_eq!(
        plan_pending_swap(Some("/p"), None, Some("s")),
        PendingSwapPlan::Verify {
            source_path: "/p".into(),
            version: "unknown".into(),
            signature: "s".into()
        }
    );
    assert_eq!(
        swap_refusal_status("no signature in marker"),
        UpdateStatus::Error("pending swap refused: no signature in marker".into())
    );
    assert_eq!(swap_result_status(Ok(())), UpdateStatus::Idle);
    assert_eq!(
        swap_result_status(Err("failed to rename binary: busy".into())),
        UpdateStatus::Error("swap failed: failed to rename binary: busy".into())
    );
}

#[test]
fn download_status_transitions() {
    assert_eq!(
        available_version(&UpdateStatus::Available { version: "3.1".into(), notes: "n".into() })
            .as_deref(),
        Some("3.1")
    );
    assert_eq!(available_version(&UpdateStatus::Idle), None);
    assert_eq!(
        download_failure_status(true, "timeout".into()),
        UpdateStatus::Available { version: String::new(), notes: String::new() }
    );
    assert_eq!(
        download_failure_status(false, "timeout".into()),
        UpdateStatus::Error("timeout".into())
    );
}

#[test]
fn platform_keys_name_os_and_arch() {
    assert_eq!(platform_key("linux", "x86_64"), "linux-x86_64");
    assert_eq!(platform_key("macos", "aarch64"), "macos-aarch64");
    assert_eq!(platform_key("windows", "x86_64"), "windows-x86_64");
    assert_eq!(platform_key("freebsd", "x86_64"), "unknown-x86_64");
}

#[test]
fn marker_text_is_planned_from_its_fields() {
    assert_eq!(plan_marker("not json"), None);
    assert_eq!(plan_marker("{}"), Some(PendingSwapPlan::MissingSource));
    assert_eq!(
        plan_marker(r#"{"source_path":"/u/app","version":"2.0","signature":""}"#),
        Some(PendingSwapPlan::Unsigned)
    );
    assert_eq!(
        plan_marker(r#"{"source_path":"/u/app","signature":"c2ln","scheduled_at":"t"}"#),
        Some(PendingSwapPlan::Verify {
            source_path: "/u/app".into(),
            version: "unknown".into(),
            signature: "c2ln".into()
        })
    );
    assert_eq!(
        plan_marker(r#"{"source_path":7,"signature":"c2ln"}"#),
        Some(PendingSwapPlan::MissingSource)
    );
    assert_eq!(
        plan_marker(r#"{"source_path":"/p","version":3,"signature":"s"}"#),
        Some(PendingSwapPlan::Verify {
            source_path: "/p".into(),
            version: "unknown".into(),
            signature: "s".into()
        })
    );
}

#[test]
fn download_outcomes_become_statuses() {
    assert_eq!(
        status_after_download(DownloadOutcome::Success {
            version: "1.2.0".into(),
            path: "/tmp/app-1.2.0".into(),
        }),
        UpdateStatus::Downloaded { version: "1.2.0".into(), path: "/tmp/app-1.2.0".into() }
    );
    assert_eq!(
        status_after_download(DownloadOutcome::PermanentFailure("bad signature".into())),
        UpdateStatus::Error("bad signature".into())
    );
}
