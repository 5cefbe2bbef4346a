//! Self-update: the update state machine's states, the decisions taken when
//! an update is applied or a pending swap is found at launch, the download
//! file name, and Ed25519 verification of a downloaded update.

use std::collections::HashMap;

use base64::Engine as _;
use ed25519_dalek::Verifier as _;
use sha2::Digest as _;

use vstd::prelude::*;

use crate::capabilities::opt_chars;
use crate::text::{
    append_decimal, append_str, decimal, from_chars, owned, str_eq, to_chars,
};

verus! {

broadcast use vstd::string::group_string_axioms;

pub const MAX_UPDATE_RETRIES: u32 = 3;

pub const RETRY_BASE_DELAY_SECS: u64 = 30;

pub const STARTUP_CHECK_DELAY_SECS: u64 = 5;

pub const PERIODIC_CHECK_INTERVAL_SECS: u64 = 14400;

/// Where the updater is.
#[derive(Clone, Debug, PartialEq, Eq)]
pub enum UpdateStatus {
    Idle,
    Checking,
    UpToDate,
    Available { version: String, notes: String },
    /// Percent done, 0 to 100.
    Downloading { progress: u32 },
    Downloaded { version: String, path: String },
    ReadyToInstall,
    Error(String),
}

impl Default for UpdateStatus {
    fn default() -> (r: Self)
        ensures
            r == UpdateStatus::Idle,
    {
        UpdateStatus::Idle
    }
}

/// One platform's downloadable build.
#[derive(Clone, Debug, PartialEq, Eq)]
pub struct PlatformAsset {
    pub url: String,
    /// Base64 Ed25519 signature over the SHA-256 of the file.
    pub signature: String,
    pub size: u64,
}

/// The release manifest.
#[derive(Clone, Debug)]
pub struct UpdateManifest {
    pub version: String,
    pub release_notes: String,
    pub platforms: HashMap<String, PlatformAsset>,
}

/// Updater state shown in the UI, with the manifest and asset the last check
/// fetched.
#[derive(Clone, Debug)]
pub struct UpdateSnapshot {
    pub status: UpdateStatus,
    pub current_version: String,
    pub last_check: Option<String>,
    pub update_channel: String,
    pub check_retry_count: u32,
    pub download_retry_count: u32,
    pub cached_manifest: Option<UpdateManifest>,
    pub cached_asset: Option<PlatformAsset>,
}

impl Default for UpdateSnapshot {
    fn default() -> (r: Self)
        ensures
            r.status == UpdateStatus::Idle,
            r.current_version@.len() == 0,
            r.last_check is None,
            r.update_channel@.len() == 0,
            r.check_retry_count == 0,
            r.download_retry_count == 0,
            r.cached_manifest is None,
            r.cached_asset is None,
    {
        UpdateSnapshot {
            status: UpdateStatus::Idle,
            current_version: String::new(),
            last_check: None,
            update_channel: String::new(),
            check_retry_count: 0,
            download_retry_count: 0,
            cached_manifest: None,
            cached_asset: None,
        }
    }
}

/// What applying a downloaded update comes to.
#[derive(Debug, PartialEq, Eq)]
pub enum ApplyPlan {
    /// Nothing has been downloaded; applying does nothing.
    NotDownloaded,
    /// The download cannot be installed; the updater shows this error.
    Refused(String),
    /// Write a swap marker so the next launch installs the file, after
    /// re-verifying it against `signature`.
    Schedule { version: String, source_path: String, signature: String },
}

/// The signature cached with the last fetched asset, or empty.
pub open spec fn cached_signature(s: UpdateSnapshot) -> Seq<char> {
    match s.cached_asset {
        Some(a) => a.signature@,
        None => Seq::empty(),
    }
}

/// Decide what applying the current download means. A swap is scheduled
/// only for a downloaded update with a cached signature: without one there
/// is nothing to re-verify the file against at install time.
pub fn plan_apply_update(snapshot: &UpdateSnapshot) -> (r: ApplyPlan)
    ensures
        match snapshot.status {
            UpdateStatus::Downloaded { version, path } => if cached_signature(*snapshot).len()
                == 0 {
                r matches ApplyPlan::Refused(m) && m@
                    == "cannot schedule swap: no signature available"@
            } else {
                r matches ApplyPlan::Schedule { version: v, source_path: p, signature: g } && v@
                    == version@ && p@ == path@ && g@ == cached_signature(*snapshot)
            },
            _ => r == ApplyPlan::NotDownloaded,
        },
{
    match &snapshot.status {
        UpdateStatus::Downloaded { version, path } => {
            let signature = match &snapshot.cached_asset {
                Some(asset) => owned(asset.signature.as_str()),
                None => String::new(),
            };
            if signature.as_str().is_empty() {
                ApplyPlan::Refused(owned("cannot schedule swap: no signature available"))
            } else {
                ApplyPlan::Schedule {
                    version: owned(version.as_str()),
                    source_path: owned(path.as_str()),
                    signature,
                }
            }
        },
        _ => ApplyPlan::NotDownloaded,
    }
}

/// What a pending-swap marker found at launch comes to.
#[derive(Debug, PartialEq, Eq)]
pub enum PendingSwapPlan {
    /// The marker names no file; it is dropped.
    MissingSource,
    /// The marker carries no signature; it is dropped and the swap refused.
    Unsigned,
    /// Re-verify `source_path` against `signature`, then swap it in.
    Verify { source_path: String, version: String, signature: String },
}

/// The characters of an optional text.
pub open spec fn opt_text(s: Option<&str>) -> Option<Seq<char>> {
    match s {
        Some(t) => Some(t@),
        None => None,
    }
}

/// `p` is the plan for a marker with these (string) fields: no source means
/// the marker is dropped; no or an empty signature refuses the swap;
/// otherwise the source is verified, the version defaulting to `unknown`.
pub open spec fn pending_swap_plan_is(
    p: PendingSwapPlan,
    source_path: Option<Seq<char>>,
    version: Option<Seq<char>>,
    signature: Option<Seq<char>>,
) -> bool {
    match source_path {
        None => p == PendingSwapPlan::MissingSource,
        Some(sp) => match signature {
            Some(g) if g.len() > 0 => p matches PendingSwapPlan::Verify {
                source_path: rp,
                version: rv,
                signature: rg,
            } && rp@ == sp && rg@ == g && rv@ == match version {
                Some(v) => v,
                None => "unknown"@,
            },
            _ => p == PendingSwapPlan::Unsigned,
        },
    }
}

/// Decide what to do with the fields read from a pending-swap marker. The
/// swap fails closed: an unsigned marker is never installed.
pub fn plan_pending_swap(
    source_path: Option<&str>,
    version: Option<&str>,
    signature: Option<&str>,
) -> (r: PendingSwapPlan)
    ensures
        pending_swap_plan_is(r, opt_text(source_path), opt_text(version), opt_text(signature)),
{
    match source_path {
        None => PendingSwapPlan::MissingSource,
        Some(p) => match signature {
            Some(g) if !g.is_empty() => PendingSwapPlan::Verify {
                source_path: owned(p),
                version: match version {
                    Some(v) => owned(v),
                    None => owned("unknown"),
                },
                signature: owned(g),
            },
            _ => PendingSwapPlan::Unsigned,
        },
    }
}

/// What `serde_json::from_str::<serde_json::Value>` makes of `text`, looked
/// up at `key`: `None` when the text is not JSON; otherwise the field's text
/// when the value has that field and it is a string, else `Some(None)`.
pub uninterp spec fn json_str_field(text: Seq<char>, key: Seq<char>) -> Option<Option<Seq<char>>>;

/// `serde_json::from_str::<serde_json::Value>`, then `Value::get(key)` and
/// `Value::as_str`.
#[verifier::external_body]
fn json_text_str_field(text: &str, key: &str) -> (r: Option<Option<String>>)
    ensures
        match r {
            None => json_str_field(text@, key@) is None,
            Some(f) => json_str_field(text@, key@) == Some(opt_chars(f)),
        },
{
    match serde_json::from_str::<serde_json::Value>(text) {
        Ok(v) => match v.get(key) {
            Some(f) => Some(f.as_str().map(str::to_string)),
            None => Some(None),
        },
        Err(_) => None,
    }
}

fn as_opt_str(s: &Option<String>) -> (r: Option<&str>)
    ensures
        opt_text(r) == opt_chars(*s),
{
    match s {
        Some(t) => Some(t.as_str()),
        None => None,
    }
}

/// The plan for the pending-swap marker file whose text is `text`: `None`
/// when the text is not JSON (the marker is corrupt and is dropped), else
/// the plan for its `source_path`, `version` and `signature` string fields.
pub fn plan_marker(text: &str) -> (r: Option<PendingSwapPlan>)
    ensures
        match (
            json_str_field(text@, "source_path"@),
            json_str_field(text@, "version"@),
            json_str_field(text@, "signature"@),
        ) {
            (Some(sp), Some(v), Some(g)) => r matches Some(p) && pending_swap_plan_is(p, sp, v, g),
            _ => r is None,
        },
{
    let source_path = match json_text_str_field(text, "source_path") {
        Some(f) => f,
        None => return None,
    };
    let version = match json_text_str_field(text, "version") {
        Some(f) => f,
        None => return None,
    };
    let signature = match json_text_str_field(text, "signature") {
        Some(f) => f,
        None => return None,
    };
    Some(plan_pending_swap(as_opt_str(&source_path), as_opt_str(&version), as_opt_str(&signature)))
}

/// The status shown when a pending swap is refused for `reason`.
pub fn swap_refusal_status(reason: &str) -> (r: UpdateStatus)
    ensures
        r matches UpdateStatus::Error(m) && m@ == "pending swap refused: "@ + reason@,
{
    let mut m = owned("pending swap refused: ");
    append_str(&mut m, reason);
    UpdateStatus::Error(m)
}

/// The status after the binary swap ran: idle on success, else the error.
pub fn swap_result_status(result: Result<(), String>) -> (r: UpdateStatus)
    ensures
        match result {
            Ok(()) => r == UpdateStatus::Idle,
            Err(e) => r matches UpdateStatus::Error(m) && m@ == "swap failed: "@ + e@,
        },
{
    match result {
        Ok(()) => UpdateStatus::Idle,
        Err(e) => {
            let mut m = owned("swap failed: ");
            append_str(&mut m, e.as_str());
            UpdateStatus::Error(m)
        },
    }
}

/// `k` is the index of the last `c` in `s`.
pub open spec fn is_last_index_of(s: Seq<char>, c: char, k: int) -> bool {
    0 <= k < s.len() && s[k] == c && forall|j: int| k < j < s.len() ==> s[j] != c
}

/// The text after the last `/` of a URL (all of it without one).
pub open spec fn last_url_segment(url: Seq<char>) -> Seq<char> {
    if exists|k: int| is_last_index_of(url, '/', k) {
        url.skip((choose|k: int| is_last_index_of(url, '/', k)) + 1)
    } else {
        url
    }
}

/// The name a download is saved under: the URL's last segment, unless it is
/// empty, `.`, `..` or holds a `\`, which could point outside the updates
/// directory; then `update.bin`.
pub open spec fn download_name(url: Seq<char>) -> Seq<char> {
    let raw = last_url_segment(url);
    if raw.len() == 0 || raw == seq!['.'] || raw == seq!['.', '.'] || raw.contains('\\') {
        "update.bin"@
    } else {
        raw
    }
}

/// The file name for a download from `url`, pinned to a plain segment.
pub fn download_file_name(url: &str) -> (r: String)
    ensures
        r@ == download_name(url@),
{
    let u = to_chars(url);
    let mut i: usize = u.len();
    while i > 0 && u[i - 1] != '/'
        invariant
            i <= u.len(),
            forall|j: int| i <= j < u.len() ==> u@[j] != '/',
        decreases i,
    {
        i = i - 1;
    }
    proof {
        if i > 0 {
            assert(is_last_index_of(u@, '/', i - 1));
            let k = choose|k: int| is_last_index_of(u@, '/', k);
            assert(k == i - 1) by {
                if k < i - 1 {
                    assert(u@[i - 1] != '/');
                }
            }
        } else {
            assert(!exists|k: int| is_last_index_of(u@, '/', k));
        }
    }
    let mut raw: Vec<char> = Vec::new();
    let mut j: usize = i;
    while j < u.len()
        invariant
            i <= j <= u.len(),
            raw@ == u@.subrange(i as int, j as int),
        decreases u.len() - j,
    {
        raw.push(u[j]);
        assert(u@.subrange(i as int, j + 1) =~= u@.subrange(i as int, j as int).push(
            u@[j as int],
        ));
        j = j + 1;
    }
    assert(raw@ =~= last_url_segment(u@)) by {
        if i > 0 {
            assert(raw@ =~= u@.skip(i as int));
        } else {
            assert(raw@ =~= u@);
        }
    }
    let is_dot = raw.len() == 1 && raw[0] == '.';
    let is_dot_dot = raw.len() == 2 && raw[0] == '.' && raw[1] == '.';
    proof {
        if is_dot {
            assert(raw@ =~= seq!['.']);
        } else {
            assert(raw@ != seq!['.']) by {
                if raw@ == seq!['.'] {
                    assert(raw@.len() == 1);
                }
            }
        }
        if is_dot_dot {
            assert(raw@ =~= seq!['.', '.']);
        } else {
            assert(raw@ != seq!['.', '.']) by {
                if raw@ == seq!['.', '.'] {
                    assert(raw@.len() == 2);
                }
            }
        }
    }
    if raw.len() == 0 || is_dot || is_dot_dot || crate::text::contains_char(raw.as_slice(), '\\') {
        owned("update.bin")
    } else {
        from_chars(raw.as_slice())
    }
}

// ---------------------------------------------------------------------------
// Signature verification
// ---------------------------------------------------------------------------

/// What standard-alphabet, padded base64 decoding gives for `input`: the
/// bytes, or the decoder's error message.
pub uninterp spec fn base64_standard_decode(input: Seq<char>) -> Result<Seq<u8>, Seq<char>>;

/// Decode `input` with base64's standard engine
/// (`base64::engine::general_purpose::STANDARD.decode`); the error becomes
/// its message. The result is named, not restated: it is whatever the
/// engine gives for this input.
#[verifier::external_body]
fn base64_decode_standard(input: &str) -> (r: Result<Vec<u8>, String>)
    ensures
        match r {
            Ok(v) => base64_standard_decode(input@) == Ok::<Seq<u8>, Seq<char>>(v@),
            Err(m) => base64_standard_decode(input@) == Err::<Seq<u8>, Seq<char>>(m@),
        },
{
    base64::engine::general_purpose::STANDARD.decode(input).map_err(|e| e.to_string())
}

/// The SHA-256 digest of `data`.
pub uninterp spec fn sha256(data: Seq<u8>) -> Seq<u8>;

/// SHA-256 of `data` (`sha2::Sha256::digest`): a 32-byte digest, named
/// rather than restated.
#[verifier::external_body]
fn sha256_digest(data: &[u8]) -> (r: Vec<u8>)
    ensures
        r@ == sha256(data@),
        r@.len() == 32,
{
    sha2::Sha256::digest(data).to_vec()
}

/// Why an Ed25519 check failed.
#[derive(Debug, PartialEq, Eq)]
pub enum Ed25519Failure {
    /// The public key bytes are not a valid curve point.
    InvalidKey(String),
    /// The signature does not verify for the message under the key.
    Rejected(String),
}

/// The outcome of checking `signature` over `message` under `public_key`:
/// `Ok`, or which step failed (`true` for the key) and the library's message.
pub uninterp spec fn ed25519_check(public_key: Seq<u8>, message: Seq<u8>, signature: Seq<u8>) -> Result<
    (),
    (bool, Seq<char>),
>;

pub open spec fn failure_view(f: Ed25519Failure) -> (bool, Seq<char>) {
    match f {
        Ed25519Failure::InvalidKey(m) => (true, m@),
        Ed25519Failure::Rejected(m) => (false, m@),
    }
}

/// Verify an Ed25519 `signature` over `message` with ed25519-dalek: the key
/// is decoded with `VerifyingKey::from_bytes` and the signature checked with
/// `Verifier::verify` (`Signature::from_bytes` cannot fail). Each failure
/// keeps the library's message. The outcome is named, not restated.
#[verifier::external_body]
fn ed25519_verify(public_key: &[u8; 32], message: &[u8], signature: &[u8]) -> (r: Result<
    (),
    Ed25519Failure,
>)
    requires
        signature@.len() == 64,
    ensures
        match r {
            Ok(()) => ed25519_check(public_key@, message@, signature@) == Ok::<
                (),
                (bool, Seq<char>),
            >(()),
            Err(f) => ed25519_check(public_key@, message@, signature@) == Err::<
                (),
                (bool, Seq<char>),
            >(failure_view(f)),
        },
{
    let key = ed25519_dalek::VerifyingKey::from_bytes(public_key)
        .map_err(|e| Ed25519Failure::InvalidKey(e.to_string()))?;
    let sig_array: [u8; 64] = signature.try_into().unwrap();
    let sig = ed25519_dalek::Signature::from_bytes(&sig_array);
    key.verify(message, &sig).map_err(|e| Ed25519Failure::Rejected(e.to_string()))
}

/// The signature bytes a decoding result yields: exactly 64 bytes, or the
/// message the check fails with.
pub open spec fn signature_bytes_outcome(decoded: Result<Seq<u8>, Seq<char>>) -> Result<
    Seq<u8>,
    Seq<char>,
> {
    match decoded {
        Err(m) => Err("failed to decode base64 signature: "@ + m),
        Ok(b) => if b.len() == 64 {
            Ok(b)
        } else {
            Err("invalid signature length: expected 64 bytes, got "@ + decimal(b.len()))
        },
    }
}

/// Check a decoded signature: it must be exactly 64 bytes.
pub fn check_signature_bytes(decoded: Result<Vec<u8>, String>) -> (r: Result<Vec<u8>, String>)
    ensures
        match r {
            Ok(v) => signature_bytes_outcome(
                match decoded {
                    Ok(b) => Ok(b@),
                    Err(m) => Err(m@),
                },
            ) == Ok::<Seq<u8>, Seq<char>>(v@),
            Err(m) => signature_bytes_outcome(
                match decoded {
                    Ok(b) => Ok(b@),
                    Err(m) => Err(m@),
                },
            ) == Err::<Seq<u8>, Seq<char>>(m@),
        },
{
    match decoded {
        Err(m) => {
            let mut msg = owned("failed to decode base64 signature: ");
            append_str(&mut msg, m.as_str());
            Err(msg)
        },
        Ok(b) => {
            if b.len() == 64 {
                Ok(b)
            } else {
                let mut msg = owned("invalid signature length: expected 64 bytes, got ");
                append_decimal(&mut msg, b.len() as u64);
                Err(msg)
            }
        },
    }
}

/// The message an Ed25519 outcome is reported with.
pub open spec fn verification_outcome(check: Result<(), (bool, Seq<char>)>) -> Result<
    (),
    Seq<char>,
> {
    match check {
        Ok(()) => Ok(()),
        Err((true, m)) => Err("invalid updater public key: "@ + m),
        Err((false, m)) => Err("Ed25519 signature verification failed: "@ + m),
    }
}

/// Turn an Ed25519 outcome into the updater's result.
pub fn report_verification(check: Result<(), Ed25519Failure>) -> (r: Result<(), String>)
    ensures
        match r {
            Ok(()) => verification_outcome(
                match check {
                    Ok(()) => Ok(()),
                    Err(f) => Err(failure_view(f)),
                },
            ) == Ok::<(), Seq<char>>(()),
            Err(m) => verification_outcome(
                match check {
                    Ok(()) => Ok(()),
                    Err(f) => Err(failure_view(f)),
                },
            ) == Err::<(), Seq<char>>(m@),
        },
{
    match check {
        Ok(()) => Ok(()),
        Err(Ed25519Failure::InvalidKey(m)) => {
            let mut msg = owned("invalid updater public key: ");
            append_str(&mut msg, m.as_str());
            Err(msg)
        },
        Err(Ed25519Failure::Rejected(m)) => {
            let mut msg = owned("Ed25519 signature verification failed: ");
            append_str(&mut msg, m.as_str());
            Err(msg)
        },
    }
}

/// The outcome of verifying a downloaded file's bytes against a base64
/// signature over their SHA-256, under `public_key`.
pub open spec fn update_signature_outcome(
    file: Seq<u8>,
    signature_b64: Seq<char>,
    public_key: Seq<u8>,
) -> Result<(), Seq<char>> {
    match signature_bytes_outcome(base64_standard_decode(signature_b64)) {
        Err(m) => Err(m),
        Ok(sig) => verification_outcome(ed25519_check(public_key, sha256(file), sig)),
    }
}

/// Verify the base64 Ed25519 `signature_b64` over the SHA-256 of
/// `file_bytes` with the updater's `public_key`.
pub fn verify_ed25519_signature(file_bytes: &[u8], signature_b64: &str, public_key: &[u8; 32]) -> (r:
    Result<(), String>)
    ensures
        match r {
            Ok(()) => update_signature_outcome(file_bytes@, signature_b64@, public_key@) == Ok::<
                (),
                Seq<char>,
            >(()),
            Err(m) => update_signature_outcome(file_bytes@, signature_b64@, public_key@) == Err::<
                (),
                Seq<char>,
            >(m@),
        },
{
    let decoded = base64_decode_standard(signature_b64);
    let sig = match check_signature_bytes(decoded) {
        Ok(s) => s,
        Err(m) => return Err(m),
    };
    let digest = sha256_digest(file_bytes);
    let check = ed25519_verify(public_key, digest.as_slice(), sig.as_slice());
    report_verification(check)
}

/// How a finished download ends: installable, or refused for good (a
/// verification failure is never retried).
#[derive(Debug, PartialEq, Eq)]
pub enum DownloadOutcome {
    Success { version: String, path: String },
    PermanentFailure(String),
}

/// The outcome of a download of `version` saved at `path`, whose bytes are
/// `file`, for an asset with signature `signature_b64`.
pub open spec fn download_outcome_spec(
    version: Seq<char>,
    path: Seq<char>,
    file: Seq<u8>,
    signature_b64: Seq<char>,
    public_key: Seq<u8>,
) -> Result<(Seq<char>, Seq<char>), Seq<char>> {
    if signature_b64.len() == 0 {
        Err("manifest asset has no signature"@)
    } else {
        match update_signature_outcome(file, signature_b64, public_key) {
            Ok(()) => Ok((version, path)),
            Err(m) => Err(m),
        }
    }
}

pub open spec fn download_outcome_view(o: DownloadOutcome) -> Result<(Seq<char>, Seq<char>), Seq<char>> {
    match o {
        DownloadOutcome::Success { version, path } => Ok((version@, path@)),
        DownloadOutcome::PermanentFailure(m) => Err(m@),
    }
}

/// Decide a finished download: fail closed when the manifest gave no
/// signature, else install only what verifies.
pub fn finish_download(
    version: String,
    path: String,
    file_bytes: &[u8],
    signature_b64: &str,
    public_key: &[u8; 32],
) -> (r: DownloadOutcome)
    ensures
        download_outcome_view(r) == download_outcome_spec(
            version@,
            path@,
            file_bytes@,
            signature_b64@,
            public_key@,
        ),
{
    if signature_b64.is_empty() {
        return DownloadOutcome::PermanentFailure(owned("manifest asset has no signature"));
    }
    match verify_ed25519_signature(file_bytes, signature_b64, public_key) {
        Ok(()) => DownloadOutcome::Success { version, path },
        Err(m) => DownloadOutcome::PermanentFailure(m),
    }
}

/// The status a finished download leaves: downloaded (ready to apply) on
/// success; a permanent failure is shown as the error and never retried.
pub fn status_after_download(outcome: DownloadOutcome) -> (r: UpdateStatus)
    ensures
        match outcome {
            DownloadOutcome::Success { version, path } => r matches UpdateStatus::Downloaded {
                version: v,
                path: p,
            } && v@ == version@ && p@ == path@,
            DownloadOutcome::PermanentFailure(e) => r matches UpdateStatus::Error(m) && m@ == e@,
        },
{
    match outcome {
        DownloadOutcome::Success { version, path } => UpdateStatus::Downloaded { version, path },
        DownloadOutcome::PermanentFailure(e) => UpdateStatus::Error(e),
    }
}

/// The version a download would fetch: only an available update has one.
pub fn available_version(status: &UpdateStatus) -> (r: Option<String>)
    ensures
        opt_chars(r) == match *status {
            UpdateStatus::Available { version, .. } => Some(version@),
            _ => None,
        },
{
    match status {
        UpdateStatus::Available { version, .. } => Some(owned(version.as_str())),
        _ => None,
    }
}

/// The status after a download failed for a reason worth retrying: back to
/// an (empty) available update while a retry is scheduled, else the error.
pub fn download_failure_status(retry_scheduled: bool, error: String) -> (r: UpdateStatus)
    ensures
        retry_scheduled ==> (r matches UpdateStatus::Available { version, notes }
            && version@.len() == 0 && notes@.len() == 0),
        !retry_scheduled ==> (r matches UpdateStatus::Error(m) && m@ == error@),
{
    if retry_scheduled {
        UpdateStatus::Available { version: String::new(), notes: String::new() }
    } else {
        UpdateStatus::Error(error)
    }
}

/// The operating-system part of a platform key.
pub open spec fn platform_os(target_os: Seq<char>) -> Seq<char> {
    if target_os == "macos"@ {
        "macos"@
    } else if target_os == "linux"@ {
        "linux"@
    } else if target_os == "windows"@ {
        "windows"@
    } else {
        "unknown"@
    }
}

/// The manifest key of this build's asset, such as `linux-x86_64`, for the
/// target's operating-system and architecture names.
pub fn platform_key(target_os: &str, arch: &str) -> (r: String)
    ensures
        r@ == platform_os(target_os@) + "-"@ + arch@,
{
    let os = if str_eq(target_os, "macos") {
        "macos"
    } else if str_eq(target_os, "linux") {
        "linux"
    } else if str_eq(target_os, "windows") {
        "windows"
    } else {
        "unknown"
    };
    let mut k = owned(os);
    append_str(&mut k, "-");
    append_str(&mut k, arch);
    k
}

/// Law: a file is accepted only when its signature decodes to exactly 64
/// bytes and the Ed25519 check of its SHA-256 under the key succeeds.
pub proof fn lemma_accept_only_verified(file: Seq<u8>, signature_b64: Seq<char>, public_key: Seq<u8>)
    ensures
        update_signature_outcome(file, signature_b64, public_key) is Ok ==> (
        base64_standard_decode(signature_b64) matches Ok(sig) && sig.len() == 64 && ed25519_check(
            public_key,
            sha256(file),
            sig,
        ) is Ok),
{
}

} // verus!
