//! Persisted app configuration: the defaults and canonical values the store
//! normalizes to, and the bookkeeping that decides when a save is written.
//! (Reading and atomically writing the state file is done by the
//! application around this library.)

use vstd::prelude::*;

use crate::capabilities::opt_chars;
use crate::text::{owned, str_eq};

verus! {

broadcast use vstd::string::group_string_axioms;

/// Current version of the persisted config format.
pub const APP_STATE_VERSION: u32 = 1;

pub const LOCALE_EN: &'static str = "en";

pub const LOCALE_ZH_CN: &'static str = "zh-CN";

/// Upper bound for the state file: a larger file is corrupt by definition
/// and is quarantined without parsing.
pub const MAX_STATE_FILE_BYTES: u64 = 1048576;

/// Wait after the last config mutation before flushing.
pub const DEBOUNCE_MS: u64 = 300;

/// Default for flags that are on unless the file says otherwise.
pub fn default_true() -> (r: bool)
    ensures
        r,
{
    true
}

/// Default update channel.
pub fn default_stable() -> (r: String)
    ensures
        r@ == "stable"@,
{
    owned("stable")
}

pub open spec fn normalized_version_of(v: u32) -> u32 {
    if v == 0 {
        APP_STATE_VERSION
    } else {
        v
    }
}

pub open spec fn is_supported_locale(l: Seq<char>) -> bool {
    l == "en"@ || l == "zh-CN"@
}

pub open spec fn normalized_locale_of(l: Seq<char>) -> Seq<char> {
    if is_supported_locale(l) {
        l
    } else {
        "en"@
    }
}

/// Canonical config version: a missing (zero) version is the current one.
pub fn normalized_version(version: u32) -> (r: u32)
    ensures
        r == normalized_version_of(version),
{
    if version == 0 {
        APP_STATE_VERSION
    } else {
        version
    }
}

/// Canonical locale: one the app ships translations for, else English.
pub fn normalized_locale(locale: &str) -> (r: String)
    ensures
        r@ == normalized_locale_of(locale@),
{
    if str_eq(locale, LOCALE_EN) || str_eq(locale, LOCALE_ZH_CN) {
        owned(locale)
    } else {
        owned(LOCALE_EN)
    }
}

/// Whether a state file of `len` bytes must be quarantined unread.
pub fn exceeds_state_file_cap(len: u64) -> (r: bool)
    ensures
        r == (len > MAX_STATE_FILE_BYTES),
{
    len > MAX_STATE_FILE_BYTES
}

/// Law: normalization is idempotent, so normalizing valid values (such as
/// the defaults) changes nothing.
pub proof fn lemma_normalization_idempotent(version: u32, locale: Seq<char>)
    ensures
        normalized_version_of(normalized_version_of(version)) == normalized_version_of(version),
        normalized_locale_of(normalized_locale_of(locale)) == normalized_locale_of(locale),
        normalized_version_of(APP_STATE_VERSION) == APP_STATE_VERSION,
        normalized_locale_of("en"@) == "en"@,
        is_supported_locale(normalized_locale_of(locale)),
{
}

// ---------------------------------------------------------------------------
// Save bookkeeping
// ---------------------------------------------------------------------------

/// What the store knows about persistence: whether the config changed since
/// the last successful write, the bytes of that write, and the last save
/// error.
#[derive(Debug)]
pub struct SaveState {
    pub dirty: bool,
    pub last_flushed_bytes: Vec<u8>,
    pub last_save_error: Option<String>,
}

/// The abstract save state: dirty flag, last written bytes, last error.
pub struct SaveView {
    pub dirty: bool,
    pub flushed: Seq<u8>,
    pub error: Option<Seq<char>>,
}

impl View for SaveState {
    type V = SaveView;

    open spec fn view(&self) -> SaveView {
        SaveView {
            dirty: self.dirty,
            flushed: self.last_flushed_bytes@,
            error: opt_chars(self.last_save_error),
        }
    }
}

/// Preparing a flush with the current config's serialization: the new
/// state and the bytes to write, if any.
pub open spec fn spec_prepare(s: SaveView, serialized: Result<Seq<u8>, Seq<char>>) -> (
    SaveView,
    Option<Seq<u8>>,
) {
    match serialized {
        Err(e) => (SaveView { error: Some(e), ..s }, None),
        Ok(b) => if b == s.flushed {
            (SaveView { dirty: false, ..s }, None)
        } else {
            (s, Some(b))
        },
    }
}

/// Committing a write of `written` while the config now serializes to
/// `current`: the new state and whether another flush must be scheduled.
pub open spec fn spec_commit(
    s: SaveView,
    written: Seq<u8>,
    current: Seq<u8>,
    result: Result<(), Seq<char>>,
) -> (SaveView, bool) {
    match result {
        Ok(()) => if current == written {
            (SaveView { dirty: false, flushed: written, error: None }, false)
        } else {
            (SaveView { dirty: true, flushed: s.flushed, error: None }, true)
        },
        Err(e) => (SaveView { error: Some(e), ..s }, false),
    }
}

fn bytes_eq(a: &[u8], b: &[u8]) -> (r: bool)
    ensures
        r == (a@ == b@),
{
    if a.len() != b.len() {
        return false;
    }
    let mut i: usize = 0;
    while i < a.len()
        invariant
            i <= a.len(),
            a.len() == b.len(),
            forall|j: int| 0 <= j < i ==> a@[j] == b@[j],
        decreases a.len() - i,
    {
        if a[i] != b[i] {
            return false;
        }
        i = i + 1;
    }
    assert(a@ =~= b@);
    true
}

pub open spec fn bytes_result(r: Result<Vec<u8>, String>) -> Result<Seq<u8>, Seq<char>> {
    match r {
        Ok(b) => Ok(b@),
        Err(e) => Err(e@),
    }
}

pub open spec fn unit_result(r: Result<(), String>) -> Result<(), Seq<char>> {
    match r {
        Ok(()) => Ok(()),
        Err(e) => Err(e@),
    }
}

impl SaveState {
    /// Bookkeeping right after loading: clean, with the loaded config's
    /// bytes as the last write, so an unchanged config is never rewritten.
    pub fn new(initial_bytes: Vec<u8>) -> (r: Self)
        ensures
            !r@.dirty,
            r@.flushed == initial_bytes@,
            r@.error is None,
    {
        SaveState { dirty: false, last_flushed_bytes: initial_bytes, last_save_error: None }
    }

    /// Record that the config changed.
    pub fn mark_dirty(&mut self)
        ensures
            final(self)@ == (SaveView { dirty: true, ..old(self)@ }),
    {
        self.dirty = true;
    }

    /// Decide whether a flush must write: `None` when serialization failed
    /// (the error is kept) or the bytes equal the last write (the state
    /// becomes clean); otherwise the bytes to write.
    pub fn prepare_flush(&mut self, serialized: Result<Vec<u8>, String>) -> (r: Option<Vec<u8>>)
        ensures
            (final(self)@, match r {
                Some(b) => Some(b@),
                None => None,
            }) == spec_prepare(old(self)@, bytes_result(serialized)),
    {
        match serialized {
            Err(e) => {
                self.last_save_error = Some(e);
                None
            },
            Ok(bytes) => {
                if bytes_eq(bytes.as_slice(), self.last_flushed_bytes.as_slice()) {
                    self.dirty = false;
                    None
                } else {
                    Some(bytes)
                }
            },
        }
    }

    /// Apply a write's outcome. `true` means the write was stale (the config
    /// changed meanwhile) and another flush must be scheduled.
    pub fn commit_flush(&mut self, written: Vec<u8>, current: &[u8], result: Result<(), String>) -> (r:
        bool)
        ensures
            (final(self)@, r) == spec_commit(old(self)@, written@, current@, unit_result(result)),
    {
        match result {
            Ok(()) => {
                self.last_save_error = None;
                if bytes_eq(current, written.as_slice()) {
                    self.dirty = false;
                    self.last_flushed_bytes = written;
                    false
                } else {
                    self.dirty = true;
                    true
                }
            },
            Err(e) => {
                self.last_save_error = Some(e);
                false
            },
        }
    }
}

/// Law: once a write of the current bytes is committed, preparing another
/// flush of the same config writes nothing and leaves the store clean.
pub proof fn lemma_no_redundant_write(s: SaveView, bytes: Seq<u8>)
    ensures
        ({
            let (after, again) = spec_commit(s, bytes, bytes, Ok(()));
            let (after2, write) = spec_prepare(after, Ok(bytes));
            !again && write is None && !after2.dirty
        }),
{
}

/// Law: a write that raced with a mutation re-arms the flush and keeps the
/// store dirty, so the newer config is never lost.
pub proof fn lemma_stale_write_rearms(s: SaveView, written: Seq<u8>, current: Seq<u8>)
    requires
        written != current,
    ensures
        ({
            let (after, again) = spec_commit(s, written, current, Ok(()));
            again && after.dirty && after.flushed == s.flushed
        }),
{
}

/// Law: a failed write keeps the previous bytes as the last write, so the
/// same config is written again on the next flush.
pub proof fn lemma_failed_write_retried(s: SaveView, written: Seq<u8>, e: Seq<char>)
    requires
        written != s.flushed,
    ensures
        ({
            let (after, again) = spec_commit(s, written, written, Err(e));
            let (_, write) = spec_prepare(after, Ok(written));
            !again && write == Some(written) && after.error == Some(e)
        }),
{
}

} // verus!
