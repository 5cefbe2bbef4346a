//! Secure storage bookkeeping: the snapshot of the OS keyring's state, the
//! errors that secret operations report, and how each keyring outcome
//! updates the snapshot. The keyring itself is reached by the caller; the
//! outcomes come in here as plain values.

use vstd::prelude::*;

use crate::capabilities::{CapabilityStatus, opt_chars};
use crate::text::{append_str, owned};

verus! {

broadcast use vstd::string::group_string_axioms;

/// Secure-storage state shown on the diagnostics page.
#[derive(Clone, Debug)]
pub struct SecureStorageSnapshot {
    pub available: bool,
    pub last_error: Option<String>,
}

impl Default for SecureStorageSnapshot {
    fn default() -> (r: Self)
        ensures
            !r.available,
            r.last_error is None,
    {
        SecureStorageSnapshot { available: false, last_error: None }
    }
}

/// What the library reads of a keyring failure: whether it says that no
/// entry exists, and its message.
#[derive(Clone, Debug)]
pub struct KeyringFailure {
    pub no_entry: bool,
    pub message: String,
}

/// A failed secret operation, naming the service and key it was about.
#[derive(Debug)]
pub enum SecureStorageError {
    EntryCreation { service: String, key: String, reason: String },
    SetFailed { service: String, key: String, reason: String },
    GetFailed { service: String, key: String, reason: String },
    DeleteFailed { service: String, key: String, reason: String },
}

/// `prefix` + `'service/key': ` + `reason`.
pub open spec fn secret_error_text(
    prefix: Seq<char>,
    service: Seq<char>,
    key: Seq<char>,
    reason: Seq<char>,
) -> Seq<char> {
    prefix + " '"@ + service + "/"@ + key + "': "@ + reason
}

pub open spec fn secure_storage_error_message(e: SecureStorageError) -> Seq<char> {
    match e {
        SecureStorageError::EntryCreation { service, key, reason } => secret_error_text(
            "entry creation failed for"@,
            service@,
            key@,
            reason@,
        ),
        SecureStorageError::SetFailed { service, key, reason } => secret_error_text(
            "failed to set secret for"@,
            service@,
            key@,
            reason@,
        ),
        SecureStorageError::GetFailed { service, key, reason } => secret_error_text(
            "failed to get secret for"@,
            service@,
            key@,
            reason@,
        ),
        SecureStorageError::DeleteFailed { service, key, reason } => secret_error_text(
            "failed to delete secret for"@,
            service@,
            key@,
            reason@,
        ),
    }
}

fn error_text(prefix: &str, service: &str, key: &str, reason: &str) -> (r: String)
    ensures
        r@ == secret_error_text(prefix@, service@, key@, reason@),
{
    let mut m = owned(prefix);
    append_str(&mut m, " '");
    append_str(&mut m, service);
    append_str(&mut m, "/");
    append_str(&mut m, key);
    append_str(&mut m, "': ");
    append_str(&mut m, reason);
    m
}

impl SecureStorageError {
    /// The error message.
    pub fn to_string(&self) -> (r: String)
        ensures
            r@ == secure_storage_error_message(*self),
    {
        match self {
            SecureStorageError::EntryCreation { service, key, reason } => error_text(
                "entry creation failed for",
                service.as_str(),
                key.as_str(),
                reason.as_str(),
            ),
            SecureStorageError::SetFailed { service, key, reason } => error_text(
                "failed to set secret for",
                service.as_str(),
                key.as_str(),
                reason.as_str(),
            ),
            SecureStorageError::GetFailed { service, key, reason } => error_text(
                "failed to get secret for",
                service.as_str(),
                key.as_str(),
                reason.as_str(),
            ),
            SecureStorageError::DeleteFailed { service, key, reason } => error_text(
                "failed to delete secret for",
                service.as_str(),
                key.as_str(),
                reason.as_str(),
            ),
        }
    }
}

/// The error for a keyring entry that could not be created.
pub fn entry_creation_error(service: &str, key: &str, reason: &str) -> (r: SecureStorageError)
    ensures
        r matches SecureStorageError::EntryCreation { service: s, key: k, reason: m } && s@
            == service@ && k@ == key@ && m@ == reason@,
{
    SecureStorageError::EntryCreation {
        service: owned(service),
        key: owned(key),
        reason: owned(reason),
    }
}

impl SecureStorageSnapshot {
    /// The snapshot after probing the keyring once at start-up.
    pub fn from_probe(available: bool) -> (r: Self)
        ensures
            r.available == available,
            opt_chars(r.last_error) == if available {
                None
            } else {
                Some("keyring entry initialization unavailable"@)
            },
    {
        SecureStorageSnapshot {
            available,
            last_error: if available {
                None
            } else {
                Some(owned("keyring entry initialization unavailable"))
            },
        }
    }

    /// The capability entry this snapshot stands for.
    pub fn capability_status(&self) -> (r: CapabilityStatus)
        ensures
            self.available ==> r.supported && r.enabled && !r.degraded && r.reason is None
                && r.last_error is None,
            !self.available ==> r.supported && !r.enabled && r.degraded && opt_chars(r.reason)
                == opt_chars(r.last_error) && opt_chars(r.last_error) == Some(
                match self.last_error {
                    Some(e) => e@,
                    None => "secure storage unavailable"@,
                },
            ),
    {
        if self.available {
            CapabilityStatus::supported_enabled()
        } else {
            match &self.last_error {
                Some(e) => CapabilityStatus::error(e.as_str()),
                None => CapabilityStatus::error("secure storage unavailable"),
            }
        }
    }

    /// Records the outcome of writing a secret: a failure becomes the last
    /// error and is returned; success clears the last error.
    pub fn finish_set(&mut self, service: &str, key: &str, write: Result<(), KeyringFailure>) -> (r:
        Result<(), SecureStorageError>)
        ensures
            final(self).available == old(self).available,
            match write {
                Ok(()) => r is Ok && final(self).last_error is None,
                Err(f) => {
                    &&& opt_chars(final(self).last_error) == Some(f.message@)
                    &&& r matches Err(SecureStorageError::SetFailed { service: s, key: k, reason: m })
                        && s@ == service@ && k@ == key@ && m@ == f.message@
                },
            },
    {
        match write {
            Ok(()) => {
                self.last_error = None;
                Ok(())
            },
            Err(f) => {
                self.last_error = Some(owned(f.message.as_str()));
                Err(
                    SecureStorageError::SetFailed {
                        service: owned(service),
                        key: owned(key),
                        reason: f.message,
                    },
                )
            },
        }
    }

    /// Records the outcome of reading a secret: a value clears the last
    /// error; a missing entry is no error and leaves the snapshot as it was;
    /// any other failure is returned and leaves the snapshot as it was.
    pub fn finish_get(&mut self, service: &str, key: &str, read: Result<String, KeyringFailure>) -> (r:
        Result<Option<String>, SecureStorageError>)
        ensures
            final(self).available == old(self).available,
            match read {
                Ok(v) => {
                    &&& final(self).last_error is None
                    &&& r matches Ok(Some(w)) && w@ == v@
                },
                Err(f) => if f.no_entry {
                    &&& r matches Ok(None)
                    &&& opt_chars(final(self).last_error) == opt_chars(old(self).last_error)
                } else {
                    &&& opt_chars(final(self).last_error) == opt_chars(old(self).last_error)
                    &&& r matches Err(SecureStorageError::GetFailed { service: s, key: k, reason: m })
                        && s@ == service@ && k@ == key@ && m@ == f.message@
                },
            },
    {
        match read {
            Ok(v) => {
                self.last_error = None;
                Ok(Some(v))
            },
            Err(f) => {
                if f.no_entry {
                    Ok(None)
                } else {
                    Err(
                        SecureStorageError::GetFailed {
                            service: owned(service),
                            key: owned(key),
                            reason: f.message,
                        },
                    )
                }
            },
        }
    }

    /// Records the outcome of deleting a secret: a failure becomes the last
    /// error and is returned; success clears the last error.
    pub fn finish_delete(&mut self, service: &str, key: &str, delete: Result<(), KeyringFailure>) -> (r:
        Result<(), SecureStorageError>)
        ensures
            final(self).available == old(self).available,
            match delete {
                Ok(()) => r is Ok && final(self).last_error is None,
                Err(f) => {
                    &&& opt_chars(final(self).last_error) == Some(f.message@)
                    &&& r matches Err(SecureStorageError::DeleteFailed { service: s, key: k, reason: m })
                        && s@ == service@ && k@ == key@ && m@ == f.message@
                },
            },
    {
        match delete {
            Ok(()) => {
                self.last_error = None;
                Ok(())
            },
            Err(f) => {
                self.last_error = Some(owned(f.message.as_str()));
                Err(
                    SecureStorageError::DeleteFailed {
                        service: owned(service),
                        key: owned(key),
                        reason: f.message,
                    },
                )
            },
        }
    }
}

} // verus!
