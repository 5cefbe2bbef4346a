//! Status-bar texts: the updater read-out and error truncation.

use vstd::prelude::*;

use crate::services::updater::UpdateStatus;
use crate::text::{
    append_chars, append_decimal, append_str, decimal, from_chars, owned, take_chars,
    take_chars_exec, to_chars,
};

verus! {

broadcast use vstd::string::group_string_axioms;

/// At most `max_len` characters of `s`.
pub fn truncate_error(s: &str, max_len: usize) -> (r: String)
    ensures
        r@ == take_chars(s@, max_len as nat),
{
    let c = to_chars(s);
    let t = take_chars_exec(c.as_slice(), max_len);
    from_chars(t.as_slice())
}

/// The updater read-out for a status, if the status is worth showing.
pub open spec fn updater_label_text(status: UpdateStatus) -> Option<Seq<char>> {
    match status {
        UpdateStatus::Available { version, .. } => Some(
            "Update: "@ + version@ + " available"@,
        ),
        UpdateStatus::Downloading { progress } => Some(
            "Update: downloading "@ + decimal(progress as nat) + "%"@,
        ),
        UpdateStatus::Downloaded { version, .. } => Some("Update: "@ + version@ + " ready"@),
        UpdateStatus::ReadyToInstall => Some("Update: restart to install"@),
        UpdateStatus::Error(err) => Some(
            "Update: error ("@ + take_chars(err@, 30) + ")"@,
        ),
        UpdateStatus::Checking => Some("Update: checking..."@),
        _ => None,
    }
}

/// The updater read-out for the status bar.
pub fn updater_label(status: &UpdateStatus) -> (r: Option<String>)
    ensures
        crate::capabilities::opt_chars(r) == updater_label_text(*status),
{
    match status {
        UpdateStatus::Available { version, .. } => {
            let mut s = owned("Update: ");
            append_str(&mut s, version.as_str());
            append_str(&mut s, " available");
            Some(s)
        },
        UpdateStatus::Downloading { progress } => {
            let mut s = owned("Update: downloading ");
            append_decimal(&mut s, *progress as u64);
            append_str(&mut s, "%");
            Some(s)
        },
        UpdateStatus::Downloaded { version, .. } => {
            let mut s = owned("Update: ");
            append_str(&mut s, version.as_str());
            append_str(&mut s, " ready");
            Some(s)
        },
        UpdateStatus::ReadyToInstall => Some(owned("Update: restart to install")),
        UpdateStatus::Error(err) => {
            let mut s = owned("Update: error (");
            let t = truncate_error(err.as_str(), 30);
            append_str(&mut s, t.as_str());
            append_str(&mut s, ")");
            Some(s)
        },
        UpdateStatus::Checking => Some(owned("Update: checking...")),
        _ => None,
    }
}

} // verus!
