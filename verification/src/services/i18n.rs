//! Localization fallbacks: what the UI shows when a message or the system
//! locale cannot be found, and the error of a failed start-up.

use vstd::prelude::*;

use crate::text::{append_str, owned};

verus! {

broadcast use vstd::string::group_string_axioms;

/// The locale used when the system reports none.
pub const FALLBACK_LOCALE: &'static str = "en";

/// Localization could not start; holds the loader's message.
#[derive(Debug)]
pub enum I18nError {
    InitFailed(String),
}

impl I18nError {
    /// The error message.
    pub fn to_string(&self) -> (r: String)
        ensures
            r@ == match *self {
                I18nError::InitFailed(m) => "i18n initialization failed: "@ + m@,
            },
    {
        match self {
            I18nError::InitFailed(m) => {
                let mut s = owned("i18n initialization failed: ");
                append_str(&mut s, m.as_str());
                s
            },
        }
    }
}

/// The text shown for message `id`: its translation when the bundle has
/// one, else the id itself.
pub fn localized_or_id(found: Option<String>, id: &str) -> (r: String)
    ensures
        r@ == match found {
            Some(t) => t@,
            None => id@,
        },
{
    match found {
        Some(t) => t,
        None => owned(id),
    }
}

/// The locale to run with: the one the system reported, else `"en"`.
pub fn locale_or_default(detected: Option<String>) -> (r: String)
    ensures
        r@ == match detected {
            Some(l) => l@,
            None => "en"@,
        },
{
    match detected {
        Some(l) => l,
        None => owned(FALLBACK_LOCALE),
    }
}

} // verus!
