//! Identifiers, timestamps and severities shared by the error surface, the
//! storage protocol and crash reports.

use vstd::prelude::*;

use crate::text::owned;

verus! {

broadcast use vstd::string::group_string_axioms;

/// Identity of one recorded event: the 128 bits of a random (v4) UUID.
#[derive(Clone, Copy, Debug, PartialEq, Eq, Hash, Structural)]
pub struct EventId(pub u128);

/// Whether a 128-bit value is a random (version 4, RFC 4122 variant) UUID:
/// version nibble 4, variant bits `10`.
pub open spec fn is_random_uuid(bits: u128) -> bool {
    (bits >> 76u128) & 0xfu128 == 4u128 && (bits >> 62u128) & 0x3u128 == 2u128
}

/// A fresh random v4 UUID as its 128-bit value (`uuid::Uuid::new_v4`,
/// `Uuid::as_u128`). The random bits are free; `new_v4` masks in the
/// version nibble 4 and the RFC 4122 variant bits, and `as_u128` gives the
/// value `from_u128` was built from.
#[verifier::external_body]
fn random_uuid_bits() -> (r: u128)
    ensures
        is_random_uuid(r),
{
    uuid::Uuid::new_v4().as_u128()
}

/// What `uuid::Uuid::parse_str` makes of a text: the 128-bit value, or the
/// parser's message.
pub uninterp spec fn uuid_parse(text: Seq<char>) -> Result<u128, Seq<char>>;

/// `uuid::Uuid::parse_str`, taken to its 128-bit value (`as_u128`); a
/// failure becomes the error's message.
#[verifier::external_body]
pub(crate) fn parse_uuid_bits(text: &str) -> (r: Result<u128, String>)
    ensures
        match r {
            Ok(v) => uuid_parse(text@) == Ok::<u128, Seq<char>>(v),
            Err(m) => uuid_parse(text@) == Err::<u128, Seq<char>>(m@),
        },
{
    match uuid::Uuid::parse_str(text) {
        Ok(u) => Ok(u.as_u128()),
        Err(e) => Err(e.to_string()),
    }
}

/// The hyphenated text of the UUID with the given 128-bit value.
pub uninterp spec fn uuid_hyphenated(bits: u128) -> Seq<char>;

/// `uuid::Uuid::from_u128` then `to_string`: the hyphenated form, which the
/// uuid crate documents as 36 characters, and which `Uuid::parse_str`
/// (documented to accept every format the crate writes) reads back to the
/// same value.
#[verifier::external_body]
pub(crate) fn uuid_text(bits: u128) -> (r: String)
    ensures
        r@ == uuid_hyphenated(bits),
        r@.len() == 36,
        match uuid_parse(r@) {
            Ok(b) => b == bits,
            Err(_) => false,
        },
{
    uuid::Uuid::from_u128(bits).to_string()
}

/// A fresh random v4 UUID in its hyphenated text form.
pub(crate) fn random_uuid_text() -> (r: String)
    ensures
        exists|b: u128| is_random_uuid(b) && r@ == uuid_hyphenated(b),
        r@.len() == 36,
{
    let b = random_uuid_bits();
    uuid_text(b)
}

impl EventId {
    /// A fresh random identifier: a version 4 UUID.
    pub fn new() -> (r: Self)
        ensures
            is_random_uuid(r.0),
    {
        EventId(random_uuid_bits())
    }
}

/// A point in time (UTC): whole seconds since the Unix epoch, and the
/// nanoseconds within that second (from 1 000 000 000 up only during a leap
/// second).
#[derive(Clone, Copy, Debug, PartialEq, Eq, PartialOrd, Ord, Hash, Structural)]
pub struct AppTimestamp(pub i64, pub u32);

/// The current time as seconds and nanoseconds since the Unix epoch
/// (`chrono::Utc::now`, then `timestamp` and `timestamp_subsec_nanos`).
/// `Utc::now` builds the instant with `DateTime::from_timestamp` from the
/// system time's `as_secs` and `subsec_nanos`, panicking when the clock
/// reads before 1970, so the seconds are never negative and the nanoseconds
/// stay below one second. Nothing more is promised: it depends on the clock.
#[verifier::external_body]
fn now_unix_time() -> (r: (i64, u32))
    ensures
        r.0 >= 0,
        r.1 < 1_000_000_000,
{
    let now = chrono::Utc::now();
    (now.timestamp(), now.timestamp_subsec_nanos())
}

/// What `chrono::DateTime::parse_from_rfc3339` makes of a text, taken to
/// seconds and nanoseconds since the Unix epoch, or the parser's message.
pub uninterp spec fn rfc3339_time(text: Seq<char>) -> Result<(i64, u32), Seq<char>>;

/// `chrono::DateTime::parse_from_rfc3339`, then `timestamp` and
/// `timestamp_subsec_nanos`; a failure becomes the error's message.
#[verifier::external_body]
pub(crate) fn parse_rfc3339_time(text: &str) -> (r: Result<(i64, u32), String>)
    ensures
        match r {
            Ok(v) => rfc3339_time(text@) == Ok::<(i64, u32), Seq<char>>(v),
            Err(m) => rfc3339_time(text@) == Err::<(i64, u32), Seq<char>>(m@),
        },
{
    match chrono::DateTime::parse_from_rfc3339(text) {
        Ok(dt) => Ok((dt.timestamp(), dt.timestamp_subsec_nanos())),
        Err(e) => Err(e.to_string()),
    }
}

/// The RFC 3339 text chrono writes for a UTC instant given as seconds and
/// nanoseconds since the Unix epoch, or `None` where chrono cannot
/// represent it.
pub uninterp spec fn time_rfc3339(secs: i64, nanos: u32) -> Option<Seq<char>>;

/// The first second whose year has four digits: 0000-01-01T00:00:00Z.
pub const MIN_RFC3339_SECS: i64 = -62167219200;

/// The last second whose year has four digits: 9999-12-31T23:59:59Z.
pub const MAX_RFC3339_SECS: i64 = 253402300799;

/// `chrono::DateTime::from_timestamp` (which returns `None` for seconds
/// outside chrono's range of some 262 000 years or an invalid nanosecond
/// part) then `to_rfc3339`. For a year of four digits and a nanosecond part
/// below one second, chrono writes plain RFC 3339 (date, time, as many
/// fraction digits, 3, 6 or 9, as the nanoseconds need, `+00:00`), which
/// `parse_from_rfc3339` reads back to the same seconds and nanoseconds; for
/// other years it writes a signed year, which RFC 3339 does not allow, so
/// nothing is said of reading those back. Either way the text is at least
/// `YYYY-MM-DDTHH:MM:SS+00:00`, 25 characters.
#[verifier::external_body]
pub(crate) fn rfc3339_text(secs: i64, nanos: u32) -> (r: Option<String>)
    ensures
        match r {
            Some(t) => time_rfc3339(secs, nanos) == Some(t@),
            None => time_rfc3339(secs, nanos) == None::<Seq<char>>,
        },
        match r {
            Some(t) => t@.len() >= 25,
            None => true,
        },
        MIN_RFC3339_SECS <= secs <= MAX_RFC3339_SECS && nanos < 1_000_000_000 ==> match r {
            Some(t) => match rfc3339_time(t@) {
                Ok(v) => v == (secs, nanos),
                Err(_) => false,
            },
            None => false,
        },
{
    match chrono::DateTime::from_timestamp(secs, nanos) {
        Some(dt) => Some(dt.to_rfc3339()),
        None => None,
    }
}

/// `text` is what chrono writes for some instant at or after the Unix epoch
/// (with a nanosecond part below one second).
pub open spec fn is_rfc3339_since_epoch(text: Seq<char>) -> bool {
    exists|secs: i64, nanos: u32|
        secs >= 0 && nanos < 1_000_000_000 && time_rfc3339(secs, nanos) == Some(text)
}

/// The current UTC time in RFC 3339 form (`chrono::Utc::now` then
/// `to_rfc3339`). `Utc::now` is `DateTime::from_timestamp` of the system
/// time's seconds (never negative; it panics before 1970) and nanoseconds
/// (below one second), so the text is what `rfc3339_text` writes for such
/// an instant, at least `YYYY-MM-DDTHH:MM:SS+00:00` long (25 characters).
/// Which instant it is depends on the clock.
#[verifier::external_body]
pub(crate) fn now_rfc3339() -> (r: String)
    ensures
        is_rfc3339_since_epoch(r@),
        r@.len() >= 25,
{
    chrono::Utc::now().to_rfc3339()
}

impl AppTimestamp {
    /// The current time, which is never before the Unix epoch.
    pub fn now() -> (r: Self)
        ensures
            r.0 >= 0,
            r.1 < 1_000_000_000,
    {
        let (secs, nanos) = now_unix_time();
        AppTimestamp(secs, nanos)
    }
}

/// How serious an application error is.
#[derive(Clone, Copy, Debug, PartialEq, Eq, Hash, Structural)]
pub enum AppErrorSeverity {
    Info,
    Warning,
    Error,
}

pub open spec fn severity_name(s: AppErrorSeverity) -> Seq<char> {
    match s {
        AppErrorSeverity::Info => "Info"@,
        AppErrorSeverity::Warning => "Warning"@,
        AppErrorSeverity::Error => "Error"@,
    }
}

impl AppErrorSeverity {
    /// The stored name of the severity (its variant name).
    pub fn as_str(self) -> (r: &'static str)
        ensures
            r@ == severity_name(self),
    {
        match self {
            AppErrorSeverity::Info => "Info",
            AppErrorSeverity::Warning => "Warning",
            AppErrorSeverity::Error => "Error",
        }
    }

    /// The severity with the stored name `name`, if any.
    pub fn from_name(name: &str) -> (r: Option<AppErrorSeverity>)
        ensures
            match r {
                Some(s) => severity_name(s) == name@,
                None => forall|s: AppErrorSeverity| severity_name(s) != name@,
            },
    {
        if crate::text::str_eq(name, "Info") {
            Some(AppErrorSeverity::Info)
        } else if crate::text::str_eq(name, "Warning") {
            Some(AppErrorSeverity::Warning)
        } else if crate::text::str_eq(name, "Error") {
            Some(AppErrorSeverity::Error)
        } else {
            None
        }
    }
}

/// An owned copy of an optional string.
pub fn clone_opt_string(s: &Option<String>) -> (r: Option<String>)
    ensures
        crate::capabilities::opt_chars(r) == crate::capabilities::opt_chars(*s),
{
    match s {
        Some(t) => Some(owned(t.as_str())),
        None => None,
    }
}

} // verus!
