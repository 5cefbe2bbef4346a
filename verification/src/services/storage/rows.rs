//! The SQLite row format of error records and crash reports: what each
//! column holds, and the decoding of a row read back into a record, with
//! the error the native backend reports when a column does not decode.

use vstd::prelude::*;

use crate::ids::{
    parse_rfc3339_time, parse_uuid_bits, rfc3339_text, rfc3339_time, severity_name, time_rfc3339,
    uuid_hyphenated, uuid_parse, uuid_text, AppErrorSeverity, AppTimestamp, EventId,
    MAX_RFC3339_SECS, MIN_RFC3339_SECS,
};
use crate::services::crash_report::CrashReport;
use crate::services::error_surface::{
    category_label, category_name, ErrorAction, ErrorCategory, ErrorRecord,
};
use crate::services::storage::status::StorageError;
use crate::text::{append_str, decimal, owned};

verus! {

broadcast use vstd::string::group_string_axioms;

// ---------------------------------------------------------------------------
// Outside parsers and formatters
// ---------------------------------------------------------------------------

/// The characters of each string.
pub open spec fn strings_view(v: Seq<String>) -> Seq<Seq<char>> {
    v.map_values(|s: String| s@)
}

/// What `serde_json::from_str::<Vec<String>>` makes of a text: the list, or
/// the parser's message.
pub uninterp spec fn json_string_list(text: Seq<char>) -> Result<Seq<Seq<char>>, Seq<char>>;

/// `serde_json::from_str::<Vec<String>>`; a failure becomes the error's
/// message.
#[verifier::external_body]
fn parse_string_list(text: &str) -> (r: Result<Vec<String>, String>)
    ensures
        match r {
            Ok(v) => json_string_list(text@) == Ok::<Seq<Seq<char>>, Seq<char>>(strings_view(v@)),
            Err(m) => json_string_list(text@) == Err::<Seq<Seq<char>>, Seq<char>>(m@),
        },
{
    match serde_json::from_str::<Vec<String>>(text) {
        Ok(v) => Ok(v),
        Err(e) => Err(e.to_string()),
    }
}

/// The JSON array text `serde_json::to_string` writes for a list of strings.
pub uninterp spec fn json_string_list_text(items: Seq<Seq<char>>) -> Seq<char>;

/// `serde_json::to_string` of a list of strings. serde_json fails only where
/// a `Serialize` impl fails or a map has non-string keys, so a list of
/// strings always serializes (the error arm is never taken); and the array
/// text it writes parses back, with `serde_json::from_str`, to the same
/// strings.
#[verifier::external_body]
fn encode_string_list(items: &Vec<String>) -> (r: String)
    ensures
        r@ == json_string_list_text(strings_view(items@)),
        match json_string_list(r@) {
            Ok(v) => v == strings_view(items@),
            Err(_) => false,
        },
{
    match serde_json::to_string(items) {
        Ok(t) => t,
        Err(_) => String::new(),
    }
}

/// `s` between double quotes: the JSON string text of a value with nothing
/// to escape.
pub open spec fn quoted(s: Seq<char>) -> Seq<char> {
    seq!['"'] + s + seq!['"']
}

/// `s` holds nothing JSON escapes in a string: no `"`, no `\\`, no control
/// character.
pub open spec fn is_plain_json_content(s: Seq<char>) -> bool {
    forall|i: int| 0 <= i < s.len() ==> #[trigger] s[i] != '"' && s[i] != '\\' && ' ' <= s[i]
}

/// What `serde_json::from_str::<String>` makes of a text: the string, or
/// the parser's message.
pub uninterp spec fn json_string(text: Seq<char>) -> Result<Seq<char>, Seq<char>>;

/// `serde_json::from_str::<String>`; a failure becomes the error's message.
#[verifier::external_body]
fn parse_json_string(text: &str) -> (r: Result<String, String>)
    ensures
        match r {
            Ok(v) => json_string(text@) == Ok::<Seq<char>, Seq<char>>(v@),
            Err(m) => json_string(text@) == Err::<Seq<char>, Seq<char>>(m@),
        },
{
    match serde_json::from_str::<String>(text) {
        Ok(v) => Ok(v),
        Err(e) => Err(e.to_string()),
    }
}

/// What serde_json's stream deserializer yields first for a text read as
/// strings: nothing (only whitespace), the first string with the byte offset
/// just after it, or the parser's message. Unlike `from_str`, it does not
/// look past that first value.
pub uninterp spec fn json_first_string(text: Seq<char>) -> Option<Result<(Seq<char>, nat), Seq<char>>>;

/// `serde_json::Deserializer::from_str(text).into_iter::<String>()`, its
/// first `next()`, then `byte_offset()`. A text that starts with `"` is not
/// blank, so the stream yields something.
#[verifier::external_body]
fn first_json_string(text: &str) -> (r: Option<Result<(String, usize), String>>)
    ensures
        match r {
            None => json_first_string(text@) is None,
            Some(Ok(v)) => json_first_string(text@) == Some(
                Ok::<(Seq<char>, nat), Seq<char>>((v.0@, v.1 as nat)),
            ),
            Some(Err(m)) => json_first_string(text@) == Some(
                Err::<(Seq<char>, nat), Seq<char>>(m@),
            ),
        },
        text@.len() > 0 && text@[0] == '"' ==> r is Some,
{
    let mut stream = serde_json::Deserializer::from_str(text).into_iter::<String>();
    match stream.next() {
        Some(Ok(v)) => Some(Ok((v, stream.byte_offset()))),
        Some(Err(e)) => Some(Err(e.to_string())),
        None => None,
    }
}

/// The JSON text `serde_json::to_string` writes for a string.
pub uninterp spec fn json_string_text(s: Seq<char>) -> Seq<char>;

/// `serde_json::to_string` of a string. Writing a string cannot fail (the
/// error arm is never taken). serde_json escapes only `"`, `\\` and control
/// characters, so a string with none of them is written between quotes as
/// it is; and the text, read back with `from_str::<String>` or as the first
/// value of a stream, gives the same string.
#[verifier::external_body]
fn encode_json_string(s: &str) -> (r: String)
    ensures
        r@ == json_string_text(s@),
        is_plain_json_content(s@) ==> r@ == quoted(s@),
        match json_string(r@) {
            Ok(v) => v == s@,
            Err(_) => false,
        },
        match json_first_string(r@) {
            Some(Ok(v)) => v.0 == s@,
            _ => false,
        },
{
    match serde_json::to_string(s) {
        Ok(t) => t,
        Err(_) => String::new(),
    }
}

/// `s` without its leading `"` characters.
pub open spec fn trim_leading_quotes(s: Seq<char>) -> Seq<char>
    decreases s.len(),
{
    if s.len() > 0 && s[0] == '"' {
        trim_leading_quotes(s.skip(1))
    } else {
        s
    }
}

/// `s` without its trailing `"` characters.
pub open spec fn trim_trailing_quotes(s: Seq<char>) -> Seq<char>
    decreases s.len(),
{
    if s.len() > 0 && s.last() == '"' {
        trim_trailing_quotes(s.drop_last())
    } else {
        s
    }
}

/// `s` without the `"` characters at either end (`str::trim_matches('"')`).
pub open spec fn trim_quotes(s: Seq<char>) -> Seq<char> {
    trim_trailing_quotes(trim_leading_quotes(s))
}

fn trim_quotes_exec(t: &str) -> (r: String)
    ensures
        r@ == trim_quotes(t@),
{
    let c = crate::text::to_chars(t);
    let mut i: usize = 0;
    assert(c@.skip(0) =~= c@);
    while i < c.len() && c[i] == '"'
        invariant
            i <= c.len(),
            trim_leading_quotes(c@) == trim_leading_quotes(c@.skip(i as int)),
        decreases c.len() - i,
    {
        assert(c@.skip(i as int).skip(1) =~= c@.skip(i + 1));
        i = i + 1;
    }
    let mut j: usize = c.len();
    assert(c@.skip(i as int) =~= c@.subrange(i as int, j as int));
    while j > i && c[j - 1] == '"'
        invariant
            i <= j <= c.len(),
            trim_leading_quotes(c@) == c@.subrange(i as int, c.len() as int),
            trim_quotes(c@) == trim_trailing_quotes(c@.subrange(i as int, j as int)),
        decreases j,
    {
        assert(c@.subrange(i as int, j as int).drop_last() =~= c@.subrange(i as int, j - 1));
        j = j - 1;
    }
    let mut out: Vec<char> = Vec::new();
    let mut k: usize = i;
    while k < j
        invariant
            i <= k <= j,
            j <= c.len(),
            out@ == c@.subrange(i as int, k as int),
        decreases j - k,
    {
        out.push(c[k]);
        assert(c@.subrange(i as int, k + 1) =~= c@.subrange(i as int, k as int).push(c@[k as int]));
        k = k + 1;
    }
    crate::text::from_chars(out.as_slice())
}

/// Each severity's stored name is non-empty and needs no JSON escaping.
proof fn lemma_severity_name_plain(s: AppErrorSeverity)
    ensures
        severity_name(s).len() > 0,
        is_plain_json_content(severity_name(s)),
{
    reveal_strlit("Info");
    reveal_strlit("Warning");
    reveal_strlit("Error");
}

/// A plain, non-empty name between quotes loses exactly its quotes.
proof fn lemma_trim_quoted(s: Seq<char>)
    requires
        s.len() > 0,
        is_plain_json_content(s),
    ensures
        trim_quotes(quoted(s)) == s,
{
    let q = quoted(s);
    let t = s + seq!['"'];
    assert(q.skip(1) =~= t);
    assert(q[0] == '"');
    assert(t[0] == s[0]);
    assert(s[0] != '"');
    assert(trim_leading_quotes(t) == t);
    assert(trim_leading_quotes(q) == trim_leading_quotes(q.skip(1)));
    assert(trim_leading_quotes(q) == t);
    assert(t.drop_last() =~= s);
    assert(t.last() == '"');
    assert(s.last() == s[s.len() - 1]);
    assert(s[s.len() - 1] != '"');
    assert(trim_trailing_quotes(s) == s);
    assert(trim_trailing_quotes(t) == trim_trailing_quotes(t.drop_last()));
}

// ---------------------------------------------------------------------------
// Action names
// ---------------------------------------------------------------------------

/// The stored name of an action (its variant name).
pub open spec fn action_name(a: ErrorAction) -> Seq<char> {
    match a {
        ErrorAction::Retry => "Retry"@,
        ErrorAction::OpenSettings => "OpenSettings"@,
        ErrorAction::Dismiss => "Dismiss"@,
    }
}

fn action_str(a: ErrorAction) -> (r: &'static str)
    ensures
        r@ == action_name(a),
{
    match a {
        ErrorAction::Retry => "Retry",
        ErrorAction::OpenSettings => "OpenSettings",
        ErrorAction::Dismiss => "Dismiss",
    }
}

/// The severity with the stored name `name`, if any.
pub open spec fn severity_named(name: Seq<char>) -> Option<AppErrorSeverity> {
    if name == "Info"@ {
        Some(AppErrorSeverity::Info)
    } else if name == "Warning"@ {
        Some(AppErrorSeverity::Warning)
    } else if name == "Error"@ {
        Some(AppErrorSeverity::Error)
    } else {
        None
    }
}

/// The category a stored label names: the lowercase label or the variant
/// name.
pub open spec fn category_named(label: Seq<char>) -> Option<ErrorCategory> {
    if label == "network"@ || label == "Network"@ {
        Some(ErrorCategory::Network)
    } else if label == "storage"@ || label == "Storage"@ {
        Some(ErrorCategory::Storage)
    } else if label == "rendering"@ || label == "Rendering"@ {
        Some(ErrorCategory::Rendering)
    } else if label == "config"@ || label == "Config"@ {
        Some(ErrorCategory::Config)
    } else if label == "system"@ || label == "System"@ {
        Some(ErrorCategory::System)
    } else {
        None
    }
}

/// Each severity is named by its stored name.
proof fn lemma_severity_named(s: AppErrorSeverity)
    ensures
        severity_named(severity_name(s)) == Some(s),
{
    reveal_strlit("Info");
    reveal_strlit("Warning");
    reveal_strlit("Error");
    assert("Error"@.len() != "Warning"@.len());
}

/// Each category is named by its label and by its variant name.
proof fn lemma_category_named(c: ErrorCategory)
    ensures
        category_named(category_label(c)) == Some(c),
        category_named(category_name(c)) == Some(c),
{
    reveal_strlit("network");
    reveal_strlit("Network");
    reveal_strlit("storage");
    reveal_strlit("Storage");
    reveal_strlit("rendering");
    reveal_strlit("Rendering");
    reveal_strlit("config");
    reveal_strlit("Config");
    reveal_strlit("system");
    reveal_strlit("System");
    match c {
        ErrorCategory::Network => {},
        ErrorCategory::Storage => {
            assert("storage"@[0] != "network"@[0]);
            assert("storage"@[0] != "Network"@[0]);
            assert("Storage"@[0] != "network"@[0]);
            assert("Storage"@[0] != "Network"@[0]);
        },
        ErrorCategory::Rendering => {
            assert("rendering"@.len() != "network"@.len());
            assert("Rendering"@.len() != "network"@.len());
        },
        ErrorCategory::Config => {
            assert("config"@.len() != "network"@.len());
            assert("config"@.len() != "storage"@.len());
            assert("config"@.len() != "rendering"@.len());
            assert("Config"@.len() != "network"@.len());
            assert("Config"@.len() != "storage"@.len());
            assert("Config"@.len() != "rendering"@.len());
        },
        ErrorCategory::System => {
            assert("system"@.len() != "network"@.len());
            assert("system"@.len() != "storage"@.len());
            assert("system"@.len() != "rendering"@.len());
            assert("system"@[0] != "config"@[0]);
            assert("system"@[0] != "Config"@[0]);
            assert("System"@.len() != "network"@.len());
            assert("System"@.len() != "storage"@.len());
            assert("System"@.len() != "rendering"@.len());
            assert("System"@[0] != "config"@[0]);
            assert("System"@[0] != "Config"@[0]);
        },
    }
}

// ---------------------------------------------------------------------------
// Error-log rows
// ---------------------------------------------------------------------------

/// The columns of one `error_log` row, as text.
#[derive(Clone, Debug)]
pub struct ErrorRow {
    pub id: String,
    pub occurred_at: String,
    pub severity: String,
    pub category: String,
    pub message: String,
    /// A JSON array of action names.
    pub actions: String,
}

/// The decoded fields of an error record.
pub type ErrorFields = (
    u128,
    (i64, u32),
    AppErrorSeverity,
    ErrorCategory,
    Seq<char>,
    Seq<ErrorAction>,
);

pub open spec fn record_fields(r: ErrorRecord) -> ErrorFields {
    (r.id.0, (r.occurred_at.0, r.occurred_at.1), r.severity, r.category, r.message@, r.actions@)
}

/// The native backend's message for a column that does not decode.
pub open spec fn bad_column(m: Seq<char>) -> Seq<char> {
    "Invalid parameter name: "@ + m
}

/// The serde-style message for an unknown variant name.
pub open spec fn unknown_variant(name: Seq<char>, expected: Seq<char>) -> Seq<char> {
    "unknown variant `"@ + name + "`, expected one of "@ + expected
}

pub open spec fn severity_choices() -> Seq<char> {
    "`Info`, `Warning`, `Error`"@
}

/// What the severity column decodes to. The stored text is read as the
/// JSON string `"<text>"`, as an enum of unit variants is read: the first
/// string value names the variant (an unknown name is refused with the
/// offset just after that string); a known name still needs the whole text
/// to be that one string.
pub open spec fn severity_column(sev: Seq<char>) -> Result<AppErrorSeverity, Seq<char>> {
    match json_first_string(quoted(sev)) {
        None => Err(Seq::empty()),
        Some(Err(m)) => Err(m),
        Some(Ok(v)) => match severity_named(v.0) {
            None => Err(
                unknown_variant(v.0, severity_choices()) + " at line 1 column "@ + decimal(v.1),
            ),
            Some(s) => match json_string(quoted(sev)) {
                Ok(_) => Ok(s),
                Err(m) => Err(m),
            },
        },
    }
}

/// Decode the severity column.
fn decode_severity(sev: &str) -> (r: Result<AppErrorSeverity, String>)
    ensures
        match r {
            Ok(s) => severity_column(sev@) == Ok::<AppErrorSeverity, Seq<char>>(s),
            Err(m) => severity_column(sev@) == Err::<AppErrorSeverity, Seq<char>>(m@),
        },
{
    let mut q = owned("\"");
    append_str(&mut q, sev);
    append_str(&mut q, "\"");
    proof {
        reveal_strlit("\"");
    }
    assert(q@ =~= quoted(sev@));
    match first_json_string(q.as_str()) {
        None => Err(String::new()),
        Some(Err(m)) => Err(m),
        Some(Ok(v)) => match AppErrorSeverity::from_name(v.0.as_str()) {
            None => {
                proof {
                    assert(severity_name(AppErrorSeverity::Info) != v.0@);
                    assert(severity_name(AppErrorSeverity::Warning) != v.0@);
                    assert(severity_name(AppErrorSeverity::Error) != v.0@);
                }
                let mut m = unknown_variant_text(v.0.as_str(), "`Info`, `Warning`, `Error`");
                append_str(&mut m, " at line 1 column ");
                crate::text::append_decimal(&mut m, v.1 as u64);
                Err(m)
            },
            Some(s) => {
                assert(severity_named(v.0@) == Some(s)) by {
                    lemma_severity_named(s);
                }
                match parse_json_string(q.as_str()) {
                    Ok(_) => Ok(s),
                    Err(m) => Err(m),
                }
            },
        },
    }
}

/// What the actions column was read as (by serde's derive, as a list of
/// unit variants), as plain values.
pub open spec fn actions_read(actions: Result<Vec<ErrorAction>, String>) -> Result<
    Seq<ErrorAction>,
    Seq<char>,
> {
    match actions {
        Ok(v) => Ok(v@),
        Err(m) => Err(m@),
    }
}

/// What an `error_log` row decodes to, given what its actions column was
/// read as: the record's fields, or the message of the first column (in
/// column order) that does not decode.
pub open spec fn error_row_outcome(
    id: Seq<char>,
    occurred_at: Seq<char>,
    severity: Seq<char>,
    category: Seq<char>,
    message: Seq<char>,
    actions: Result<Seq<ErrorAction>, Seq<char>>,
) -> Result<ErrorFields, Seq<char>> {
    match uuid_parse(id) {
        Err(m) => Err(bad_column(m)),
        Ok(bits) => match rfc3339_time(occurred_at) {
            Err(m) => Err(bad_column(m)),
            Ok(time) => match severity_column(severity) {
                Err(m) => Err(bad_column(m)),
                Ok(sev) => match category_named(category) {
                    None => Err(bad_column("unknown error category `"@ + category + "`"@)),
                    Some(cat) => match actions {
                        Err(m) => Err(bad_column(m)),
                        Ok(a) => Ok((bits, time, sev, cat, message, a)),
                    },
                },
            },
        },
    }
}

pub open spec fn storage_error_text(e: StorageError) -> Seq<char> {
    crate::services::storage::status::storage_error_message(e)
}

fn column_error(m: &str) -> (r: StorageError)
    ensures
        r matches StorageError::Sqlite(t) && t@ == bad_column(m@),
{
    let mut t = owned("Invalid parameter name: ");
    append_str(&mut t, m);
    StorageError::Sqlite(t)
}

fn unknown_variant_text(name: &str, expected: &str) -> (r: String)
    ensures
        r@ == unknown_variant(name@, expected@),
{
    let mut t = owned("unknown variant `");
    append_str(&mut t, name);
    append_str(&mut t, "`, expected one of ");
    append_str(&mut t, expected);
    t
}

/// Decode an `error_log` row read back from the database. `actions` is
/// what the row's actions column reads as: the JSON array of unit variants
/// that `serde_json` turns into actions through the type's derived
/// `Deserialize`, or its message; it is looked at only once every earlier
/// column has decoded.
pub fn decode_error_row(row: &ErrorRow, actions: Result<Vec<ErrorAction>, String>) -> (r: Result<
    ErrorRecord,
    StorageError,
>)
    ensures
        match r {
            Ok(rec) => error_row_outcome(
                row.id@,
                row.occurred_at@,
                row.severity@,
                row.category@,
                row.message@,
                actions_read(actions),
            ) == Ok::<ErrorFields, Seq<char>>(record_fields(rec)),
            Err(e) => error_row_outcome(
                row.id@,
                row.occurred_at@,
                row.severity@,
                row.category@,
                row.message@,
                actions_read(actions),
            ) == Err::<ErrorFields, Seq<char>>(storage_error_text(e)),
        },
{
    let bits = match parse_uuid_bits(row.id.as_str()) {
        Ok(b) => b,
        Err(m) => return Err(column_error(m.as_str())),
    };
    let time = match parse_rfc3339_time(row.occurred_at.as_str()) {
        Ok(v) => v,
        Err(m) => return Err(column_error(m.as_str())),
    };
    let severity = match decode_severity(row.severity.as_str()) {
        Ok(s) => s,
        Err(m) => return Err(column_error(m.as_str())),
    };
    let category = match ErrorCategory::from_label(row.category.as_str()) {
        Some(c) => c,
        None => {
            proof {
                assert(category_label(ErrorCategory::Network) != row.category@);
                assert(category_name(ErrorCategory::Network) != row.category@);
                assert(category_label(ErrorCategory::Storage) != row.category@);
                assert(category_name(ErrorCategory::Storage) != row.category@);
                assert(category_label(ErrorCategory::Rendering) != row.category@);
                assert(category_name(ErrorCategory::Rendering) != row.category@);
                assert(category_label(ErrorCategory::Config) != row.category@);
                assert(category_name(ErrorCategory::Config) != row.category@);
                assert(category_label(ErrorCategory::System) != row.category@);
                assert(category_name(ErrorCategory::System) != row.category@);
            }
            let mut m = owned("unknown error category `");
            append_str(&mut m, row.category.as_str());
            append_str(&mut m, "`");
            return Err(column_error(m.as_str()));
        },
    };
    proof {
        lemma_category_named(category);
    }
    let actions = match actions {
        Ok(a) => a,
        Err(m) => return Err(column_error(m.as_str())),
    };
    Ok(
        ErrorRecord {
            id: EventId(bits),
            occurred_at: AppTimestamp(time.0, time.1),
            severity,
            category,
            message: owned(row.message.as_str()),
            actions,
        },
    )
}

/// The text of a list of actions' names.
fn action_names(actions: &Vec<ErrorAction>) -> (r: Vec<String>)
    ensures
        strings_view(r@) == actions@.map_values(|a: ErrorAction| action_name(a)),
{
    let mut out: Vec<String> = Vec::new();
    let mut i: usize = 0;
    while i < actions.len()
        invariant
            i <= actions.len(),
            out@.len() == i,
            forall|j: int| 0 <= j < i ==> (#[trigger] out@[j])@ == action_name(actions@[j]),
        decreases actions.len() - i,
    {
        out.push(owned(action_str(actions[i])));
        i = i + 1;
    }
    assert(strings_view(out@) =~= actions@.map_values(|a: ErrorAction| action_name(a)));
    out
}

/// The row an error record is stored as: the id's hyphenated text, the
/// time in RFC 3339, the severity's stored name (its JSON string text with
/// the quotes trimmed), the category's label, the message, and the action
/// names as a JSON array. An instant chrono cannot represent is refused.
/// For a year of four digits, the row decodes back to the record once its
/// actions column reads as the record's actions.
pub fn encode_error_row(record: &ErrorRecord) -> (r: Result<ErrorRow, StorageError>)
    ensures
        match time_rfc3339(record.occurred_at.0, record.occurred_at.1) {
            None => r matches Err(StorageError::Sqlite(m)) && m@ == "timestamp out of range"@,
            Some(t) => r matches Ok(row) && row.id@ == uuid_hyphenated(record.id.0)
                && row.occurred_at@ == t && row.severity@ == severity_name(record.severity)
                && row.category@ == category_label(record.category) && row.message@
                == record.message@ && row.actions@ == json_string_list_text(
                record.actions@.map_values(|a: ErrorAction| action_name(a)),
            ),
        },
        MIN_RFC3339_SECS <= record.occurred_at.0 <= MAX_RFC3339_SECS && record.occurred_at.1
            < 1_000_000_000 ==> (r matches Ok(row)
            && match error_row_outcome(
            row.id@,
            row.occurred_at@,
            row.severity@,
            row.category@,
            row.message@,
            Ok::<Seq<ErrorAction>, Seq<char>>(record.actions@),
        ) {
            Ok(f) => f == record_fields(*record),
            Err(_) => false,
        }),
{
    let occurred_at = match rfc3339_text(record.occurred_at.0, record.occurred_at.1) {
        Some(t) => t,
        None => return Err(StorageError::Sqlite(owned("timestamp out of range"))),
    };
    let names = action_names(&record.actions);
    let sev_json = encode_json_string(record.severity.as_str());
    proof {
        lemma_severity_name_plain(record.severity);
    }
    let severity = trim_quotes_exec(sev_json.as_str());
    proof {
        lemma_trim_quoted(severity_name(record.severity));
        assert(quoted(severity@) == sev_json@);
    }
    let row = ErrorRow {
        id: uuid_text(record.id.0),
        occurred_at,
        severity,
        category: owned(record.category.label()),
        message: owned(record.message.as_str()),
        actions: encode_string_list(&names),
    };
    proof {
        lemma_severity_named(record.severity);
        lemma_category_named(record.category);
    }
    Ok(row)
}

// ---------------------------------------------------------------------------
// Crash-report rows
// ---------------------------------------------------------------------------

/// The columns of one `crash_reports` row.
#[derive(Clone, Debug)]
pub struct CrashRow {
    pub id: String,
    pub panic_message: String,
    pub backtrace: String,
    pub app_version: String,
    pub os: String,
    pub arch: String,
    pub timestamp: String,
    pub render_path: bool,
    /// A JSON array of the recent error messages.
    pub recent_errors: String,
}

/// The fields of a crash report, as text.
pub type CrashFields = (
    Seq<char>,
    Seq<char>,
    Seq<char>,
    Seq<char>,
    Seq<char>,
    Seq<char>,
    Seq<char>,
    bool,
    Seq<Seq<char>>,
);

pub open spec fn report_fields(r: CrashReport) -> CrashFields {
    (
        r.id@,
        r.panic_message@,
        r.backtrace@,
        r.app_version@,
        r.os@,
        r.arch@,
        r.timestamp@,
        r.render_path,
        strings_view(r.recent_errors@),
    )
}

/// What a `crash_reports` row decodes to: the report's fields, or the JSON
/// parser's message for a recent-errors column that is no list of strings.
pub open spec fn crash_row_outcome(row: CrashRow) -> Result<CrashFields, Seq<char>> {
    match json_string_list(row.recent_errors@) {
        Err(m) => Err(m),
        Ok(errors) => Ok(
            (
                row.id@,
                row.panic_message@,
                row.backtrace@,
                row.app_version@,
                row.os@,
                row.arch@,
                row.timestamp@,
                row.render_path,
                errors,
            ),
        ),
    }
}

/// Decode a `crash_reports` row read back from the database.
pub fn decode_crash_row(row: &CrashRow) -> (r: Result<CrashReport, StorageError>)
    ensures
        match r {
            Ok(rep) => crash_row_outcome(*row) == Ok::<CrashFields, Seq<char>>(report_fields(rep)),
            Err(e) => crash_row_outcome(*row) == Err::<CrashFields, Seq<char>>(
                storage_error_text(e),
            ),
        },
{
    let recent_errors = match parse_string_list(row.recent_errors.as_str()) {
        Ok(v) => v,
        Err(m) => return Err(StorageError::Sqlite(m)),
    };
    Ok(
        CrashReport {
            id: owned(row.id.as_str()),
            panic_message: owned(row.panic_message.as_str()),
            backtrace: owned(row.backtrace.as_str()),
            app_version: owned(row.app_version.as_str()),
            os: owned(row.os.as_str()),
            arch: owned(row.arch.as_str()),
            timestamp: owned(row.timestamp.as_str()),
            render_path: row.render_path,
            recent_errors,
        },
    )
}

/// The row a crash report is stored as; reading it back gives the same
/// report.
pub fn encode_crash_row(report: &CrashReport) -> (r: CrashRow)
    ensures
        r.id@ == report.id@,
        r.panic_message@ == report.panic_message@,
        r.backtrace@ == report.backtrace@,
        r.app_version@ == report.app_version@,
        r.os@ == report.os@,
        r.arch@ == report.arch@,
        r.timestamp@ == report.timestamp@,
        r.render_path == report.render_path,
        r.recent_errors@ == json_string_list_text(strings_view(report.recent_errors@)),
        crash_row_outcome(r) == Ok::<CrashFields, Seq<char>>(report_fields(*report)),
{
    CrashRow {
        id: owned(report.id.as_str()),
        panic_message: owned(report.panic_message.as_str()),
        backtrace: owned(report.backtrace.as_str()),
        app_version: owned(report.app_version.as_str()),
        os: owned(report.os.as_str()),
        arch: owned(report.arch.as_str()),
        timestamp: owned(report.timestamp.as_str()),
        render_path: report.render_path,
        recent_errors: encode_string_list(&report.recent_errors),
    }
}

/// Law: a stored crash report reads back as the same report.
pub proof fn lemma_crash_row_round_trip(report: CrashReport, row: CrashRow)
    requires
        row.id@ == report.id@,
        row.panic_message@ == report.panic_message@,
        row.backtrace@ == report.backtrace@,
        row.app_version@ == report.app_version@,
        row.os@ == report.os@,
        row.arch@ == report.arch@,
        row.timestamp@ == report.timestamp@,
        row.render_path == report.render_path,
        json_string_list(row.recent_errors@) == Ok::<Seq<Seq<char>>, Seq<char>>(
            strings_view(report.recent_errors@),
        ),
    ensures
        crash_row_outcome(row) == Ok::<CrashFields, Seq<char>>(report_fields(report)),
{
}

} // verus!
