//! Non-fatal config validation: lints config values into warnings without
//! ever rejecting the load. (Window bounds are floating-point and are linted
//! outside this library.)

use vstd::prelude::*;

use crate::state::lex::{insert_sorted, lex_lt, strictly_sorted, views};
use crate::text::{append_chars, append_str, owned, str_eq, to_chars, trim, trim_exec};

verus! {

broadcast use vstd::string::group_string_axioms;

/// How serious a single lint is.
#[derive(Clone, Copy, Debug, PartialEq, Eq, Structural)]
pub enum LintSeverity {
    /// Informational note; no action required.
    Info,
    /// Probably warrants attention, but the app still runs correctly.
    Warning,
    /// A value the app cannot interpret; it falls back to a default.
    Error,
}

pub open spec fn severity_label(s: LintSeverity) -> Seq<char> {
    match s {
        LintSeverity::Info => "info"@,
        LintSeverity::Warning => "warning"@,
        LintSeverity::Error => "error"@,
    }
}

impl LintSeverity {
    /// Lowercase label for log lines and diagnostics rows.
    pub fn as_str(self) -> (r: &'static str)
        ensures
            r@ == severity_label(self),
    {
        match self {
            LintSeverity::Info => "info",
            LintSeverity::Warning => "warning",
            LintSeverity::Error => "error",
        }
    }
}

/// A single non-fatal warning; `field` is a dotted path for UI grouping.
#[derive(Clone, Debug)]
pub struct ConfigLint {
    pub field: String,
    pub message: String,
    pub severity: LintSeverity,
}

impl ConfigLint {
    pub fn new(field: String, severity: LintSeverity, message: String) -> (r: Self)
        ensures
            r.field == field,
            r.severity == severity,
            r.message == message,
    {
        ConfigLint { field, severity, message }
    }
}

/// How `{:?}` writes a string: quoted, with quotes, backslashes and
/// non-printable characters escaped.
pub uninterp spec fn debug_str(s: Seq<char>) -> Seq<char>;

/// `format!("{:?}", s)`: the string's `Debug` form, named rather than
/// restated.
#[verifier::external_body]
fn debug_quoted(s: &str) -> (r: String)
    ensures
        r@ == debug_str(s@),
{
    format!("{:?}", s)
}

/// A lint is exactly the given field, severity and message.
pub open spec fn lint_is(l: ConfigLint, field: Seq<char>, severity: LintSeverity, message: Seq<char>) -> bool {
    l.field@ == field && l.severity == severity && l.message@ == message
}

pub open spec fn is_known_channel(c: Seq<char>) -> bool {
    c == "stable"@ || c == "beta"@ || c == "nightly"@
}

/// `update_channel` must be one of the recognised channels.
pub fn validate_update_channel(channel: &str) -> (r: Vec<ConfigLint>)
    ensures
        channel@.len() == 0 ==> r@.len() == 1 && lint_is(
            r@[0],
            "update_channel"@,
            LintSeverity::Warning,
            "update_channel is empty; the updater will default to \"stable\""@,
        ),
        channel@.len() > 0 && !is_known_channel(channel@) ==> r@.len() == 1 && lint_is(
            r@[0],
            "update_channel"@,
            LintSeverity::Warning,
            "update_channel = "@ + debug_str(channel@)
                + " is not recognised (expected one of [\"stable\", \"beta\", \"nightly\"]); the updater will fall back to \"stable\""@,
        ),
        channel@.len() > 0 && is_known_channel(channel@) ==> r@.len() == 0,
{
    let mut out: Vec<ConfigLint> = Vec::new();
    if channel.is_empty() {
        out.push(
            ConfigLint::new(
                owned("update_channel"),
                LintSeverity::Warning,
                owned("update_channel is empty; the updater will default to \"stable\""),
            ),
        );
        return out;
    }
    if !str_eq(channel, "stable") && !str_eq(channel, "beta") && !str_eq(channel, "nightly") {
        let mut m = owned("update_channel = ");
        let q = debug_quoted(channel);
        append_str(&mut m, q.as_str());
        append_str(
            &mut m,
            " is not recognised (expected one of [\"stable\", \"beta\", \"nightly\"]); the updater will fall back to \"stable\"",
        );
        out.push(ConfigLint::new(owned("update_channel"), LintSeverity::Warning, m));
    }
    out
}

pub open spec fn is_known_locale(l: Seq<char>) -> bool {
    l == "en"@ || l == "zh-CN"@
}

/// `locale` must be one of the shipped locales.
pub fn validate_locale(locale: &str) -> (r: Vec<ConfigLint>)
    ensures
        locale@.len() == 0 ==> r@.len() == 1 && lint_is(
            r@[0],
            "locale"@,
            LintSeverity::Warning,
            "locale is empty; falling back to \"en\""@,
        ),
        locale@.len() > 0 && !is_known_locale(locale@) ==> r@.len() == 1 && lint_is(
            r@[0],
            "locale"@,
            LintSeverity::Warning,
            "locale = "@ + debug_str(locale@)
                + " has no bundled translations (expected one of [\"en\", \"zh-CN\"]); falling back to \"en\""@,
        ),
        locale@.len() > 0 && is_known_locale(locale@) ==> r@.len() == 0,
{
    let mut out: Vec<ConfigLint> = Vec::new();
    if locale.is_empty() {
        out.push(
            ConfigLint::new(
                owned("locale"),
                LintSeverity::Warning,
                owned("locale is empty; falling back to \"en\""),
            ),
        );
        return out;
    }
    if !str_eq(locale, "en") && !str_eq(locale, "zh-CN") {
        let mut m = owned("locale = ");
        let q = debug_quoted(locale);
        append_str(&mut m, q.as_str());
        append_str(
            &mut m,
            " has no bundled translations (expected one of [\"en\", \"zh-CN\"]); falling back to \"en\"",
        );
        out.push(ConfigLint::new(owned("locale"), LintSeverity::Warning, m));
    }
    out
}

/// `theme` must not be blank.
pub fn validate_theme(theme: &str) -> (r: Vec<ConfigLint>)
    ensures
        trim(theme@).len() == 0 ==> r@.len() == 1 && lint_is(
            r@[0],
            "theme"@,
            LintSeverity::Warning,
            "theme is empty or blank; the default theme will be used"@,
        ),
        trim(theme@).len() > 0 ==> r@.len() == 0,
{
    let mut out: Vec<ConfigLint> = Vec::new();
    let t = trim_exec(to_chars(theme).as_slice());
    if t.len() == 0 {
        out.push(
            ConfigLint::new(
                owned("theme"),
                LintSeverity::Warning,
                owned("theme is empty or blank; the default theme will be used"),
            ),
        );
    }
    out
}

/// The permission keys this build understands.
pub open spec fn is_known_permission(p: Seq<char>) -> bool {
    p == "notifications"@
}

pub open spec fn permission_field(name: Seq<char>) -> Seq<char> {
    "granted_permissions."@ + name
}

pub open spec fn permission_message(name: Seq<char>) -> Seq<char> {
    "granted permission "@ + debug_str(name)
        + " is not recognised by this build (known: [\"notifications\"]); it will be ignored"@
}

/// The permission name a permission lint is about.
pub open spec fn lint_permission(l: ConfigLint) -> Seq<char> {
    l.field@.skip("granted_permissions."@.len() as int)
}

/// `n` is one of the first `i` entries of `granted`.
/// The permission names a list of lints is about, in order.
pub open spec fn lint_permissions(lints: Seq<ConfigLint>) -> Seq<Seq<char>> {
    lints.map_values(|l: ConfigLint| lint_permission(l))
}

pub open spec fn in_prefix(granted: Seq<String>, i: int, n: Seq<char>) -> bool {
    exists|j: int| 0 <= j < i && #[trigger] granted[j]@ == n
}

proof fn lemma_in_prefix_step(granted: Seq<String>, i: int, n: Seq<char>)
    requires
        0 <= i < granted.len(),
    ensures
        in_prefix(granted, i + 1, n) <==> (in_prefix(granted, i, n) || granted[i]@ == n),
{
    if in_prefix(granted, i + 1, n) {
        let j = choose|j: int| 0 <= j < i + 1 && #[trigger] granted[j]@ == n;
        if j < i {
            assert(in_prefix(granted, i, n));
        }
    }
    if in_prefix(granted, i, n) {
        let j = choose|j: int| 0 <= j < i && #[trigger] granted[j]@ == n;
        assert(0 <= j < i + 1 && granted[j]@ == n);
    }
    if granted[i]@ == n {
        assert(0 <= i < i + 1 && granted[i]@ == n);
    }
}

/// `granted` (the entries of the granted-permission set) should only hold
/// keys the app understands: one informational lint per distinct unknown
/// key, in sorted order.
pub fn validate_granted_permissions(granted: &[String]) -> (r: Vec<ConfigLint>)
    ensures
        strictly_sorted(lint_permissions(r@)),
        forall|i: int|
            0 <= i < r@.len() ==> lint_is(
                #[trigger] r@[i],
                permission_field(lint_permission(r@[i])),
                LintSeverity::Info,
                permission_message(lint_permission(r@[i])),
            ),
        forall|n: Seq<char>|
            lint_permissions(r@).contains(n) <==> in_prefix(
                granted@,
                granted@.len() as int,
                n,
            ) && !is_known_permission(n),
{
    let mut names: Vec<Vec<char>> = Vec::new();
    let mut i: usize = 0;
    while i < granted.len()
        invariant
            i <= granted.len(),
            strictly_sorted(views(names@)),
            forall|n: Seq<char>|
                #[trigger] views(names@).contains(n) <==> in_prefix(granted@, i as int, n)
                    && !is_known_permission(n),
        decreases granted.len() - i,
    {
        let p = granted[i].as_str();
        let ghost before = views(names@);
        assert(p@ == granted@[i as int]@);
        if !str_eq(p, "notifications") {
            insert_sorted(&mut names, to_chars(p));
        }
        assert forall|n: Seq<char>| #[trigger] views(names@).contains(n) <==> in_prefix(
            granted@,
            i + 1,
            n,
        ) && !is_known_permission(n) by {
            lemma_in_prefix_step(granted@, i as int, n);
            assert(before.contains(n) <==> in_prefix(granted@, i as int, n)
                && !is_known_permission(n));
        }
        i = i + 1;
    }
    let ghost sorted = views(names@);
    let mut out: Vec<ConfigLint> = Vec::new();
    let mut k: usize = 0;
    let prefix = to_chars("granted_permissions.");
    while k < names.len()
        invariant
            k <= names.len(),
            sorted == views(names@),
            strictly_sorted(sorted),
            forall|n: Seq<char>|
                #[trigger] sorted.contains(n) <==> in_prefix(granted@, granted@.len() as int, n)
                    && !is_known_permission(n),
            prefix@ == "granted_permissions."@,
            out@.len() == k,
            forall|i: int|
                0 <= i < k ==> lint_permission(#[trigger] out@[i]) == sorted[i] && lint_is(
                    out@[i],
                    permission_field(sorted[i]),
                    LintSeverity::Info,
                    permission_message(sorted[i]),
                ),
        decreases names.len() - k,
    {
        let name = names[k].as_slice();
        let mut field = crate::text::from_chars(prefix.as_slice());
        append_chars(&mut field, name);
        assert(field@.skip(prefix@.len() as int) =~= name@);
        let mut message = owned("granted permission ");
        let name_string = crate::text::from_chars(name);
        let q = debug_quoted(name_string.as_str());
        append_str(&mut message, q.as_str());
        append_str(
            &mut message,
            " is not recognised by this build (known: [\"notifications\"]); it will be ignored",
        );
        out.push(ConfigLint::new(field, LintSeverity::Info, message));
        k = k + 1;
    }
    assert(out@.map_values(|l: ConfigLint| lint_permission(l)) =~= sorted);
    out
}

} // verus!
