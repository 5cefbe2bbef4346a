//! Deep-link routing: `gpui-starter://<host>[/<segment>...]` URLs and their
//! web `#/<host>[/<segment>...]` hash form, parsed into [`AppRoute`]s.
//!
//! Parsing is defensive: the scheme must be the app's own, the host must be a
//! page host, `.`/`..` segments are resolved the way URL parsing resolves
//! them, and every remaining segment is checked for path traversal and
//! forbidden characters before any route is chosen. Query strings and
//! fragments are ignored.

use vstd::prelude::*;

use crate::shell::sidebar::{
    Page, all_pages, is_page_host, lemma_all_pages_complete, lemma_from_host_of_host,
    page_for_host, page_host, page_title, reveal_page_hosts,
};
use crate::text::{
    append_chars, append_str, char_is_control, chars_eq, chars_eq_str, contains_char,
    contains_chars, contains_seq, from_chars, is_control, is_space, occurs_at, occurs_at_exec,
    owned, strip_controls, strip_controls_exec, to_chars, trim, trim_end, trim_exec, trim_start,
};

verus! {

broadcast use vstd::string::group_string_axioms;

/// The URL scheme the app registers for deep links.
pub const APP_URL_SCHEME: &'static str = "gpui-starter";

/// Hosts a deep link may name: the host of every page.
pub const VALID_HOSTS: [&'static str; 9] = [
    "home",
    "form",
    "settings",
    "notifications",
    "diagnostics",
    "query-playground",
    "query-devtools-v2",
    "error-playground",
    "about",
];

/// A navigable location in the app.
#[derive(Clone, Copy, Debug, PartialEq, Eq, Structural)]
pub enum AppRoute {
    Page(Page),
    SettingsNotifications,
}

/// Why a deep link was refused.
#[derive(Clone, Copy, Debug, PartialEq, Eq, Structural)]
pub enum RouteErrorKind {
    /// The text before the first `:` is not the app's scheme.
    UnsupportedScheme,
    /// The host is not the host of any page.
    UnexpectedHost,
    /// A path segment could climb out of its parent (`.`, `..`, separators).
    PathTraversal,
    /// A path segment holds a control character or a `%` escape.
    ForbiddenCharacter,
    /// There is no `:` at all.
    MissingScheme,
    /// The app's scheme is not followed by `//`.
    MissingAuthority,
    /// Host and segments are valid but name no route.
    UnknownPath,
}

/// A refused deep link: the reason and the offending text with control
/// characters removed.
#[derive(Debug, PartialEq, Eq)]
pub struct RouteError {
    pub kind: RouteErrorKind,
    pub detail: String,
}

impl View for RouteError {
    type V = (RouteErrorKind, Seq<char>);

    open spec fn view(&self) -> (RouteErrorKind, Seq<char>) {
        (self.kind, self.detail@)
    }
}

pub open spec fn route_result_view(r: Result<AppRoute, RouteError>) -> Result<
    AppRoute,
    (RouteErrorKind, Seq<char>),
> {
    match r {
        Ok(route) => Ok(route),
        Err(e) => Err(e@),
    }
}

// ---------------------------------------------------------------------------
// Specification
// ---------------------------------------------------------------------------

pub open spec fn app_scheme() -> Seq<char> {
    "gpui-starter"@
}

/// `gpui-starter://`
pub open spec fn url_prefix() -> Seq<char> {
    "gpui-starter://"@
}

/// `k` is the index of the first `c` in `s`.
pub open spec fn is_first_index_of(s: Seq<char>, c: char, k: int) -> bool {
    0 <= k < s.len() && s[k] == c && forall|j: int| 0 <= j < k ==> s[j] != c
}

pub open spec fn is_query_start(c: char) -> bool {
    c == '?' || c == '#'
}

/// `k` is the index where the query or fragment of `s` begins.
pub open spec fn is_query_index(s: Seq<char>, k: int) -> bool {
    0 <= k < s.len() && is_query_start(s[k]) && forall|j: int| 0 <= j < k ==> !is_query_start(s[j])
}

/// `s` up to (not including) the first `?` or `#`.
pub open spec fn path_part(s: Seq<char>) -> Seq<char> {
    if exists|k: int| is_query_index(s, k) {
        s.take(choose|k: int| is_query_index(s, k))
    } else {
        s
    }
}

/// `s` cut at every `sep`; there is always at least one (possibly empty) part.
pub open spec fn split_on(s: Seq<char>, sep: char) -> Seq<Seq<char>>
    decreases s.len(),
{
    if s.len() == 0 {
        seq![Seq::empty()]
    } else {
        let prev = split_on(s.drop_last(), sep);
        if s.last() == sep {
            prev.push(Seq::empty())
        } else {
            prev.update(prev.len() - 1, prev.last().push(s.last()))
        }
    }
}

pub open spec fn dot() -> Seq<char> {
    seq!['.']
}

pub open spec fn dot_dot() -> Seq<char> {
    seq!['.', '.']
}

/// Path segments after URL dot-segment removal: empty and `.` segments
/// vanish, and `..` removes the segment before it (if any).
pub open spec fn normalize_segments(segs: Seq<Seq<char>>) -> Seq<Seq<char>>
    decreases segs.len(),
{
    if segs.len() == 0 {
        Seq::empty()
    } else {
        let prev = normalize_segments(segs.drop_last());
        let s = segs.last();
        if s.len() == 0 || s == dot() {
            prev
        } else if s == dot_dot() {
            if prev.len() > 0 {
                prev.drop_last()
            } else {
                prev
            }
        } else {
            prev.push(s)
        }
    }
}

/// A segment that could address something outside its parent.
pub open spec fn is_traversal_segment(seg: Seq<char>) -> bool {
    seg == dot() || contains_seq(seg, dot_dot()) || seg.contains('/') || seg.contains('\\')
}

pub open spec fn is_forbidden_char(c: char) -> bool {
    is_control(c) || c == '%'
}

/// A segment holding a control character or a percent escape.
pub open spec fn has_forbidden_char(seg: Seq<char>) -> bool {
    exists|i: int| 0 <= i < seg.len() && is_forbidden_char(seg[i])
}

/// What is wrong with one path segment, if anything.
pub open spec fn segment_error(seg: Seq<char>) -> Option<(RouteErrorKind, Seq<char>)> {
    if is_traversal_segment(seg) {
        Some((RouteErrorKind::PathTraversal, strip_controls(seg)))
    } else if has_forbidden_char(seg) {
        Some((RouteErrorKind::ForbiddenCharacter, strip_controls(seg)))
    } else {
        None
    }
}

/// The problem with the first faulty segment, if any.
pub open spec fn first_segment_error(segs: Seq<Seq<char>>) -> Option<(RouteErrorKind, Seq<char>)>
    decreases segs.len(),
{
    if segs.len() == 0 {
        None
    } else {
        match first_segment_error(segs.drop_last()) {
            Some(e) => Some(e),
            None => segment_error(segs.last()),
        }
    }
}

/// The route a valid host and normalized segments name.
pub open spec fn route_for(host: Seq<char>, segs: Seq<Seq<char>>) -> Option<AppRoute> {
    if segs.len() == 0 {
        match page_for_host(host) {
            Some(p) => Some(AppRoute::Page(p)),
            None => None,
        }
    } else if host == page_host(Page::Settings) && segs == seq![page_host(Page::Notifications)] {
        Some(AppRoute::SettingsNotifications)
    } else {
        None
    }
}

/// Parse an already trimmed deep link.
pub open spec fn parse_trimmed(s: Seq<char>) -> Result<AppRoute, (RouteErrorKind, Seq<char>)> {
    let pre = url_prefix();
    if s.len() >= pre.len() && s.take(pre.len() as int) == pre {
        let body = path_part(s.skip(pre.len() as int));
        let parts = split_on(body, '/');
        let host = parts[0];
        if !is_page_host(host) {
            Err((RouteErrorKind::UnexpectedHost, strip_controls(host)))
        } else {
            let segs = normalize_segments(parts.skip(1));
            match first_segment_error(segs) {
                Some(e) => Err(e),
                None => match route_for(host, segs) {
                    Some(r) => Ok(r),
                    None => Err((RouteErrorKind::UnknownPath, strip_controls(body))),
                },
            }
        }
    } else if exists|k: int| is_first_index_of(s, ':', k) {
        let k = choose|k: int| is_first_index_of(s, ':', k);
        if s.take(k) == app_scheme() {
            Err((RouteErrorKind::MissingAuthority, strip_controls(s)))
        } else {
            Err((RouteErrorKind::UnsupportedScheme, strip_controls(s.take(k))))
        }
    } else {
        Err((RouteErrorKind::MissingScheme, strip_controls(s)))
    }
}

/// The outcome of parsing the deep link `s`.
pub open spec fn spec_parse_deep_link(s: Seq<char>) -> Result<
    AppRoute,
    (RouteErrorKind, Seq<char>),
> {
    parse_trimmed(trim(s))
}

/// The route path of a hash: trimmed, without one leading `#` and one
/// leading `/`.
pub open spec fn hash_path(h: Seq<char>) -> Seq<char> {
    let t = trim(h);
    let t1 = if t.len() > 0 && t[0] == '#' {
        t.skip(1)
    } else {
        t
    };
    if t1.len() > 0 && t1[0] == '/' {
        t1.skip(1)
    } else {
        t1
    }
}

/// The outcome of resolving the web location hash `h`: blank hashes go to
/// the default route, all others parse as the deep link they stand for.
pub open spec fn spec_from_hash(h: Seq<char>) -> Result<AppRoute, (RouteErrorKind, Seq<char>)> {
    let p = hash_path(h);
    if trim(p).len() == 0 {
        Ok(AppRoute::Page(Page::Home))
    } else {
        spec_parse_deep_link(url_prefix() + p)
    }
}

/// The route path of a route: host, and for the sub-route its segment.
pub open spec fn route_path(r: AppRoute) -> Seq<char> {
    match r {
        AppRoute::Page(p) => page_host(p),
        AppRoute::SettingsNotifications => page_host(Page::Settings) + "/"@ + page_host(
            Page::Notifications,
        ),
    }
}

/// The canonical deep link of a route.
pub open spec fn route_url(r: AppRoute) -> Seq<char> {
    url_prefix() + route_path(r)
}

/// The web hash of a route.
pub open spec fn route_hash(r: AppRoute) -> Seq<char> {
    "#/"@ + route_path(r)
}

pub open spec fn route_title(r: AppRoute) -> Seq<char> {
    match r {
        AppRoute::Page(p) => page_title(p),
        AppRoute::SettingsNotifications => page_title(Page::Settings),
    }
}

/// The human-readable message of a route error.
pub open spec fn route_error_message(kind: RouteErrorKind, detail: Seq<char>) -> Seq<char> {
    match kind {
        RouteErrorKind::UnsupportedScheme => "unsupported scheme \""@ + detail
            + "\" (expected \"gpui-starter\")"@,
        RouteErrorKind::UnexpectedHost => "unexpected host \""@ + detail + "\""@,
        RouteErrorKind::PathTraversal => "path traversal in deep link segment \""@ + detail
            + "\""@,
        RouteErrorKind::ForbiddenCharacter => "forbidden character in deep link segment \""@
            + detail + "\""@,
        RouteErrorKind::MissingScheme => "invalid deep link: no scheme in \""@ + detail + "\""@,
        RouteErrorKind::MissingAuthority => "invalid deep link: expected \"gpui-starter://\" in \""@
            + detail + "\""@,
        RouteErrorKind::UnknownPath => "invalid deep link: no route for \""@ + detail + "\""@,
    }
}

pub open spec fn chars_of(v: Seq<Vec<char>>) -> Seq<Seq<char>> {
    v.map_values(|x: Vec<char>| x@)
}

// ---------------------------------------------------------------------------
// Lemmas
// ---------------------------------------------------------------------------

pub proof fn lemma_split_nonempty(s: Seq<char>, sep: char)
    ensures
        split_on(s, sep).len() >= 1,
    decreases s.len(),
{
    if s.len() > 0 {
        lemma_split_nonempty(s.drop_last(), sep);
    }
}

/// Appending text without separators to `s` extends the last part.
pub proof fn lemma_split_extend(a: Seq<char>, b: Seq<char>, sep: char)
    requires
        !b.contains(sep),
    ensures
        split_on(a + b, sep) == split_on(a, sep).update(
            split_on(a, sep).len() - 1,
            split_on(a, sep).last() + b,
        ),
    decreases b.len(),
{
    lemma_split_nonempty(a, sep);
    if b.len() == 0 {
        assert(a + b =~= a);
        assert(split_on(a, sep).last() + b =~= split_on(a, sep).last());
        assert(split_on(a, sep).update(split_on(a, sep).len() - 1, split_on(a, sep).last())
            =~= split_on(a, sep));
    } else {
        let b0 = b.drop_last();
        assert(!b0.contains(sep)) by {
            if b0.contains(sep) {
                let i = choose|i: int| 0 <= i < b0.len() && b0[i] == sep;
                assert(b[i] == sep);
            }
        }
        lemma_split_extend(a, b0, sep);
        assert((a + b).drop_last() =~= a + b0);
        assert((a + b).last() == b.last());
        assert(b.last() != sep) by {
            assert(b[b.len() - 1] == b.last());
        }
        lemma_split_nonempty(a + b0, sep);
        assert(split_on(a, sep).last() + b =~= (split_on(a, sep).last() + b0).push(b.last()));
        assert(split_on(a + b, sep) =~= split_on(a, sep).update(
            split_on(a, sep).len() - 1,
            split_on(a, sep).last() + b,
        ));
    }
}

/// A separator-free text is a single part.
pub proof fn lemma_split_single(b: Seq<char>, sep: char)
    requires
        !b.contains(sep),
    ensures
        split_on(b, sep) == seq![b],
{
    lemma_split_extend(Seq::empty(), b, sep);
    assert(Seq::<char>::empty() + b =~= b);
    assert(split_on(Seq::<char>::empty(), sep) == seq![Seq::<char>::empty()]);
    assert(Seq::<char>::empty() + b =~= b);
    assert(seq![Seq::<char>::empty()].update(0, Seq::<char>::empty() + b) =~= seq![b]);
}

/// `a/b` with separator-free `a` and `b` splits into `[a, b]`.
pub proof fn lemma_split_pair(a: Seq<char>, b: Seq<char>, sep: char)
    requires
        !a.contains(sep),
        !b.contains(sep),
    ensures
        split_on(a.push(sep) + b, sep) == seq![a, b],
{
    lemma_split_single(a, sep);
    assert(a.push(sep).drop_last() =~= a);
    assert(split_on(a.push(sep), sep) =~= seq![a, Seq::<char>::empty()]);
    lemma_split_extend(a.push(sep), b, sep);
    assert(Seq::<char>::empty() + b =~= b);
    assert(seq![a, Seq::<char>::empty()].update(1, Seq::<char>::empty() + b) =~= seq![a, b]);
}

/// Once a prefix of the segments holds a faulty segment, longer prefixes
/// report the same one.
pub proof fn lemma_first_error_stable(segs: Seq<Seq<char>>, n: int, m: int)
    requires
        0 <= n <= m <= segs.len(),
        first_segment_error(segs.take(n)) is Some,
    ensures
        first_segment_error(segs.take(m)) == first_segment_error(segs.take(n)),
    decreases m - n,
{
    if m > n {
        lemma_first_error_stable(segs, n, m - 1);
        assert(segs.take(m).drop_last() =~= segs.take(m - 1));
    }
}

/// The literal characters of the app scheme and its URL prefix.
pub proof fn reveal_url_prefix()
    ensures
        app_scheme() == seq!['g', 'p', 'u', 'i', '-', 's', 't', 'a', 'r', 't', 'e', 'r'],
        url_prefix() == app_scheme() + seq![':', '/', '/'],
        "/"@ == seq!['/'],
        "#/"@ == seq!['#', '/'],
{
    reveal_strlit("gpui-starter");
    reveal_strlit("gpui-starter://");
    reveal_strlit("/");
    reveal_strlit("#/");
    assert(app_scheme() =~= seq!['g', 'p', 'u', 'i', '-', 's', 't', 'a', 'r', 't', 'e', 'r']);
    assert(url_prefix() =~= app_scheme() + seq![':', '/', '/']);
    assert("/"@ =~= seq!['/']);
    assert("#/"@ =~= seq!['#', '/']);
}

// ---------------------------------------------------------------------------
// Parsing
// ---------------------------------------------------------------------------

fn route_error(kind: RouteErrorKind, text: &[char]) -> (r: RouteError)
    ensures
        r@ == (kind, strip_controls(text@)),
{
    let clean = strip_controls_exec(text);
    RouteError { kind, detail: from_chars(clean.as_slice()) }
}

fn copy_range(s: &[char], from: usize, to: usize) -> (r: Vec<char>)
    requires
        from <= to <= s.len(),
    ensures
        r@ == s@.subrange(from as int, to as int),
{
    let mut out: Vec<char> = Vec::new();
    let mut i: usize = from;
    while i < to
        invariant
            from <= i <= to,
            to <= s.len(),
            out@ == s@.subrange(from as int, i as int),
        decreases to - i,
    {
        out.push(s[i]);
        assert(s@.subrange(from as int, i + 1) =~= s@.subrange(from as int, i as int).push(
            s@[i as int],
        ));
        i = i + 1;
    }
    out
}

fn find_first(s: &[char], c: char) -> (r: Option<usize>)
    ensures
        match r {
            Some(k) => is_first_index_of(s@, c, k as int),
            None => forall|j: int| 0 <= j < s.len() ==> s@[j] != c,
        },
{
    let mut i: usize = 0;
    while i < s.len()
        invariant
            i <= s.len(),
            forall|j: int| 0 <= j < i ==> s@[j] != c,
        decreases s.len() - i,
    {
        if s[i] == c {
            return Some(i);
        }
        i = i + 1;
    }
    None
}

fn path_part_exec(s: &[char]) -> (r: Vec<char>)
    ensures
        r@ == path_part(s@),
{
    let mut i: usize = 0;
    while i < s.len()
        invariant
            i <= s.len(),
            forall|j: int| 0 <= j < i ==> !is_query_start(s@[j]),
        decreases s.len() - i,
    {
        if s[i] == '?' || s[i] == '#' {
            proof {
                assert(is_query_index(s@, i as int));
                let k = choose|k: int| is_query_index(s@, k);
                assert(k == i) by {
                    if k < i {
                        assert(!is_query_start(s@[k]));
                    } else if k > i {
                        assert(!is_query_start(s@[i as int]));
                    }
                }
            }
            return copy_range(s, 0, i);
        }
        i = i + 1;
    }
    assert(!exists|k: int| is_query_index(s@, k));
    copy_range(s, 0, s.len())
}

fn split_slash(s: &[char]) -> (r: Vec<Vec<char>>)
    ensures
        chars_of(r@) == split_on(s@, '/'),
        r@.len() >= 1,
{
    let mut parts: Vec<Vec<char>> = Vec::new();
    let mut cur: Vec<char> = Vec::new();
    let mut i: usize = 0;
    assert(s@.take(0) =~= Seq::<char>::empty());
    assert(chars_of(parts@).push(cur@) =~= seq![Seq::<char>::empty()]);
    while i < s.len()
        invariant
            i <= s.len(),
            chars_of(parts@).push(cur@) == split_on(s@.take(i as int), '/'),
        decreases s.len() - i,
    {
        let ghost before = chars_of(parts@).push(cur@);
        assert(s@.take(i + 1).drop_last() =~= s@.take(i as int));
        assert(s@.take(i + 1).last() == s@[i as int]);
        if s[i] == '/' {
            parts.push(cur);
            cur = Vec::new();
            assert(chars_of(parts@) =~= before);
            assert(chars_of(parts@).push(cur@) =~= before.push(Seq::empty()));
        } else {
            let ghost old_cur = cur@;
            cur.push(s[i]);
            assert(chars_of(parts@).push(cur@) =~= before.update(
                before.len() - 1,
                before.last().push(s@[i as int]),
            ));
        }
        i = i + 1;
    }
    assert(s@.take(s.len() as int) =~= s@);
    let ghost fin = chars_of(parts@).push(cur@);
    parts.push(cur);
    assert(chars_of(parts@) =~= fin);
    parts
}

fn copy_chars(v: &[char]) -> (r: Vec<char>)
    ensures
        r@ == v@,
{
    copy_range(v, 0, v.len())
}

fn normalize_exec(parts: &Vec<Vec<char>>) -> (r: Vec<Vec<char>>)
    requires
        parts@.len() >= 1,
    ensures
        chars_of(r@) == normalize_segments(chars_of(parts@).skip(1)),
{
    let ghost all = chars_of(parts@);
    let mut out: Vec<Vec<char>> = Vec::new();
    let mut i: usize = 1;
    assert(all.subrange(1, 1) =~= Seq::<Seq<char>>::empty());
    assert(chars_of(out@) =~= Seq::<Seq<char>>::empty());
    while i < parts.len()
        invariant
            1 <= i <= parts.len(),
            all == chars_of(parts@),
            chars_of(out@) == normalize_segments(all.subrange(1, i as int)),
        decreases parts.len() - i,
    {
        let ghost prev = chars_of(out@);
        let seg = parts[i].as_slice();
        assert(all.subrange(1, i + 1).drop_last() =~= all.subrange(1, i as int));
        assert(all.subrange(1, i + 1).last() == seg@);
        if seg.len() == 0 || (seg.len() == 1 && seg[0] == '.') {
            if seg.len() == 1 {
                assert(seg@ =~= dot());
            }
        } else if seg.len() == 2 && seg[0] == '.' && seg[1] == '.' {
            assert(seg@ =~= dot_dot());
            assert(seg@ != dot());
            if out.len() > 0 {
                out.pop();
                assert(chars_of(out@) =~= prev.drop_last());
            }
        } else {
            assert(seg@ != dot()) by {
                if seg@ == dot() {
                    assert(seg@.len() == 1);
                }
            }
            assert(seg@ != dot_dot()) by {
                if seg@ == dot_dot() {
                    assert(seg@.len() == 2);
                }
            }
            out.push(copy_chars(seg));
            assert(chars_of(out@) =~= prev.push(seg@));
        }
        i = i + 1;
    }
    assert(all.subrange(1, parts.len() as int) =~= all.skip(1));
    out
}

fn segment_error_exec(seg: &[char]) -> (r: Option<RouteError>)
    ensures
        match r {
            Some(e) => segment_error(seg@) == Some(e@),
            None => segment_error(seg@) is None,
        },
{
    let dd: [char; 2] = ['.', '.'];
    assert(dd@ =~= dot_dot());
    let is_dot = seg.len() == 1 && seg[0] == '.';
    if is_dot {
        assert(seg@ =~= dot());
    } else {
        assert(seg@ != dot()) by {
            if seg@ == dot() {
                assert(seg@.len() == 1);
            }
        }
    }
    if is_dot || contains_chars(seg, &dd) || contains_char(seg, '/') || contains_char(seg, '\\') {
        return Some(route_error(RouteErrorKind::PathTraversal, seg));
    }
    assert(!is_traversal_segment(seg@));
    let mut i: usize = 0;
    while i < seg.len()
        invariant
            i <= seg.len(),
            !is_traversal_segment(seg@),
            forall|j: int| 0 <= j < i ==> !is_forbidden_char(seg@[j]),
        decreases seg.len() - i,
    {
        if char_is_control(seg[i]) || seg[i] == '%' {
            assert(is_forbidden_char(seg@[i as int]));
            return Some(route_error(RouteErrorKind::ForbiddenCharacter, seg));
        }
        i = i + 1;
    }
    None
}

fn first_segment_error_exec(segs: &Vec<Vec<char>>) -> (r: Option<RouteError>)
    ensures
        match r {
            Some(e) => first_segment_error(chars_of(segs@)) == Some(e@),
            None => first_segment_error(chars_of(segs@)) is None,
        },
{
    let ghost all = chars_of(segs@);
    let mut i: usize = 0;
    assert(all.take(0) =~= Seq::<Seq<char>>::empty());
    while i < segs.len()
        invariant
            i <= segs.len(),
            all == chars_of(segs@),
            first_segment_error(all.take(i as int)) is None,
        decreases segs.len() - i,
    {
        assert(all.take(i + 1).drop_last() =~= all.take(i as int));
        assert(all.take(i + 1).last() == segs@[i as int]@);
        match segment_error_exec(segs[i].as_slice()) {
            Some(e) => {
                proof {
                    lemma_first_error_stable(all, i + 1, all.len() as int);
                    assert(all.take(all.len() as int) =~= all);
                }
                return Some(e);
            },
            None => {},
        }
        i = i + 1;
    }
    assert(all.take(segs.len() as int) =~= all);
    None
}

fn route_for_exec(host: &[char], segs: &Vec<Vec<char>>) -> (r: Option<AppRoute>)
    ensures
        r == route_for(host@, chars_of(segs@)),
{
    if segs.len() == 0 {
        match Page::from_host_chars(host) {
            Some(p) => Some(AppRoute::Page(p)),
            None => None,
        }
    } else if segs.len() == 1 && chars_eq_str(host, Page::Settings.host()) && chars_eq_str(
        segs[0].as_slice(),
        Page::Notifications.host(),
    ) {
        assert(chars_of(segs@) =~= seq![page_host(Page::Notifications)]);
        Some(AppRoute::SettingsNotifications)
    } else {
        assert(chars_of(segs@) != seq![page_host(Page::Notifications)] || host@ != page_host(
            Page::Settings,
        )) by {
            if chars_of(segs@) == seq![page_host(Page::Notifications)] {
                assert(chars_of(segs@).len() == 1);
                assert(chars_of(segs@)[0] == segs@[0]@);
            }
        }
        None
    }
}

fn parse_trimmed_exec(s: &[char]) -> (r: Result<AppRoute, RouteError>)
    ensures
        route_result_view(r) == parse_trimmed(s@),
{
    let pre = to_chars("gpui-starter://");
    if occurs_at_exec(s, pre.as_slice(), 0) {
        assert(s@.take(pre@.len() as int) =~= s@.subrange(0, pre@.len() as int));
        let rest = copy_range(s, pre.len(), s.len());
        assert(rest@ =~= s@.skip(pre@.len() as int));
        let body = path_part_exec(rest.as_slice());
        let parts = split_slash(body.as_slice());
        let host = parts[0].as_slice();
        assert(host@ == chars_of(parts@)[0]);
        if Page::from_host_chars(host).is_none() {
            return Err(route_error(RouteErrorKind::UnexpectedHost, host));
        }
        let segs = normalize_exec(&parts);
        match first_segment_error_exec(&segs) {
            Some(e) => Err(e),
            None => match route_for_exec(host, &segs) {
                Some(route) => Ok(route),
                None => Err(route_error(RouteErrorKind::UnknownPath, body.as_slice())),
            },
        }
    } else {
        assert(!(s@.len() >= url_prefix().len() && s@.take(url_prefix().len() as int)
            == url_prefix())) by {
            if s@.len() >= url_prefix().len() && s@.take(url_prefix().len() as int)
                == url_prefix() {
                assert(s@.subrange(0, pre@.len() as int) =~= s@.take(pre@.len() as int));
            }
        }
        match find_first(s, ':') {
            Some(k) => {
                proof {
                    let k2 = choose|k2: int| is_first_index_of(s@, ':', k2);
                    assert(k2 == k as int) by {
                        if k2 < k as int {
                            assert(s@[k2] != ':');
                        } else if k2 > k as int {
                            assert(s@[k as int] != ':');
                        }
                    }
                }
                let scheme = copy_range(s, 0, k);
                assert(scheme@ =~= s@.take(k as int));
                if chars_eq_str(scheme.as_slice(), APP_URL_SCHEME) {
                    Err(route_error(RouteErrorKind::MissingAuthority, s))
                } else {
                    Err(route_error(RouteErrorKind::UnsupportedScheme, scheme.as_slice()))
                }
            },
            None => {
                assert(!exists|k: int| is_first_index_of(s@, ':', k));
                Err(route_error(RouteErrorKind::MissingScheme, s))
            },
        }
    }
}

/// `s` with every control character removed (tabs, newlines, NUL, ESC, ...).
pub fn sanitize_control_chars(s: &str) -> (r: String)
    ensures
        r@ == strip_controls(s@),
{
    let c = to_chars(s);
    let clean = strip_controls_exec(c.as_slice());
    from_chars(clean.as_slice())
}

/// Check one deep-link path segment for traversal and forbidden characters.
pub fn validate_path_segment(seg: &str) -> (r: Result<(), RouteError>)
    ensures
        match r {
            Ok(()) => segment_error(seg@) is None,
            Err(e) => segment_error(seg@) == Some(e@),
        },
{
    let c = to_chars(seg);
    match segment_error_exec(c.as_slice()) {
        Some(e) => Err(e),
        None => Ok(()),
    }
}

impl RouteError {
    /// The human-readable message.
    pub fn to_string(&self) -> (r: String)
        ensures
            r@ == route_error_message(self.kind, self.detail@),
    {
        let mut out = String::new();
        let (head, tail) = match self.kind {
            RouteErrorKind::UnsupportedScheme => (
                "unsupported scheme \"",
                "\" (expected \"gpui-starter\")",
            ),
            RouteErrorKind::UnexpectedHost => ("unexpected host \"", "\""),
            RouteErrorKind::PathTraversal => ("path traversal in deep link segment \"", "\""),
            RouteErrorKind::ForbiddenCharacter => (
                "forbidden character in deep link segment \"",
                "\"",
            ),
            RouteErrorKind::MissingScheme => ("invalid deep link: no scheme in \"", "\""),
            RouteErrorKind::MissingAuthority => (
                "invalid deep link: expected \"gpui-starter://\" in \"",
                "\"",
            ),
            RouteErrorKind::UnknownPath => ("invalid deep link: no route for \"", "\""),
        };
        append_str(&mut out, head);
        append_str(&mut out, self.detail.as_str());
        append_str(&mut out, tail);
        assert(out@ =~= route_error_message(self.kind, self.detail@));
        out
    }
}

impl Default for AppRoute {
    fn default() -> (r: Self)
        ensures
            r == AppRoute::Page(Page::Home),
    {
        AppRoute::Page(Page::Home)
    }
}

impl AppRoute {
    /// The route that shows `page`.
    pub fn page(page: Page) -> (r: Self)
        ensures
            r == AppRoute::Page(page),
    {
        AppRoute::Page(page)
    }

    /// The header title of the route.
    pub fn title(&self) -> (r: &'static str)
        ensures
            r@ == route_title(*self),
    {
        match self {
            AppRoute::Page(p) => p.title(),
            AppRoute::SettingsNotifications => Page::Settings.title(),
        }
    }

    /// The sidebar page highlighted while the route is shown.
    pub fn page_for_render(&self) -> (r: Page)
        ensures
            r == match *self {
                AppRoute::Page(p) => p,
                AppRoute::SettingsNotifications => Page::Settings,
            },
    {
        match self {
            AppRoute::Page(p) => *p,
            AppRoute::SettingsNotifications => Page::Settings,
        }
    }

    fn push_path(&self, out: &mut String)
        ensures
            final(out)@ == old(out)@ + route_path(*self),
    {
        match self {
            AppRoute::Page(p) => append_str(out, p.host()),
            AppRoute::SettingsNotifications => {
                append_str(out, Page::Settings.host());
                append_str(out, "/");
                append_str(out, Page::Notifications.host());
                assert(final(out)@ =~= old(out)@ + route_path(*self));
            },
        }
    }

    /// The canonical deep link, e.g. `gpui-starter://settings/notifications`.
    pub fn to_url(&self) -> (r: String)
        ensures
            r@ == route_url(*self),
    {
        let mut out = owned("gpui-starter://");
        self.push_path(&mut out);
        out
    }

    /// The web location hash, e.g. `#/settings/notifications`.
    pub fn to_hash(&self) -> (r: String)
        ensures
            r@ == route_hash(*self),
    {
        let mut out = owned("#/");
        self.push_path(&mut out);
        out
    }

    /// Parse a `gpui-starter://` deep link into a route.
    pub fn parse_deep_link(raw: &str) -> (r: Result<AppRoute, RouteError>)
        ensures
            route_result_view(r) == spec_parse_deep_link(raw@),
    {
        let c = to_chars(raw);
        let t = trim_exec(c.as_slice());
        parse_trimmed_exec(t.as_slice())
    }

    /// Resolve a web location hash (`#/settings`, `/home`, or blank for the
    /// default route) into a route.
    pub fn from_hash(hash: &str) -> (r: Result<AppRoute, RouteError>)
        ensures
            route_result_view(r) == spec_from_hash(hash@),
    {
        let c = to_chars(hash);
        let t = trim_exec(c.as_slice());
        let mut start: usize = 0;
        if start < t.len() && t[start] == '#' {
            start = start + 1;
        }
        if start < t.len() && t[start] == '/' {
            start = start + 1;
        }
        let path = copy_range(t.as_slice(), start, t.len());
        proof {
            let t0 = trim(hash@);
            let t1 = if t0.len() > 0 && t0[0] == '#' { t0.skip(1) } else { t0 };
            if t0.len() > 0 && t0[0] == '#' {
                if t1.len() > 0 && t1[0] == '/' {
                    assert(t1.skip(1) =~= t0.subrange(start as int, t0.len() as int));
                } else {
                    assert(t1 =~= t0.subrange(start as int, t0.len() as int));
                }
            } else {
                if t1.len() > 0 && t1[0] == '/' {
                    assert(t1.skip(1) =~= t0.subrange(start as int, t0.len() as int));
                } else {
                    assert(t1 =~= t0.subrange(start as int, t0.len() as int));
                }
            }
            assert(path@ == hash_path(hash@));
        }
        let trimmed_path = trim_exec(path.as_slice());
        if trimmed_path.len() == 0 {
            return Ok(AppRoute::Page(Page::Home));
        }
        let mut link = owned("gpui-starter://");
        append_chars(&mut link, path.as_slice());
        Self::parse_deep_link(link.as_str())
    }
}

// ---------------------------------------------------------------------------
// Laws
// ---------------------------------------------------------------------------

/// Characters that page hosts are made of.
pub open spec fn is_host_char(c: char) -> bool {
    ('a' <= c && c <= 'z') || ('0' <= c && c <= '9') || c == '-'
}

pub open spec fn all_host_chars(s: Seq<char>) -> bool {
    forall|i: int| 0 <= i < s.len() ==> is_host_char(#[trigger] s[i])
}

/// Every page host is a non-empty run of lowercase letters, digits and `-`.
pub proof fn lemma_page_host_chars(p: Page)
    ensures
        page_host(p).len() >= 1,
        all_host_chars(page_host(p)),
{
    reveal_page_hosts();
    let h = page_host(p);
    assert forall|i: int| 0 <= i < h.len() implies is_host_char(#[trigger] h[i]) by {
        match p {
            Page::Home => {},
            Page::Form => {},
            Page::Settings => {},
            Page::Notifications => {},
            Page::Diagnostics => {},
            Page::QueryPlayground => {},
            Page::QueryDevToolsV2 => {},
            Page::ErrorPlayground => {},
            Page::About => {},
        }
    }
}

proof fn lemma_host_chars_exclude(s: Seq<char>, c: char)
    requires
        all_host_chars(s),
        !is_host_char(c),
    ensures
        !s.contains(c),
{
    if s.contains(c) {
        let i = choose|i: int| 0 <= i < s.len() && s[i] == c;
        assert(is_host_char(s[i]));
    }
}

/// A host-character text is one valid, unchanged path segment.
proof fn lemma_host_segment_valid(s: Seq<char>)
    requires
        all_host_chars(s),
        s.len() >= 1,
    ensures
        segment_error(s) is None,
        s != dot(),
        s != dot_dot(),
        !s.contains('/'),
        !s.contains('?'),
        !s.contains('#'),
{
    lemma_host_chars_exclude(s, '.');
    lemma_host_chars_exclude(s, '/');
    lemma_host_chars_exclude(s, '\\');
    lemma_host_chars_exclude(s, '?');
    lemma_host_chars_exclude(s, '#');
    assert(s != dot()) by {
        if s == dot() {
            assert(s[0] == '.');
        }
    }
    assert(!contains_seq(s, dot_dot())) by {
        if contains_seq(s, dot_dot()) {
            let i = choose|i: int| occurs_at(s, dot_dot(), i);
            assert(s.subrange(i, i + 2)[0] == '.');
            assert(s[i] == '.');
        }
    }
    assert(!has_forbidden_char(s)) by {
        if has_forbidden_char(s) {
            let i = choose|i: int| 0 <= i < s.len() && is_forbidden_char(s[i]);
            assert(is_host_char(s[i]));
        }
    }
    assert(s != dot_dot()) by {
        if s == dot_dot() {
            assert(s[0] == '.');
        }
    }
}

proof fn lemma_no_query(s: Seq<char>)
    requires
        !s.contains('?'),
        !s.contains('#'),
    ensures
        path_part(s) == s,
{
    if exists|k: int| is_query_index(s, k) {
        let k = choose|k: int| is_query_index(s, k);
        assert(s[k] == '?' || s[k] == '#');
    }
}

proof fn lemma_trim_unchanged(s: Seq<char>)
    requires
        s.len() >= 1,
        !is_space(s[0]),
        !is_space(s.last()),
    ensures
        trim(s) == s,
{
}

/// The route path of every route: host characters, with one `/` between
/// `settings` and `notifications` for the sub-route.
proof fn lemma_route_path_shape(r: AppRoute)
    ensures
        route_path(r).len() >= 1,
        is_host_char(route_path(r)[0]),
        is_host_char(route_path(r).last()),
        !route_path(r).contains('?'),
        !route_path(r).contains('#'),
{
    reveal_url_prefix();
    match r {
        AppRoute::Page(p) => {
            lemma_page_host_chars(p);
            lemma_host_segment_valid(page_host(p));
        },
        AppRoute::SettingsNotifications => {
            let a = page_host(Page::Settings);
            let b = page_host(Page::Notifications);
            lemma_page_host_chars(Page::Settings);
            lemma_page_host_chars(Page::Notifications);
            lemma_host_segment_valid(a);
            lemma_host_segment_valid(b);
            let path = route_path(r);
            assert(path =~= a.push('/') + b);
            assert(path[0] == a[0]);
            assert(path.last() == b.last());
            assert(!path.contains('?')) by {
                if path.contains('?') {
                    let i = choose|i: int| 0 <= i < path.len() && path[i] == '?';
                    if i < a.len() {
                        assert(a[i] == '?');
                    } else if i > a.len() {
                        assert(b[i - a.len() - 1] == '?');
                    }
                }
            }
            assert(!path.contains('#')) by {
                if path.contains('#') {
                    let i = choose|i: int| 0 <= i < path.len() && path[i] == '#';
                    if i < a.len() {
                        assert(a[i] == '#');
                    } else if i > a.len() {
                        assert(b[i - a.len() - 1] == '#');
                    }
                }
            }
        },
    }
}

/// Parsing the prefixed route path of any route gives the route back.
proof fn lemma_parse_route_path(r: AppRoute)
    ensures
        parse_trimmed(url_prefix() + route_path(r)) == Ok::<AppRoute, (RouteErrorKind, Seq<char>)>(r),
{
    reveal_url_prefix();
    lemma_route_path_shape(r);
    let pre = url_prefix();
    let path = route_path(r);
    let s = pre + path;
    assert(s.take(pre.len() as int) =~= pre);
    assert(s.skip(pre.len() as int) =~= path);
    lemma_no_query(path);
    let parts = split_on(path, '/');
    match r {
        AppRoute::Page(p) => {
            lemma_page_host_chars(p);
            lemma_host_segment_valid(page_host(p));
            lemma_split_single(path, '/');
            lemma_from_host_of_host(p);
            assert(parts.skip(1) =~= Seq::<Seq<char>>::empty());
            assert(normalize_segments(parts.skip(1)) =~= Seq::<Seq<char>>::empty());
        },
        AppRoute::SettingsNotifications => {
            let a = page_host(Page::Settings);
            let b = page_host(Page::Notifications);
            lemma_page_host_chars(Page::Settings);
            lemma_page_host_chars(Page::Notifications);
            lemma_host_segment_valid(a);
            lemma_host_segment_valid(b);
            lemma_from_host_of_host(Page::Settings);
            assert(path =~= a.push('/') + b);
            lemma_split_pair(a, b, '/');
            assert(parts.skip(1) =~= seq![b]);
            let bs = seq![b];
            assert(bs.drop_last() =~= Seq::<Seq<char>>::empty());
            assert(bs.last() == b);
            assert(normalize_segments(bs.drop_last()) == Seq::<Seq<char>>::empty());
            assert(normalize_segments(bs) =~= Seq::<Seq<char>>::empty().push(b));
            assert(Seq::<Seq<char>>::empty().push(b) =~= bs);
            assert(first_segment_error(bs.drop_last()) is None);
            assert(first_segment_error(bs) is None);
        },
    }
}

/// Law: every route's canonical deep link parses back to that route.
pub proof fn lemma_url_round_trip(r: AppRoute)
    ensures
        spec_parse_deep_link(route_url(r)) == Ok::<AppRoute, (RouteErrorKind, Seq<char>)>(r),
{
    reveal_url_prefix();
    lemma_route_path_shape(r);
    let s = route_url(r);
    assert(s[0] == 'g');
    assert(s.last() == route_path(r).last());
    lemma_trim_unchanged(s);
    lemma_parse_route_path(r);
}

/// Law: every route's web hash resolves back to that route.
pub proof fn lemma_hash_round_trip(r: AppRoute)
    ensures
        spec_from_hash(route_hash(r)) == Ok::<AppRoute, (RouteErrorKind, Seq<char>)>(r),
{
    reveal_url_prefix();
    lemma_route_path_shape(r);
    let h = route_hash(r);
    let path = route_path(r);
    assert(h[0] == '#');
    assert(h.last() == path.last());
    lemma_trim_unchanged(h);
    assert(h.skip(1) =~= seq!['/'] + path);
    assert(h.skip(1).skip(1) =~= path);
    assert(hash_path(h) == path);
    lemma_trim_unchanged(path);
    assert(url_prefix() + path == route_url(r));
    lemma_url_round_trip(r);
}

/// Law: the hash form mirrors the deep link with the scheme stripped.
pub proof fn lemma_hash_mirrors_url(r: AppRoute)
    ensures
        route_hash(r) == "#/"@ + route_url(r).skip(url_prefix().len() as int),
{
    assert(route_url(r).skip(url_prefix().len() as int) =~= route_path(r));
}

/// Law: only links in the app's own scheme are ever accepted.
pub proof fn lemma_only_app_scheme(s: Seq<char>)
    ensures
        spec_parse_deep_link(s) is Ok ==> trim(s).len() >= url_prefix().len() && trim(s).take(
            url_prefix().len() as int,
        ) == url_prefix(),
{
}

/// Law: an accepted link has no faulty segment left after dot-segment
/// removal.
pub proof fn lemma_accepted_segments_clean(s: Seq<char>)
    ensures
        spec_parse_deep_link(s) is Ok ==> {
            let t = trim(s);
            let body = path_part(t.skip(url_prefix().len() as int));
            first_segment_error(normalize_segments(split_on(body, '/').skip(1))) is None
        },
{
}

/// Law: `VALID_HOSTS` lists exactly the page hosts, in sidebar order.
pub proof fn lemma_valid_hosts_are_page_hosts()
    ensures
        VALID_HOSTS@.len() == all_pages().len(),
        forall|i: int| 0 <= i < VALID_HOSTS@.len() ==> VALID_HOSTS@[i]@ == page_host(
            #[trigger] all_pages()[i],
        ),
{
    assert forall|i: int| 0 <= i < VALID_HOSTS@.len() implies VALID_HOSTS@[i]@ == page_host(
        #[trigger] all_pages()[i],
    ) by {
        if i == 0 {
        } else if i == 1 {
        } else if i == 2 {
        } else if i == 3 {
        } else if i == 4 {
        } else if i == 5 {
        } else if i == 6 {
        } else if i == 7 {
        } else {
        }
    }
}

/// Law: dot-segment removal leaves only real segments: never an empty
/// segment (from `//` or a trailing `/`), never `.`, never `..`.
pub proof fn lemma_normalized_segments_are_real(segs: Seq<Seq<char>>)
    ensures
        forall|i: int|
            0 <= i < normalize_segments(segs).len() ==> (#[trigger] normalize_segments(segs)[i]).len()
                > 0 && normalize_segments(segs)[i] != dot() && normalize_segments(segs)[i]
                != dot_dot(),
    decreases segs.len(),
{
    if segs.len() > 0 {
        let prev = normalize_segments(segs.drop_last());
        let last = segs.last();
        let n = normalize_segments(segs);
        lemma_normalized_segments_are_real(segs.drop_last());
        assert forall|i: int| 0 <= i < n.len() implies (#[trigger] n[i]).len() > 0 && n[i] != dot()
            && n[i] != dot_dot() by {
            if last.len() == 0 || last == dot() {
                assert(n[i] == prev[i]);
            } else if last == dot_dot() {
                assert(n[i] == prev[i]);
            } else if i < prev.len() {
                assert(n[i] == prev[i]);
            } else {
                assert(n[i] == last);
            }
        }
    }
}

/// Law: an empty segment anywhere in a path changes nothing after
/// dot-segment removal.
pub proof fn lemma_empty_segment_ignored(segs: Seq<Seq<char>>, k: int)
    requires
        0 <= k <= segs.len(),
    ensures
        normalize_segments(segs.take(k) + seq![Seq::<char>::empty()] + segs.skip(k))
            == normalize_segments(segs),
    decreases segs.len() - k,
{
    let with = segs.take(k) + seq![Seq::<char>::empty()] + segs.skip(k);
    if k == segs.len() {
        assert(with.drop_last() =~= segs);
    } else {
        lemma_empty_segment_ignored(segs.drop_last(), k);
        assert(segs.drop_last().take(k) =~= segs.take(k));
        assert(with.drop_last() =~= segs.drop_last().take(k) + seq![Seq::<char>::empty()]
            + segs.drop_last().skip(k));
        assert(with.last() == segs.last());
    }
}

/// The first character `trim_start` leaves is not whitespace.
proof fn lemma_trim_start_edge(s: Seq<char>)
    ensures
        trim_start(s).len() > 0 ==> !is_space(trim_start(s)[0]),
        trim_start(s).len() <= s.len(),
    decreases s.len(),
{
    if s.len() > 0 && is_space(s[0]) {
        lemma_trim_start_edge(s.skip(1));
    }
}

/// `trim_end` keeps a prefix whose last character is not whitespace.
proof fn lemma_trim_end_edge(s: Seq<char>)
    ensures
        trim_end(s) == s.take(trim_end(s).len() as int),
        trim_end(s).len() <= s.len(),
        trim_end(s).len() > 0 ==> !is_space(trim_end(s).last()),
    decreases s.len(),
{
    if s.len() > 0 && is_space(s.last()) {
        lemma_trim_end_edge(s.drop_last());
        assert(s.drop_last().take(trim_end(s).len() as int) =~= s.take(trim_end(s).len() as int));
    } else {
        assert(s.take(s.len() as int) =~= s);
    }
}

/// A trimmed text starts and ends with non-whitespace.
proof fn lemma_trim_edges(s: Seq<char>)
    ensures
        trim(s).len() > 0 ==> !is_space(trim(s)[0]) && !is_space(trim(s).last()),
{
    let a = trim_start(s);
    lemma_trim_start_edge(s);
    lemma_trim_end_edge(a);
    if trim(s).len() > 0 {
        assert(trim(s)[0] == a.take(trim(s).len() as int)[0]);
    }
}

/// Law: a trailing `/` never changes the route of a link that parses
/// (links without a query or fragment, which the slash would join): the
/// empty segment it adds is dropped, exactly as for the bare link.
pub proof fn lemma_trailing_slash_keeps_route(s: Seq<char>)
    requires
        spec_parse_deep_link(s) is Ok,
        !trim(s).contains('?'),
        !trim(s).contains('#'),
    ensures
        spec_parse_deep_link(trim(s).push('/')) == spec_parse_deep_link(s),
{
    let t = trim(s);
    let x = t.push('/');
    let pre = url_prefix();
    reveal_url_prefix();
    lemma_trim_edges(s);
    assert(t.len() >= pre.len() && t.take(pre.len() as int) == pre);
    assert(!is_space('/'));
    assert(x.last() == '/');
    assert(x[0] == t[0]);
    lemma_trim_unchanged(x);
    assert(x.take(pre.len() as int) =~= t.take(pre.len() as int));
    let b = t.skip(pre.len() as int);
    assert(x.skip(pre.len() as int) =~= b.push('/'));
    assert(!b.contains('?') && !b.contains('#')) by {
        if b.contains('?') {
            let i = choose|i: int| 0 <= i < b.len() && b[i] == '?';
            assert(t[i + pre.len()] == '?');
        }
        if b.contains('#') {
            let i = choose|i: int| 0 <= i < b.len() && b[i] == '#';
            assert(t[i + pre.len()] == '#');
        }
    }
    assert(!b.push('/').contains('?') && !b.push('/').contains('#')) by {
        if b.push('/').contains('?') {
            let i = choose|i: int| 0 <= i < b.push('/').len() && b.push('/')[i] == '?';
            assert(i < b.len());
            assert(b[i] == '?');
        }
        if b.push('/').contains('#') {
            let i = choose|i: int| 0 <= i < b.push('/').len() && b.push('/')[i] == '#';
            assert(i < b.len());
            assert(b[i] == '#');
        }
    }
    lemma_no_query(b);
    lemma_no_query(b.push('/'));
    let parts = split_on(b, '/');
    let parts2 = split_on(b.push('/'), '/');
    assert(b.push('/').drop_last() =~= b);
    assert(parts2 == parts.push(Seq::<char>::empty()));
    lemma_split_nonempty(b, '/');
    assert(parts2[0] == parts[0]);
    assert(parts2.skip(1) =~= parts.skip(1).push(Seq::<char>::empty()));
    assert(parts2.skip(1).drop_last() =~= parts.skip(1));
    assert(normalize_segments(parts2.skip(1)) == normalize_segments(parts.skip(1)));
}

} // verus!
