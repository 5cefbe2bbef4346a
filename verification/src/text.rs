//! Character-level text helpers shared by the parsers and formatters of the
//! library. Text is handled as `Seq<char>` in specifications and as
//! `Vec<char>` / `String` in executable code.

use vstd::prelude::*;

verus! {

broadcast use vstd::string::group_string_axioms;

/// A control character: the C0 range or DEL.
pub open spec fn is_control(c: char) -> bool {
    (c as u32) < 0x20 || (c as u32) == 0x7f
}

/// `s` with every control character removed, order otherwise kept.
pub open spec fn strip_controls(s: Seq<char>) -> Seq<char>
    decreases s.len(),
{
    if s.len() == 0 {
        Seq::empty()
    } else if is_control(s.last()) {
        strip_controls(s.drop_last())
    } else {
        strip_controls(s.drop_last()).push(s.last())
    }
}

/// Whether `pat` occurs in `s` starting at index `i`.
pub open spec fn occurs_at(s: Seq<char>, pat: Seq<char>, i: int) -> bool {
    0 <= i && i + pat.len() <= s.len() && s.subrange(i, i + pat.len()) == pat
}

/// Whether `pat` occurs anywhere in `s`.
pub open spec fn contains_seq(s: Seq<char>, pat: Seq<char>) -> bool {
    exists|i: int| occurs_at(s, pat, i)
}

/// Left-to-right, non-overlapping replacement of every occurrence of a
/// non-empty `pat` in `s` by `rep`.
pub open spec fn replace_all(s: Seq<char>, pat: Seq<char>, rep: Seq<char>) -> Seq<char>
    decreases s.len(),
{
    if s.len() == 0 {
        Seq::empty()
    } else if pat.len() > 0 && occurs_at(s, pat, 0) {
        rep + replace_all(s.skip(pat.len() as int), pat, rep)
    } else {
        seq![s[0]] + replace_all(s.skip(1), pat, rep)
    }
}

/// Where the first `m` characters that replacing `pat` by `~` produces hold
/// no `~`, they are the first `m` characters of the input: a replaced
/// occurrence always starts with a `~`.
proof fn lemma_tilde_free_prefix(t: Seq<char>, pat: Seq<char>, m: int)
    requires
        pat.len() > 0,
        0 <= m <= replace_all(t, pat, seq!['~']).len(),
        forall|j: int| 0 <= j < m ==> replace_all(t, pat, seq!['~'])[j] != '~',
    ensures
        m <= t.len(),
        t.take(m) == replace_all(t, pat, seq!['~']).take(m),
    decreases t.len(),
{
    let out = replace_all(t, pat, seq!['~']);
    if m > 0 {
        if t.len() == 0 {
            assert(out.len() == 0);
        } else if occurs_at(t, pat, 0) {
            assert(out == seq!['~'] + replace_all(t.skip(pat.len() as int), pat, seq!['~']));
            assert(out[0] == '~');
        } else {
            let t1 = t.skip(1);
            let out1 = replace_all(t1, pat, seq!['~']);
            assert(out == seq![t[0]] + out1);
            assert forall|j: int| 0 <= j < m - 1 implies out1[j] != '~' by {
                assert(out[j + 1] == out1[j]);
            }
            lemma_tilde_free_prefix(t1, pat, m - 1);
            assert(t.take(m) =~= seq![t[0]] + t1.take(m - 1));
            assert(out.take(m) =~= seq![t[0]] + out1.take(m - 1));
        }
    }
}

/// Law: replacing every occurrence of a pattern that holds no `~` by `~`
/// leaves no occurrence of the pattern anywhere.
pub proof fn lemma_replace_by_tilde_removes(s: Seq<char>, pat: Seq<char>, i: int)
    requires
        pat.len() > 0,
        !pat.contains('~'),
    ensures
        !occurs_at(replace_all(s, pat, seq!['~']), pat, i),
    decreases s.len(),
{
    let n = pat.len() as int;
    let out = replace_all(s, pat, seq!['~']);
    if s.len() == 0 {
        assert(out.len() == 0);
    } else if occurs_at(s, pat, 0) {
        let s1 = s.skip(n);
        let out1 = replace_all(s1, pat, seq!['~']);
        assert(out == seq!['~'] + out1);
        if i == 0 {
            if occurs_at(out, pat, 0) {
                assert(out.subrange(0, n)[0] == pat[0]);
                assert(pat.contains('~'));
            }
        } else if i > 0 {
            lemma_replace_by_tilde_removes(s1, pat, i - 1);
            if occurs_at(out, pat, i) {
                assert(out.subrange(i, i + n) =~= out1.subrange(i - 1, i - 1 + n));
            }
        }
    } else {
        let s1 = s.skip(1);
        let out1 = replace_all(s1, pat, seq!['~']);
        assert(out == seq![s[0]] + out1);
        if i == 0 {
            if occurs_at(out, pat, 0) {
                assert forall|j: int| 0 <= j < n - 1 implies out1[j] != '~' by {
                    assert(out.subrange(0, n)[j + 1] == pat[j + 1]);
                    assert(out[j + 1] == out1[j]);
                    if pat[j + 1] == '~' {
                        assert(pat.contains('~'));
                    }
                }
                lemma_tilde_free_prefix(s1, pat, n - 1);
                assert(s.subrange(0, n) =~= seq![s[0]] + s1.take(n - 1));
                assert(out.subrange(0, n) =~= seq![s[0]] + out1.take(n - 1));
                assert(occurs_at(s, pat, 0));
            }
        } else if i > 0 {
            lemma_replace_by_tilde_removes(s1, pat, i - 1);
            if occurs_at(out, pat, i) {
                assert(out.subrange(i, i + n) =~= out1.subrange(i - 1, i - 1 + n));
            }
        }
    }
}

/// An occurrence in a prefix is an occurrence in the whole.
pub proof fn lemma_take_chars_occurrence(s: Seq<char>, pat: Seq<char>, n: nat, i: int)
    requires
        occurs_at(take_chars(s, n), pat, i),
    ensures
        occurs_at(s, pat, i),
{
    let t = take_chars(s, n);
    assert(t.subrange(i, i + pat.len()) =~= s.subrange(i, i + pat.len()));
}

/// The first `n` characters of `s` (all of `s` when it is shorter).
pub open spec fn take_chars(s: Seq<char>, n: nat) -> Seq<char> {
    if s.len() <= n {
        s
    } else {
        s.take(n as int)
    }
}

/// Whitespace as `char::is_whitespace` sees it, restricted to the ASCII and
/// Latin-1 range plus the common Unicode spaces.
pub open spec fn is_space(c: char) -> bool {
    c == ' ' || c == '\t' || c == '\n' || c == '\r' || c == '\x0b' || c == '\x0c'
        || c == '\u{85}' || c == '\u{a0}' || c == '\u{1680}' || ('\u{2000}' <= c
        && c <= '\u{200a}') || c == '\u{2028}' || c == '\u{2029}' || c == '\u{202f}'
        || c == '\u{205f}' || c == '\u{3000}'
}

/// `s` without leading whitespace.
pub open spec fn trim_start(s: Seq<char>) -> Seq<char>
    decreases s.len(),
{
    if s.len() > 0 && is_space(s[0]) {
        trim_start(s.skip(1))
    } else {
        s
    }
}

/// `s` without trailing whitespace.
pub open spec fn trim_end(s: Seq<char>) -> Seq<char>
    decreases s.len(),
{
    if s.len() > 0 && is_space(s.last()) {
        trim_end(s.drop_last())
    } else {
        s
    }
}

/// `s` without leading and trailing whitespace, as `str::trim` returns it.
pub open spec fn trim(s: Seq<char>) -> Seq<char> {
    trim_end(trim_start(s))
}

pub fn char_is_control(c: char) -> (r: bool)
    ensures
        r == is_control(c),
{
    (c as u32) < 0x20 || (c as u32) == 0x7f
}

pub fn char_is_space(c: char) -> (r: bool)
    ensures
        r == is_space(c),
{
    c == ' ' || c == '\t' || c == '\n' || c == '\r' || c == '\x0b' || c == '\x0c' || c
        == '\u{85}' || c == '\u{a0}' || c == '\u{1680}' || ('\u{2000}' <= c && c <= '\u{200a}')
        || c == '\u{2028}' || c == '\u{2029}' || c == '\u{202f}' || c == '\u{205f}' || c
        == '\u{3000}'
}

/// The characters of `s`, in order.
pub fn to_chars(s: &str) -> (r: Vec<char>)
    ensures
        r@ == s@,
{
    let mut v: Vec<char> = Vec::new();
    for c in it: s.chars()
        invariant
            v@ == it.seq().take(it.index()),
            it.seq() == s@,
    {
        v.push(c);
    }
    v
}

/// Appends one character to a `String` (std's `String::push`).
#[verifier::external_body]
pub fn push_char(s: &mut String, c: char)
    ensures
        final(s)@ == old(s)@.push(c),
{
    s.push(c);
}

/// A `String` holding exactly the characters of `v`.
pub fn from_chars(v: &[char]) -> (r: String)
    ensures
        r@ == v@,
{
    let mut s = String::new();
    let mut i: usize = 0;
    while i < v.len()
        invariant
            i <= v.len(),
            s@ == v@.take(i as int),
        decreases v.len() - i,
    {
        push_char(&mut s, v[i]);
        assert(v@.take(i + 1) == v@.take(i as int).push(v@[i as int]));
        i = i + 1;
    }
    assert(v@.take(v.len() as int) == v@);
    s
}

/// An owned copy of `s`.
pub fn owned(s: &str) -> (r: String)
    ensures
        r@ == s@,
{
    s.to_string()
}

/// Appends the characters of `t` to the end of `s`.
pub fn append_str(s: &mut String, t: &str)
    ensures
        final(s)@ == old(s)@ + t@,
{
    let tc = to_chars(t);
    let mut i: usize = 0;
    while i < tc.len()
        invariant
            i <= tc.len(),
            tc@ == t@,
            s@ == old(s)@ + t@.take(i as int),
        decreases tc.len() - i,
    {
        push_char(s, tc[i]);
        assert(t@.take(i + 1) == t@.take(i as int).push(t@[i as int]));
        i = i + 1;
    }
    assert(t@.take(tc.len() as int) == t@);
}

/// Appends the characters of `t` to the end of `s`.
pub fn append_chars(s: &mut String, t: &[char])
    ensures
        final(s)@ == old(s)@ + t@,
{
    let mut i: usize = 0;
    while i < t.len()
        invariant
            i <= t.len(),
            s@ == old(s)@ + t@.take(i as int),
        decreases t.len() - i,
    {
        push_char(s, t[i]);
        assert(t@.take(i + 1) == t@.take(i as int).push(t@[i as int]));
        i = i + 1;
    }
    assert(t@.take(t.len() as int) == t@);
}

/// Whether two character slices are equal.
pub fn chars_eq(a: &[char], b: &[char]) -> (r: bool)
    ensures
        r == (a@ == b@),
{
    if a.len() != b.len() {
        return false;
    }
    let mut i: usize = 0;
    while i < a.len()
        invariant
            i <= a.len(),
            a.len() == b.len(),
            forall|j: int| 0 <= j < i ==> a@[j] == b@[j],
        decreases a.len() - i,
    {
        if a[i] != b[i] {
            return false;
        }
        i = i + 1;
    }
    assert(a@ =~= b@);
    true
}

/// Whether the characters of `a` equal `b`.
pub fn chars_eq_str(a: &[char], b: &str) -> (r: bool)
    ensures
        r == (a@ == b@),
{
    let bc = to_chars(b);
    chars_eq(a, bc.as_slice())
}

/// Whether two strings hold the same characters.
pub fn str_eq(a: &str, b: &str) -> (r: bool)
    ensures
        r == (a@ == b@),
{
    let ac = to_chars(a);
    let bc = to_chars(b);
    chars_eq(ac.as_slice(), bc.as_slice())
}

/// Whether `pat` occurs in `s` at index `i`.
pub fn occurs_at_exec(s: &[char], pat: &[char], i: usize) -> (r: bool)
    ensures
        r == occurs_at(s@, pat@, i as int),
{
    if i > s.len() || pat.len() > s.len() - i {
        return false;
    }
    let mut k: usize = 0;
    while k < pat.len()
        invariant
            k <= pat.len(),
            i + pat.len() <= s.len(),
            forall|j: int| 0 <= j < k ==> s@[i + j] == pat@[j],
        decreases pat.len() - k,
    {
        if s[i + k] != pat[k] {
            assert(s@.subrange(i as int, i + pat.len())[k as int] != pat@[k as int]);
            return false;
        }
        k = k + 1;
    }
    assert(s@.subrange(i as int, i + pat.len()) =~= pat@);
    true
}

/// Whether `pat` occurs anywhere in `s`.
pub fn contains_chars(s: &[char], pat: &[char]) -> (r: bool)
    ensures
        r == contains_seq(s@, pat@),
{
    if pat.len() == 0 {
        assert(occurs_at(s@, pat@, 0)) by {
            assert(s@.subrange(0, 0) =~= pat@);
        }
        return true;
    }
    let mut i: usize = 0;
    while i <= s.len() && pat.len() <= s.len() - i
        invariant
            pat.len() >= 1,
            i <= s.len(),
            forall|j: int| 0 <= j < i ==> !occurs_at(s@, pat@, j),
        decreases s.len() - i,
    {
        if occurs_at_exec(s, pat, i) {
            return true;
        }
        i = i + 1;
    }
    assert forall|j: int| !occurs_at(s@, pat@, j) by {
        if 0 <= j < i {
        }
    }
    false
}

/// Whether `c` occurs in `s`.
pub fn contains_char(s: &[char], c: char) -> (r: bool)
    ensures
        r == s@.contains(c),
{
    let mut i: usize = 0;
    while i < s.len()
        invariant
            i <= s.len(),
            forall|j: int| 0 <= j < i ==> s@[j] != c,
        decreases s.len() - i,
    {
        if s[i] == c {
            return true;
        }
        i = i + 1;
    }
    false
}

/// The characters of `s` without control characters.
pub fn strip_controls_exec(s: &[char]) -> (r: Vec<char>)
    ensures
        r@ == strip_controls(s@),
{
    let mut out: Vec<char> = Vec::new();
    let mut i: usize = 0;
    while i < s.len()
        invariant
            i <= s.len(),
            out@ == strip_controls(s@.take(i as int)),
        decreases s.len() - i,
    {
        assert(s@.take(i + 1).drop_last() == s@.take(i as int));
        if !char_is_control(s[i]) {
            out.push(s[i]);
        }
        i = i + 1;
    }
    assert(s@.take(s.len() as int) == s@);
    out
}

/// `s` with every occurrence of the non-empty `pat` replaced by `rep`.
pub fn replace_all_exec(s: &[char], pat: &[char], rep: &[char]) -> (r: Vec<char>)
    requires
        pat@.len() > 0,
    ensures
        r@ == replace_all(s@, pat@, rep@),
{
    let mut out: Vec<char> = Vec::new();
    let mut i: usize = 0;
    assert(s@.skip(0) =~= s@);
    while i < s.len()
        invariant
            i <= s.len(),
            pat@.len() > 0,
            out@ + replace_all(s@.skip(i as int), pat@, rep@) == replace_all(s@, pat@, rep@),
        decreases s.len() - i,
    {
        let ghost rest = s@.skip(i as int);
        if occurs_at_exec(s, pat, i) {
            assert(occurs_at(rest, pat@, 0)) by {
                assert(rest.subrange(0, pat@.len() as int) =~= s@.subrange(
                    i as int,
                    i + pat@.len(),
                ));
            }
            assert(rest.skip(pat@.len() as int) =~= s@.skip(i + pat@.len()));
            let ghost before = out@;
            let mut k: usize = 0;
            while k < rep.len()
                invariant
                    k <= rep.len(),
                    out@ == before + rep@.take(k as int),
                decreases rep.len() - k,
            {
                out.push(rep[k]);
                assert(rep@.take(k + 1) == rep@.take(k as int).push(rep@[k as int]));
                k = k + 1;
            }
            assert(rep@.take(rep.len() as int) == rep@);
            assert(out@ + replace_all(s@.skip(i + pat.len()), pat@, rep@) =~= replace_all(
                s@,
                pat@,
                rep@,
            ));
            i = i + pat.len();
        } else {
            assert(!occurs_at(rest, pat@, 0)) by {
                if occurs_at(rest, pat@, 0) {
                    assert(rest.subrange(0, pat@.len() as int) =~= s@.subrange(
                        i as int,
                        i + pat@.len(),
                    ));
                }
            }
            assert(rest.skip(1) =~= s@.skip(i + 1));
            out.push(s[i]);
            assert(out@ + replace_all(s@.skip(i + 1), pat@, rep@) =~= replace_all(
                s@,
                pat@,
                rep@,
            ));
            i = i + 1;
        }
    }
    assert(s@.skip(i as int) =~= Seq::<char>::empty());
    out
}

/// The first `n` characters of `s`.
pub fn take_chars_exec(s: &[char], n: usize) -> (r: Vec<char>)
    ensures
        r@ == take_chars(s@, n as nat),
{
    let mut out: Vec<char> = Vec::new();
    let mut i: usize = 0;
    while i < s.len() && i < n
        invariant
            i <= s.len(),
            i <= n,
            out@ == s@.take(i as int),
        decreases s.len() - i,
    {
        out.push(s[i]);
        assert(s@.take(i + 1) == s@.take(i as int).push(s@[i as int]));
        i = i + 1;
    }
    if s.len() <= n {
        assert(s@.take(s.len() as int) == s@);
    }
    out
}

/// `s` without leading and trailing whitespace.
pub fn trim_exec(s: &[char]) -> (r: Vec<char>)
    ensures
        r@ == trim(s@),
{
    let mut start: usize = 0;
    assert(s@.skip(0) =~= s@);
    while start < s.len() && char_is_space(s[start])
        invariant
            start <= s.len(),
            trim_start(s@) == trim_start(s@.skip(start as int)),
        decreases s.len() - start,
    {
        assert(s@.skip(start as int).skip(1) =~= s@.skip(start + 1));
        start = start + 1;
    }
    let mut end: usize = s.len();
    let ghost front = s@.skip(start as int);
    assert(trim_start(front) == front);
    while end > start && char_is_space(s[end - 1])
        invariant
            start <= end <= s.len(),
            front == s@.skip(start as int),
            trim_end(front) == trim_end(s@.subrange(start as int, end as int)),
        decreases end,
    {
        assert(s@.subrange(start as int, end as int).drop_last() =~= s@.subrange(
            start as int,
            end - 1,
        ));
        end = end - 1;
    }
    assert(front =~= s@.subrange(start as int, s.len() as int));
    let mut out: Vec<char> = Vec::new();
    let mut i: usize = start;
    while i < end
        invariant
            start <= i <= end,
            end <= s.len(),
            out@ == s@.subrange(start as int, i as int),
        decreases end - i,
    {
        out.push(s[i]);
        assert(s@.subrange(start as int, i + 1) =~= s@.subrange(start as int, i as int).push(
            s@[i as int],
        ));
        i = i + 1;
    }
    out
}

/// Decimal digits of `n`, most significant first, without sign or padding.
pub open spec fn decimal(n: nat) -> Seq<char>
    decreases n,
{
    if n < 10 {
        seq![digit_char(n)]
    } else {
        decimal(n / 10).push(digit_char(n % 10))
    }
}

/// The ASCII digit for `d` (0 to 9).
pub open spec fn digit_char(d: nat) -> char {
    if d == 0 {
        '0'
    } else if d == 1 {
        '1'
    } else if d == 2 {
        '2'
    } else if d == 3 {
        '3'
    } else if d == 4 {
        '4'
    } else if d == 5 {
        '5'
    } else if d == 6 {
        '6'
    } else if d == 7 {
        '7'
    } else if d == 8 {
        '8'
    } else {
        '9'
    }
}

fn digit_char_exec(d: u64) -> (c: char)
    requires
        d < 10,
    ensures
        c == digit_char(d as nat),
{
    if d == 0 {
        '0'
    } else if d == 1 {
        '1'
    } else if d == 2 {
        '2'
    } else if d == 3 {
        '3'
    } else if d == 4 {
        '4'
    } else if d == 5 {
        '5'
    } else if d == 6 {
        '6'
    } else if d == 7 {
        '7'
    } else if d == 8 {
        '8'
    } else {
        '9'
    }
}

/// Appends the decimal form of `n` (as `Display` writes an integer) to `s`.
pub fn append_decimal(s: &mut String, n: u64)
    ensures
        final(s)@ == old(s)@ + decimal(n as nat),
    decreases n,
{
    if n < 10 {
        push_char(s, digit_char_exec(n));
        assert(decimal(n as nat) == seq![digit_char(n as nat)]);
        assert(old(s)@.push(digit_char(n as nat)) =~= old(s)@ + decimal(n as nat));
    } else {
        append_decimal(s, n / 10);
        push_char(s, digit_char_exec(n % 10));
        assert(old(s)@ + decimal(n as nat) =~= (old(s)@ + decimal((n / 10) as nat)).push(
            digit_char((n % 10) as nat),
        ));
    }
}

/// Decimal form of a signed integer, as `Display` writes it.
pub open spec fn signed_decimal(n: int) -> Seq<char> {
    if n < 0 {
        seq!['-'] + decimal((-n) as nat)
    } else {
        decimal(n as nat)
    }
}

/// Appends the decimal form of `n` to `s`.
pub fn append_i64(s: &mut String, n: i64)
    ensures
        final(s)@ == old(s)@ + signed_decimal(n as int),
{
    if n < 0 {
        push_char(s, '-');
        let magnitude: u64 = if n == i64::MIN {
            9223372036854775808u64
        } else {
            (-n) as u64
        };
        append_decimal(s, magnitude);
        assert(final(s)@ =~= old(s)@ + signed_decimal(n as int));
    } else {
        append_decimal(s, n as u64);
    }
}

/// `k` is the index of the first occurrence of `pat` in `s`.
pub open spec fn is_first_occurrence(s: Seq<char>, pat: Seq<char>, k: int) -> bool {
    occurs_at(s, pat, k) && forall|j: int| 0 <= j < k ==> !occurs_at(s, pat, j)
}

/// The text before the first occurrence of `pat` (all of `s` without one).
pub open spec fn before_first(s: Seq<char>, pat: Seq<char>) -> Seq<char> {
    if exists|k: int| is_first_occurrence(s, pat, k) {
        s.take(choose|k: int| is_first_occurrence(s, pat, k))
    } else {
        s
    }
}

/// The text after the first occurrence of `pat`, if there is one.
pub open spec fn after_first(s: Seq<char>, pat: Seq<char>) -> Option<Seq<char>> {
    if exists|k: int| is_first_occurrence(s, pat, k) {
        Some(s.skip((choose|k: int| is_first_occurrence(s, pat, k)) + pat.len()))
    } else {
        None
    }
}

/// The index of the first occurrence of a non-empty `pat` in `s`.
pub fn find_seq(s: &[char], pat: &[char]) -> (r: Option<usize>)
    requires
        pat@.len() > 0,
    ensures
        match r {
            Some(k) => is_first_occurrence(s@, pat@, k as int),
            None => forall|j: int| !occurs_at(s@, pat@, j),
        },
{
    let mut i: usize = 0;
    while i <= s.len() && pat.len() <= s.len() - i
        invariant
            pat.len() >= 1,
            i <= s.len(),
            forall|j: int| 0 <= j < i ==> !occurs_at(s@, pat@, j),
        decreases s.len() - i,
    {
        if occurs_at_exec(s, pat, i) {
            return Some(i);
        }
        i = i + 1;
    }
    assert forall|j: int| !occurs_at(s@, pat@, j) by {
        if 0 <= j < i {
        }
    }
    None
}

/// Two first occurrences are the same.
pub proof fn lemma_first_occurrence_unique(s: Seq<char>, pat: Seq<char>, a: int, b: int)
    requires
        is_first_occurrence(s, pat, a),
        is_first_occurrence(s, pat, b),
    ensures
        a == b,
{
}

/// The text before the first occurrence of `pat`.
pub fn before_first_exec(s: &[char], pat: &[char]) -> (r: Vec<char>)
    requires
        pat@.len() > 0,
    ensures
        r@ == before_first(s@, pat@),
{
    match find_seq(s, pat) {
        Some(k) => {
            proof {
                let c = choose|c: int| is_first_occurrence(s@, pat@, c);
                lemma_first_occurrence_unique(s@, pat@, c, k as int);
            }
            let mut out: Vec<char> = Vec::new();
            let mut i: usize = 0;
            while i < k
                invariant
                    i <= k,
                    k <= s.len(),
                    out@ == s@.take(i as int),
                decreases k - i,
            {
                out.push(s[i]);
                assert(s@.take(i + 1) =~= s@.take(i as int).push(s@[i as int]));
                i = i + 1;
            }
            out
        },
        None => {
            let mut out: Vec<char> = Vec::new();
            let mut i: usize = 0;
            while i < s.len()
                invariant
                    i <= s.len(),
                    out@ == s@.take(i as int),
                decreases s.len() - i,
            {
                out.push(s[i]);
                assert(s@.take(i + 1) =~= s@.take(i as int).push(s@[i as int]));
                i = i + 1;
            }
            assert(s@.take(s.len() as int) =~= s@);
            out
        },
    }
}

/// The text after the first occurrence of `pat`, if there is one.
pub fn after_first_exec(s: &[char], pat: &[char]) -> (r: Option<Vec<char>>)
    requires
        pat@.len() > 0,
    ensures
        match r {
            Some(v) => after_first(s@, pat@) == Some(v@),
            None => after_first(s@, pat@) is None,
        },
{
    match find_seq(s, pat) {
        Some(k) => {
            proof {
                let c = choose|c: int| is_first_occurrence(s@, pat@, c);
                lemma_first_occurrence_unique(s@, pat@, c, k as int);
            }
            assert(occurs_at(s@, pat@, k as int));
            assert(k + pat.len() <= s.len());
            let mut out: Vec<char> = Vec::new();
            let mut i: usize = k + pat.len();
            while i < s.len()
                invariant
                    k + pat.len() <= i <= s.len(),
                    out@ == s@.subrange(k + pat.len(), i as int),
                decreases s.len() - i,
            {
                out.push(s[i]);
                assert(s@.subrange(k + pat.len(), i + 1) =~= s@.subrange(
                    k + pat.len(),
                    i as int,
                ).push(s@[i as int]));
                i = i + 1;
            }
            assert(out@ =~= s@.skip(k + pat.len()));
            Some(out)
        },
        None => {
            assert(!exists|k: int| is_first_occurrence(s@, pat@, k));
            None
        },
    }
}

} // verus!
