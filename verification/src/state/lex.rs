//! Lexicographic order on character sequences (the order `String` sorts in:
//! UTF-8 byte order coincides with code-point order) and sorted insertion.

use vstd::prelude::*;

verus! {

/// `a` sorts strictly before `b`.
pub open spec fn lex_lt(a: Seq<char>, b: Seq<char>) -> bool
    decreases a.len(),
{
    if a.len() == 0 {
        b.len() > 0
    } else if b.len() == 0 {
        false
    } else if a[0] < b[0] {
        true
    } else if a[0] == b[0] {
        lex_lt(a.skip(1), b.skip(1))
    } else {
        false
    }
}

/// Every element sorts strictly before every later one.
pub open spec fn strictly_sorted(s: Seq<Seq<char>>) -> bool {
    forall|i: int, j: int| 0 <= i < j < s.len() ==> lex_lt(#[trigger] s[i], #[trigger] s[j])
}

pub proof fn lemma_lex_irreflexive(a: Seq<char>)
    ensures
        !lex_lt(a, a),
    decreases a.len(),
{
    if a.len() > 0 {
        lemma_lex_irreflexive(a.skip(1));
    }
}

pub proof fn lemma_lex_asymmetric(a: Seq<char>, b: Seq<char>)
    ensures
        lex_lt(a, b) ==> !lex_lt(b, a),
    decreases a.len(),
{
    if a.len() > 0 && b.len() > 0 && a[0] == b[0] {
        lemma_lex_asymmetric(a.skip(1), b.skip(1));
    }
}

pub proof fn lemma_lex_transitive(a: Seq<char>, b: Seq<char>, c: Seq<char>)
    ensures
        lex_lt(a, b) && lex_lt(b, c) ==> lex_lt(a, c),
    decreases a.len(),
{
    if a.len() > 0 && b.len() > 0 && c.len() > 0 && a[0] == b[0] && b[0] == c[0] {
        lemma_lex_transitive(a.skip(1), b.skip(1), c.skip(1));
    }
}

pub proof fn lemma_lex_total(a: Seq<char>, b: Seq<char>)
    ensures
        a != b ==> lex_lt(a, b) || lex_lt(b, a),
    decreases a.len(),
{
    if a.len() > 0 && b.len() > 0 && a[0] == b[0] {
        lemma_lex_total(a.skip(1), b.skip(1));
        if a.skip(1) == b.skip(1) {
            assert(a =~= seq![a[0]] + a.skip(1));
            assert(b =~= seq![b[0]] + b.skip(1));
        }
    } else if a.len() == 0 && b.len() == 0 {
        assert(a =~= b);
    } else if a.len() > 0 && b.len() > 0 {
        assert(a[0] != b[0]);
    }
}

/// Law: the order is decided at the first differing character, by the
/// characters' code points; a proper prefix sorts before the longer text.
pub proof fn lemma_lex_first_difference(a: Seq<char>, b: Seq<char>, i: int)
    requires
        0 <= i <= a.len(),
        i <= b.len(),
        a.take(i) == b.take(i),
    ensures
        i < a.len() && i < b.len() && a[i] != b[i] ==> (lex_lt(a, b) <==> a[i] < b[i]),
        i == a.len() && i < b.len() ==> lex_lt(a, b),
        i == b.len() ==> !lex_lt(a, b),
    decreases i,
{
    if i > 0 {
        assert(a[0] == a.take(i)[0]);
        assert(b[0] == b.take(i)[0]);
        assert(a.skip(1).take(i - 1) =~= a.take(i).skip(1));
        assert(b.skip(1).take(i - 1) =~= b.take(i).skip(1));
        lemma_lex_first_difference(a.skip(1), b.skip(1), i - 1);
    }
}

/// Whether `a` sorts strictly before `b`.
pub fn lex_less(a: &[char], b: &[char]) -> (r: bool)
    ensures
        r == lex_lt(a@, b@),
{
    let mut i: usize = 0;
    assert(a@.skip(0) =~= a@);
    assert(b@.skip(0) =~= b@);
    while i < a.len() && i < b.len() && a[i] == b[i]
        invariant
            i <= a.len(),
            i <= b.len(),
            lex_lt(a@, b@) == lex_lt(a@.skip(i as int), b@.skip(i as int)),
        decreases a.len() - i,
    {
        assert(a@.skip(i as int).skip(1) =~= a@.skip(i + 1));
        assert(b@.skip(i as int).skip(1) =~= b@.skip(i + 1));
        assert(a@.skip(i as int)[0] == a@[i as int]);
        assert(b@.skip(i as int)[0] == b@[i as int]);
        i = i + 1;
    }
    if i == a.len() {
        i < b.len()
    } else if i == b.len() {
        assert(a@.skip(i as int).len() > 0);
        false
    } else {
        assert(a@.skip(i as int)[0] == a@[i as int]);
        assert(b@.skip(i as int)[0] == b@[i as int]);
        a[i] < b[i]
    }
}

pub open spec fn views(v: Seq<Vec<char>>) -> Seq<Seq<char>> {
    v.map_values(|x: Vec<char>| x@)
}

/// Insert `x` into a strictly sorted list unless it is already there.
pub fn insert_sorted(names: &mut Vec<Vec<char>>, x: Vec<char>)
    requires
        strictly_sorted(views(old(names)@)),
    ensures
        strictly_sorted(views(final(names)@)),
        forall|n: Seq<char>|
            views(final(names)@).contains(n) <==> (views(old(names)@).contains(n) || n == x@),
{
    let ghost before = views(names@);
    let mut k: usize = 0;
    while k < names.len() && lex_less(names[k].as_slice(), x.as_slice())
        invariant
            k <= names.len(),
            views(names@) == before,
            forall|i: int| 0 <= i < k ==> lex_lt(#[trigger] before[i], x@),
        decreases names.len() - k,
    {
        k = k + 1;
    }
    if k < names.len() && crate::text::chars_eq(names[k].as_slice(), x.as_slice()) {
        assert forall|n: Seq<char>| before.contains(n) <==> (before.contains(n) || n == x@) by {
            if n == x@ {
                assert(before[k as int] == n);
            }
        }
        return;
    }
    proof {
        if k < names.len() {
            lemma_lex_total(before[k as int], x@);
            assert(lex_lt(x@, before[k as int]));
        }
        assert forall|i: int| k <= i < before.len() implies lex_lt(x@, #[trigger] before[i]) by {
            if i > k {
                assert(lex_lt(before[k as int], before[i]));
                lemma_lex_transitive(x@, before[k as int], before[i]);
            }
        }
    }
    let ghost xv = x@;
    names.insert(k, x);
    let ghost after = views(names@);
    assert(after =~= before.insert(k as int, xv));
    assert forall|i: int, j: int| 0 <= i < j < after.len() implies lex_lt(
        #[trigger] after[i],
        #[trigger] after[j],
    ) by {
        if j < k {
        } else if j == k {
        } else if i < k {
            assert(lex_lt(before[i], xv));
            assert(lex_lt(xv, before[j - 1]));
            lemma_lex_transitive(before[i], xv, before[j - 1]);
        } else if i == k {
        } else {
            assert(lex_lt(before[i - 1], before[j - 1]));
        }
    }
    assert forall|n: Seq<char>| after.contains(n) <==> (before.contains(n) || n == xv) by {
        if after.contains(n) {
            let i = choose|i: int| 0 <= i < after.len() && after[i] == n;
            if i < k {
                assert(before[i] == n);
            } else if i > k {
                assert(before[i - 1] == n);
            }
        }
        if before.contains(n) {
            let i = choose|i: int| 0 <= i < before.len() && before[i] == n;
            if i < k {
                assert(after[i] == n);
            } else {
                assert(after[i + 1] == n);
            }
        }
        if n == xv {
            assert(after[k as int] == n);
        }
    }
}

} // verus!
