//! Byte-wise lexicographic order of text, the order of `str` and `String`,
//! and sorted sets of text built by insertion.

use vstd::prelude::*;

verus! {

/// `a` sorts strictly before `b` byte by byte, a proper prefix first.
pub open spec fn lex_lt(a: Seq<u8>, b: Seq<u8>) -> bool
    decreases a.len(),
{
    if a.len() == 0 {
        b.len() > 0
    } else if b.len() == 0 {
        false
    } else if a[0] < b[0] {
        true
    } else if a[0] > b[0] {
        false
    } else {
        lex_lt(a.skip(1), b.skip(1))
    }
}

/// Nothing sorts before itself.
pub proof fn lemma_lex_irreflexive(a: Seq<u8>)
    ensures
        !lex_lt(a, a),
    decreases a.len(),
{
    if a.len() > 0 {
        lemma_lex_irreflexive(a.skip(1));
    }
}

/// The order is transitive.
pub proof fn lemma_lex_transitive(a: Seq<u8>, b: Seq<u8>, c: Seq<u8>)
    requires
        lex_lt(a, b),
        lex_lt(b, c),
    ensures
        lex_lt(a, c),
    decreases a.len(),
{
    if a.len() > 0 && b.len() > 0 && c.len() > 0 && a[0] == b[0] && b[0] == c[0] {
        lemma_lex_transitive(a.skip(1), b.skip(1), c.skip(1));
    }
}

/// Two different texts are ordered one way or the other.
pub proof fn lemma_lex_total(a: Seq<u8>, b: Seq<u8>)
    ensures
        a == b || lex_lt(a, b) || lex_lt(b, a),
    decreases a.len(),
{
    if a.len() == 0 && b.len() == 0 {
        assert(a =~= b);
    } else if a.len() == 0 || b.len() == 0 {
    } else if a[0] != b[0] {
    } else {
        let a1 = a.skip(1);
        let b1 = b.skip(1);
        lemma_lex_total(a1, b1);
        if a1 == b1 {
            assert forall|i: int| 0 <= i < a.len() implies a[i] == b[i] by {
                if i > 0 {
                    assert(a[i] == a1[i - 1]);
                    assert(b[i] == b1[i - 1]);
                }
            }
            assert(a =~= b);
        }
    }
}

/// The order is asymmetric.
pub proof fn lemma_lex_asymmetric(a: Seq<u8>, b: Seq<u8>)
    requires
        lex_lt(a, b),
    ensures
        !lex_lt(b, a),
{
    if lex_lt(b, a) {
        lemma_lex_transitive(a, b, a);
        lemma_lex_irreflexive(a);
    }
}

/// Compares two byte strings in lexicographic order.
pub fn lex_less(a: &[u8], b: &[u8]) -> (r: bool)
    ensures
        r == lex_lt(a@, b@),
{
    let mut i: usize = 0;
    assert(a@.skip(0) =~= a@);
    assert(b@.skip(0) =~= b@);
    while i < a.len() && i < b.len() && a[i] == b[i]
        invariant
            i <= a@.len(),
            i <= b@.len(),
            lex_lt(a@.skip(i as int), b@.skip(i as int)) == lex_lt(a@, b@),
        decreases a@.len() - i,
    {
        assert(a@.skip(i as int).skip(1) =~= a@.skip(i + 1));
        assert(b@.skip(i as int).skip(1) =~= b@.skip(i + 1));
        i = i + 1;
    }
    if i == a.len() {
        i < b.len()
    } else if i == b.len() {
        false
    } else {
        a[i] < b[i]
    }
}

/// The sequence is strictly increasing in lexicographic order.
pub open spec fn strictly_sorted(s: Seq<Seq<u8>>) -> bool {
    forall|i: int, j: int| 0 <= i < j < s.len() ==> lex_lt(#[trigger] s[i], #[trigger] s[j])
}

/// Two strictly sorted sequences holding the same texts are equal.
pub proof fn lemma_sorted_sets_equal(x: Seq<Seq<u8>>, y: Seq<Seq<u8>>)
    requires
        strictly_sorted(x),
        strictly_sorted(y),
        x.to_set() == y.to_set(),
    ensures
        x == y,
    decreases x.len() + y.len(),
{
    if x.len() == 0 {
        if y.len() > 0 {
            assert(y.to_set().contains(y[0]));
            assert(!x.to_set().contains(y[0]));
        }
        assert(x =~= y);
    } else if y.len() == 0 {
        assert(x.to_set().contains(x[0]));
        assert(!y.to_set().contains(x[0]));
    } else {
        // The first elements are both the least element of the common set.
        assert(x.to_set().contains(x[0]));
        assert(y.to_set().contains(x[0]));
        assert(y.to_set().contains(y[0]));
        assert(x.to_set().contains(y[0]));
        let i = choose|i: int| 0 <= i < y.len() && y[i] == x[0];
        let j = choose|j: int| 0 <= j < x.len() && x[j] == y[0];
        if x[0] != y[0] {
            assert(i > 0);
            assert(j > 0);
            assert(lex_lt(y[0], y[i]));
            assert(lex_lt(x[0], x[j]));
            lemma_lex_asymmetric(y[0], x[0]);
        }
        let xs = x.drop_first();
        let ys = y.drop_first();
        assert(strictly_sorted(xs)) by {
            assert forall|a: int, b: int| 0 <= a < b < xs.len() implies lex_lt(#[trigger] xs[a], #[trigger] xs[b]) by {
                assert(xs[a] == x[a + 1] && xs[b] == x[b + 1]);
            }
        }
        assert(strictly_sorted(ys)) by {
            assert forall|a: int, b: int| 0 <= a < b < ys.len() implies lex_lt(#[trigger] ys[a], #[trigger] ys[b]) by {
                assert(ys[a] == y[a + 1] && ys[b] == y[b + 1]);
            }
        }
        assert(xs.to_set() =~= ys.to_set()) by {
            assert forall|v: Seq<u8>| xs.to_set().contains(v) <==> ys.to_set().contains(v) by {
                if xs.to_set().contains(v) {
                    let k = choose|k: int| 0 <= k < xs.len() && xs[k] == v;
                    assert(x[k + 1] == v);
                    assert(lex_lt(x[0], v));
                    lemma_lex_irreflexive(v);
                    assert(x.to_set().contains(v));
                    assert(y.to_set().contains(v));
                    let m = choose|m: int| 0 <= m < y.len() && y[m] == v;
                    assert(m != 0);
                    assert(ys[m - 1] == v);
                }
                if ys.to_set().contains(v) {
                    let k = choose|k: int| 0 <= k < ys.len() && ys[k] == v;
                    assert(y[k + 1] == v);
                    assert(lex_lt(y[0], v));
                    lemma_lex_irreflexive(v);
                    assert(y.to_set().contains(v));
                    assert(x.to_set().contains(v));
                    let m = choose|m: int| 0 <= m < x.len() && x[m] == v;
                    assert(m != 0);
                    assert(xs[m - 1] == v);
                }
            }
        }
        lemma_sorted_sets_equal(xs, ys);
        assert(x =~= seq![x[0]] + xs);
        assert(y =~= seq![y[0]] + ys);
    }
}

} // verus!
