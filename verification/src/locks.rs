//! The order in which an operation takes its resource locks: every
//! distinct key once, in ascending order of canonical bytes, so that two
//! operations never wait on each other's locks in opposite orders.

use vstd::prelude::*;

use crate::domain::{resource_key_bytes, ResourceKey};
use crate::order::{lemma_lex_asymmetric, lemma_lex_irreflexive, lemma_lex_total, lemma_lex_transitive, lex_less, lex_lt, strictly_sorted};

verus! {

/// The canonical bytes of each key of a list.
pub open spec fn key_bytes_list(keys: Seq<ResourceKey>) -> Seq<Seq<u8>> {
    keys.map_values(|k: ResourceKey| resource_key_bytes(k))
}

/// Inserts a key into the ordered keys unless a key with the same bytes is
/// already there.
fn insert_key(out: &mut Vec<ResourceKey>, out_bytes: &mut Vec<Vec<u8>>, key: ResourceKey)
    requires
        old(out_bytes)@.len() == old(out)@.len(),
        forall|i: int| 0 <= i < old(out)@.len() ==> (#[trigger] old(out_bytes)@[i])@ == resource_key_bytes(old(out)@[i]),
        strictly_sorted(key_bytes_list(old(out)@)),
    ensures
        final(out_bytes)@.len() == final(out)@.len(),
        forall|i: int| 0 <= i < final(out)@.len() ==> (#[trigger] final(out_bytes)@[i])@ == resource_key_bytes(final(out)@[i]),
        strictly_sorted(key_bytes_list(final(out)@)),
        key_bytes_list(final(out)@).to_set() == key_bytes_list(old(out)@).to_set().insert(resource_key_bytes(key)),
        forall|i: int| 0 <= i < final(out)@.len() ==> (#[trigger] final(out)@[i]) == key || old(out)@.contains(final(out)@[i]),
{
    let ghost old_out = out@;
    let ghost bl = key_bytes_list(old_out);
    let b = key.canonical_bytes();
    let ghost kb = resource_key_bytes(key);
    let mut p: usize = 0;
    while p < out_bytes.len() && lex_less(out_bytes[p].as_slice(), b.as_slice())
        invariant
            out@ == old_out,
            out_bytes@.len() == out@.len(),
            forall|i: int| 0 <= i < out@.len() ==> (#[trigger] out_bytes@[i])@ == resource_key_bytes(out@[i]),
            b@ == kb,
            kb == resource_key_bytes(key),
            bl == key_bytes_list(old_out),
            p <= out@.len(),
            forall|k: int| 0 <= k < p ==> lex_lt(#[trigger] bl[k], kb),
        decreases out@.len() - p,
    {
        p = p + 1;
    }
    if p < out_bytes.len() && crate::text::bytes_eq(out_bytes[p].as_slice(), b.as_slice()) {
        proof {
            assert(bl[p as int] == kb);
            assert(key_bytes_list(out@).to_set() =~= bl.to_set().insert(kb)) by {
                assert(bl.to_set().contains(kb));
            }
        }
        return;
    }
    proof {
        if p < old_out.len() {
            assert(bl[p as int] == out_bytes@[p as int]@);
            lemma_lex_total(bl[p as int], kb);
            assert(lex_lt(kb, bl[p as int]));
        }
    }
    out.insert(p, key);
    out_bytes.insert(p, b);
    proof {
        let nv = out@;
        let nbl = key_bytes_list(nv);
        assert(nv == old_out.insert(p as int, key));
        assert forall|a: int, c: int| 0 <= a < c < nv.len() implies lex_lt(#[trigger] nbl[a], #[trigger] nbl[c]) by {
            if a < p && c < p {
                assert(nbl[a] == bl[a] && nbl[c] == bl[c]);
            } else if a < p && c == p {
                assert(nbl[a] == bl[a] && nbl[c] == kb);
            } else if a < p && c > p {
                assert(nbl[a] == bl[a]);
                assert(nbl[c] == bl[c - 1]);
                assert(lex_lt(bl[a], bl[c - 1]));
            } else if a == p {
                assert(nbl[a] == kb);
                assert(nbl[c] == bl[c - 1]);
                if c - 1 > p {
                    assert(lex_lt(bl[p as int], bl[c - 1]));
                    lemma_lex_transitive(kb, bl[p as int], bl[c - 1]);
                }
            } else {
                assert(nbl[a] == bl[a - 1]);
                assert(nbl[c] == bl[c - 1]);
            }
        }
        assert forall|i: int| 0 <= i < nv.len() implies (#[trigger] out_bytes@[i])@ == resource_key_bytes(nv[i]) by {
            if i < p {
            } else if i > p {
                assert(out_bytes@[i] == old(out_bytes)@[i - 1]);
            }
        }
        assert(nbl.to_set() =~= bl.to_set().insert(kb)) by {
            assert forall|t: Seq<u8>| nbl.to_set().contains(t) <==> bl.to_set().insert(kb).contains(t) by {
                if nbl.to_set().contains(t) {
                    let k = choose|k: int| 0 <= k < nbl.len() && nbl[k] == t;
                    if k < p {
                        assert(bl[k] == t);
                    } else if k > p {
                        assert(bl[k - 1] == t);
                    }
                }
                if bl.to_set().contains(t) {
                    let k = choose|k: int| 0 <= k < bl.len() && bl[k] == t;
                    if k < p {
                        assert(nbl[k] == t);
                    } else {
                        assert(nbl[k + 1] == t);
                    }
                }
                if t == kb {
                    assert(nbl[p as int] == t);
                }
            }
        }
        assert forall|i: int| 0 <= i < nv.len() implies (#[trigger] nv[i]) == key || old_out.contains(nv[i]) by {
            if i < p {
                assert(nv[i] == old_out[i]);
            } else if i > p {
                assert(nv[i] == old_out[i - 1]);
            }
        }
    }
}

/// The keys whose locks an operation takes, in the order it takes them:
/// each distinct key once, by ascending canonical bytes.
pub fn lock_order(keys: Vec<ResourceKey>) -> (r: Vec<ResourceKey>)
    ensures
        strictly_sorted(key_bytes_list(r@)),
        key_bytes_list(r@).to_set() == key_bytes_list(keys@).to_set(),
        forall|i: int| 0 <= i < r@.len() ==> keys@.contains(#[trigger] r@[i]),
{
    let ghost orig = keys@;
    let mut rest = keys;
    let mut out: Vec<ResourceKey> = Vec::new();
    let mut out_bytes: Vec<Vec<u8>> = Vec::new();
    proof {
        assert(key_bytes_list(out@).to_set() =~= key_bytes_list(orig.skip(orig.len() as int)).to_set());
    }
    while rest.len() > 0
        invariant
            rest@.len() <= orig.len(),
            rest@ == orig.take(rest@.len() as int),
            out_bytes@.len() == out@.len(),
            forall|i: int| 0 <= i < out@.len() ==> (#[trigger] out_bytes@[i])@ == resource_key_bytes(out@[i]),
            strictly_sorted(key_bytes_list(out@)),
            key_bytes_list(out@).to_set() == key_bytes_list(orig.skip(rest@.len() as int)).to_set(),
            forall|i: int| 0 <= i < out@.len() ==> orig.contains(#[trigger] out@[i]),
        decreases rest@.len(),
    {
        let ghost n = rest@.len() as int;
        let key = rest.pop().unwrap();
        let ghost before = out@;
        proof {
            assert(key == orig[n - 1]);
            assert(rest@ =~= orig.take(n - 1));
        }
        insert_key(&mut out, &mut out_bytes, key);
        proof {
            let tail = key_bytes_list(orig.skip(n - 1));
            assert(key_bytes_list(orig.skip(n - 1)) =~= seq![resource_key_bytes(key)] + key_bytes_list(orig.skip(n)));
            assert(tail.to_set() =~= key_bytes_list(orig.skip(n)).to_set().insert(resource_key_bytes(key))) by {
                assert forall|t: Seq<u8>| tail.to_set().contains(t) <==> key_bytes_list(orig.skip(n)).to_set().insert(resource_key_bytes(key)).contains(t) by {
                    if tail.to_set().contains(t) {
                        let k = choose|k: int| 0 <= k < tail.len() && tail[k] == t;
                        if k > 0 {
                            assert(key_bytes_list(orig.skip(n))[k - 1] == t);
                        }
                    }
                    if key_bytes_list(orig.skip(n)).to_set().contains(t) {
                        let k = choose|k: int| 0 <= k < key_bytes_list(orig.skip(n)).len() && key_bytes_list(orig.skip(n))[k] == t;
                        assert(tail[k + 1] == t);
                    }
                    if t == resource_key_bytes(key) {
                        assert(tail[0] == t);
                    }
                }
            }
            assert forall|i: int| 0 <= i < out@.len() implies orig.contains(#[trigger] out@[i]) by {
                if out@[i] == key {
                    assert(orig[n - 1] == key);
                } else {
                    assert(before.contains(out@[i]));
                    let k = choose|k: int| 0 <= k < before.len() && before[k] == out@[i];
                    assert(orig.contains(before[k]));
                }
            }
        }
    }
    proof {
        assert(orig.skip(0) =~= orig);
    }
    out
}

} // verus!
