//! A map from strings to strings kept as a vector of pairs sorted by key,
//! which is also the order it is handed out in.

use crate::text::{
    lemma_seq_lt_irreflexive, lemma_seq_lt_total, lemma_seq_lt_transitive, seq_lt, str_eq, str_lt,
};
use vstd::prelude::*;

verus! {

/// Keys strictly increasing in code point order (so each occurs once).
pub open spec fn keys_sorted(s: Seq<(String, String)>) -> bool {
    forall|i: int, j: int| 0 <= i < j < s.len() ==> seq_lt(#[trigger] s[i].0@, #[trigger] s[j].0@)
}

/// The pairs of `s` are exactly the entries of `m`.
pub open spec fn agrees(s: Seq<(String, String)>, m: Map<Seq<char>, Seq<char>>) -> bool {
    &&& forall|i: int|
        0 <= i < s.len() ==> m.dom().contains(#[trigger] s[i].0@) && m[s[i].0@] == s[i].1@
    &&& forall|k: Seq<char>|
        #[trigger] m.dom().contains(k) ==> exists|i: int| 0 <= i < s.len() && s[i].0@ == k
}

/// Where `key` belongs in the sorted pairs `v`: every key before the slot is
/// smaller; the slot holds `key` itself (`true`) or a larger key, or is the
/// end (`false`).
fn find_slot(v: &Vec<(String, String)>, key: &str) -> (r: (usize, bool))
    requires
        keys_sorted(v@),
    ensures
        r.0 <= v@.len(),
        forall|j: int| 0 <= j < r.0 ==> seq_lt(#[trigger] v@[j].0@, key@),
        r.1 ==> r.0 < v@.len() && v@[r.0 as int].0@ == key@,
        !r.1 ==> forall|j: int| r.0 <= j < v@.len() ==> seq_lt(key@, #[trigger] v@[j].0@),
{
    let mut i: usize = 0;
    while i < v.len()
        invariant
            i <= v@.len(),
            keys_sorted(v@),
            forall|j: int| 0 <= j < i ==> seq_lt(#[trigger] v@[j].0@, key@),
        decreases v@.len() - i,
    {
        if str_eq(v[i].0.as_str(), key) {
            return (i, true);
        }
        if !str_lt(v[i].0.as_str(), key) {
            proof {
                lemma_seq_lt_total(v@[i as int].0@, key@);
                assert forall|j: int| i <= j < v@.len() implies seq_lt(key@, #[trigger] v@[j].0@) by {
                    if j > i {
                        assert(seq_lt(v@[i as int].0@, v@[j].0@));
                        lemma_seq_lt_transitive(key@, v@[i as int].0@, v@[j].0@);
                    }
                }
            }
            return (i, false);
        }
        i = i + 1;
    }
    (i, false)
}

/// Put `key -> val` into the sorted pairs `v` at `slot`, where `find_slot`
/// found no such key.
proof fn lemma_insert_at(
    old_s: Seq<(String, String)>,
    new_s: Seq<(String, String)>,
    slot: int,
    key: (String, String),
    m: Map<Seq<char>, Seq<char>>,
)
    requires
        keys_sorted(old_s),
        agrees(old_s, m),
        0 <= slot <= old_s.len(),
        new_s == old_s.insert(slot, key),
        forall|j: int| 0 <= j < slot ==> seq_lt(#[trigger] old_s[j].0@, key.0@),
        forall|j: int| slot <= j < old_s.len() ==> seq_lt(key.0@, #[trigger] old_s[j].0@),
    ensures
        keys_sorted(new_s),
        agrees(new_s, m.insert(key.0@, key.1@)),
{
    assert forall|i: int, j: int| 0 <= i < j < new_s.len() implies seq_lt(
        #[trigger] new_s[i].0@,
        #[trigger] new_s[j].0@,
    ) by {
        if j < slot {
            assert(new_s[i] == old_s[i] && new_s[j] == old_s[j]);
        } else if j == slot {
            assert(new_s[i] == old_s[i]);
        } else if i < slot {
            assert(new_s[i] == old_s[i] && new_s[j] == old_s[j - 1]);
            lemma_seq_lt_transitive(old_s[i].0@, key.0@, old_s[j - 1].0@);
        } else if i == slot {
            assert(new_s[j] == old_s[j - 1]);
        } else {
            assert(new_s[i] == old_s[i - 1] && new_s[j] == old_s[j - 1]);
        }
    }
    let m2 = m.insert(key.0@, key.1@);
    assert forall|i: int| 0 <= i < new_s.len() implies m2.dom().contains(#[trigger] new_s[i].0@)
        && m2[new_s[i].0@] == new_s[i].1@ by {
        if i < slot {
            assert(new_s[i] == old_s[i]);
            lemma_seq_lt_irreflexive(key.0@);
            assert(old_s[i].0@ != key.0@);
        } else if i > slot {
            assert(new_s[i] == old_s[i - 1]);
            lemma_seq_lt_irreflexive(key.0@);
            assert(old_s[i - 1].0@ != key.0@);
        }
    }
    assert forall|k: Seq<char>| #[trigger] m2.dom().contains(k) implies exists|i: int|
        0 <= i < new_s.len() && new_s[i].0@ == k by {
        if k == key.0@ {
            assert(new_s[slot].0@ == k);
        } else {
            assert(m.dom().contains(k));
            let i = choose|i: int| 0 <= i < old_s.len() && old_s[i].0@ == k;
            if i < slot {
                assert(new_s[i] == old_s[i]);
            } else {
                assert(new_s[i + 1] == old_s[i]);
            }
        }
    }
}

/// Add `key -> val` unless `key` is already present.
pub fn insert_if_absent(
    v: &mut Vec<(String, String)>,
    key: String,
    val: String,
    Ghost(m): Ghost<Map<Seq<char>, Seq<char>>>,
)
    requires
        keys_sorted(old(v)@),
        agrees(old(v)@, m),
    ensures
        keys_sorted(final(v)@),
        agrees(
            final(v)@,
            if m.dom().contains(key@) {
                m
            } else {
                m.insert(key@, val@)
            },
        ),
{
    let (slot, found) = find_slot(v, key.as_str());
    if found {
        return ;
    }
    proof {
        if m.dom().contains(key@) {
            let i = choose|i: int| 0 <= i < old(v)@.len() && old(v)@[i].0@ == key@;
            if i < slot {
                lemma_seq_lt_irreflexive(key@);
            } else {
                lemma_seq_lt_irreflexive(key@);
            }
        }
    }
    let ghost old_s = v@;
    let ghost pair = (key, val);
    v.insert(slot, (key, val));
    proof {
        lemma_insert_at(old_s, v@, slot as int, pair, m);
    }
}

/// Set `key -> val`, replacing any value `key` had.
pub fn insert_or_replace(
    v: &mut Vec<(String, String)>,
    key: String,
    val: String,
    Ghost(m): Ghost<Map<Seq<char>, Seq<char>>>,
)
    requires
        keys_sorted(old(v)@),
        agrees(old(v)@, m),
    ensures
        keys_sorted(final(v)@),
        agrees(final(v)@, m.insert(key@, val@)),
{
    let (slot, found) = find_slot(v, key.as_str());
    if found {
        let ghost old_s = v@;
        let ghost kv = key@;
        let ghost vv = val@;
        let k2 = v[slot].0.clone();
        v.set(slot, (k2, val));
        proof {
            let new_s = v@;
            let m2 = m.insert(kv, vv);
            assert forall|i: int, j: int| 0 <= i < j < new_s.len() implies seq_lt(
                #[trigger] new_s[i].0@,
                #[trigger] new_s[j].0@,
            ) by {
                assert(new_s[i].0@ == old_s[i].0@ && new_s[j].0@ == old_s[j].0@);
            }
            assert forall|i: int| 0 <= i < new_s.len() implies m2.dom().contains(
                #[trigger] new_s[i].0@,
            ) && m2[new_s[i].0@] == new_s[i].1@ by {
                if i != slot {
                    assert(new_s[i] == old_s[i]);
                    if i < slot {
                        assert(seq_lt(old_s[i].0@, old_s[slot as int].0@));
                    } else {
                        assert(seq_lt(old_s[slot as int].0@, old_s[i].0@));
                    }
                    lemma_seq_lt_irreflexive(kv);
                }
            }
            assert forall|k: Seq<char>| #[trigger] m2.dom().contains(k) implies exists|i: int|
                0 <= i < new_s.len() && new_s[i].0@ == k by {
                if k == kv {
                    assert(new_s[slot as int].0@ == k);
                } else {
                    let i = choose|i: int| 0 <= i < old_s.len() && old_s[i].0@ == k;
                    assert(new_s[i].0@ == old_s[i].0@);
                }
            }
        }
        return ;
    }
    let ghost old_s = v@;
    let ghost pair = (key, val);
    v.insert(slot, (key, val));
    proof {
        lemma_insert_at(old_s, v@, slot as int, pair, m);
    }
}

} // verus!
