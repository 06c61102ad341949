//! The sections of the generated tier tables that hold no floating point:
//! the numeric-enum-to-name table, the shader precision formats and the
//! extension lists.

use crate::text::{
    debug_quoted, debug_str, decimal, extend_chars, extend_str, lemma_seq_lt_total,
    lemma_seq_lt_transitive, seq_lt, str_eq, str_lt, string_of, u64_to_decimal,
};
use vstd::prelude::*;

verus! {

/// A `(number, name)` pair taken by value.
pub open spec fn pv(p: (u32, String)) -> (u32, Seq<char>) {
    (p.0, p.1@)
}

/// Pairs ordered by number, then by name in code point order.
pub open spec fn pair_lt(a: (u32, Seq<char>), b: (u32, Seq<char>)) -> bool {
    a.0 < b.0 || (a.0 == b.0 && seq_lt(a.1, b.1))
}

/// Pairs strictly increasing (so each occurs once).
pub open spec fn pairs_sorted(s: Seq<(u32, String)>) -> bool {
    forall|i: int, j: int| 0 <= i < j < s.len() ==> pair_lt(pv(#[trigger] s[i]), pv(#[trigger] s[j]))
}

/// Every tier's `(name, number)` enum entries, tier after tier.
pub open spec fn all_entries(tiers: Seq<Vec<(String, u32)>>) -> Seq<(String, u32)>
    decreases tiers.len(),
{
    if tiers.len() == 0 {
        Seq::empty()
    } else {
        tiers[0]@ + all_entries(tiers.drop_first())
    }
}

/// An enum entry taken by value.
pub open spec fn ev(e: (String, u32)) -> (Seq<char>, u32) {
    (e.0@, e.1)
}

/// No parameter name occurs in `es` with two different enum numbers.
pub open spec fn names_agree(es: Seq<(String, u32)>) -> bool {
    forall|k1: int, k2: int|
        0 <= k1 < es.len() && 0 <= k2 < es.len() && (#[trigger] es[k1]).0@ == (
        #[trigger] es[k2]).0@ ==> es[k1].1 == es[k2].1
}

/// The entries of `s`, taken by value, as a set.
pub open spec fn ev_set(s: Seq<(String, u32)>) -> Set<(Seq<char>, u32)> {
    Set::new(|x: (Seq<char>, u32)| exists|k: int| 0 <= k < s.len() && ev(s[k]) == x)
}

/// The pairs of `s`, taken by value, as a set.
pub open spec fn pv_set(s: Seq<(u32, String)>) -> Set<(u32, Seq<char>)> {
    Set::new(|x: (u32, Seq<char>)| exists|m: int| 0 <= m < s.len() && pv(s[m]) == x)
}

/// No two entries of `s` share a name.
pub open spec fn names_unique(s: Seq<(String, u32)>) -> bool {
    forall|j1: int, j2: int| 0 <= j1 < j2 < s.len() ==> (#[trigger] s[j1]).0@ != (#[trigger] s[j2]).0@
}

/// Appending an entry adds it to the set.
proof fn lemma_ev_set_push(s: Seq<(String, u32)>, e: (String, u32))
    ensures
        ev_set(s.push(e)) == ev_set(s).insert(ev(e)),
{
    let t = s.push(e);
    assert forall|x: (Seq<char>, u32)| ev_set(t).contains(x) implies ev_set(s).insert(ev(e)).contains(x) by {
        let k = choose|k: int| 0 <= k < t.len() && ev(t[k]) == x;
        if k < s.len() {
            assert(t[k] == s[k]);
        }
    }
    assert forall|x: (Seq<char>, u32)| ev_set(s).insert(ev(e)).contains(x) implies ev_set(t).contains(x) by {
        if x == ev(e) {
            assert(ev(t[s.len() as int]) == x);
        } else {
            let k = choose|k: int| 0 <= k < s.len() && ev(s[k]) == x;
            assert(t[k] == s[k]);
        }
    }
    assert(ev_set(t) =~= ev_set(s).insert(ev(e)));
}

/// Inserting a pair anywhere adds it to the set.
proof fn lemma_pv_set_insert(s: Seq<(u32, String)>, slot: int, p: (u32, String))
    requires
        0 <= slot <= s.len(),
    ensures
        pv_set(s.insert(slot, p)) == pv_set(s).insert(pv(p)),
{
    let t = s.insert(slot, p);
    assert forall|x: (u32, Seq<char>)| pv_set(t).contains(x) implies pv_set(s).insert(pv(p)).contains(x) by {
        let m = choose|m: int| 0 <= m < t.len() && pv(t[m]) == x;
        if m < slot {
            assert(t[m] == s[m]);
        } else if m > slot {
            assert(t[m] == s[m - 1]);
        }
    }
    assert forall|x: (u32, Seq<char>)| pv_set(s).insert(pv(p)).contains(x) implies pv_set(t).contains(x) by {
        if x == pv(p) {
            assert(pv(t[slot]) == x);
        } else {
            let m = choose|m: int| 0 <= m < s.len() && pv(s[m]) == x;
            if m < slot {
                assert(t[m] == s[m]);
            } else {
                assert(t[m + 1] == s[m]);
            }
        }
    }
    assert(pv_set(t) =~= pv_set(s).insert(pv(p)));
}

/// The entries of `a` then `b` are those of `a`, then those of `b`.
proof fn lemma_all_entries_concat(a: Seq<Vec<(String, u32)>>, b: Seq<Vec<(String, u32)>>)
    ensures
        all_entries(a + b) == all_entries(a) + all_entries(b),
    decreases a.len(),
{
    if a.len() == 0 {
        assert(a + b =~= b);
    } else {
        assert((a + b).drop_first() =~= a.drop_first() + b);
        lemma_all_entries_concat(a.drop_first(), b);
        assert(all_entries(a + b) =~= all_entries(a) + all_entries(b));
    }
}

/// Reading tier `t` after the tiers before it.
proof fn lemma_all_entries_step(tiers: Seq<Vec<(String, u32)>>, t: int)
    requires
        0 <= t < tiers.len(),
    ensures
        all_entries(tiers.subrange(0, t + 1)) == all_entries(tiers.subrange(0, t)) + tiers[t]@,
{
    let one = seq![tiers[t]];
    assert(tiers.subrange(0, t + 1) =~= tiers.subrange(0, t) + one);
    lemma_all_entries_concat(tiers.subrange(0, t), one);
    assert(one.drop_first() =~= Seq::<Vec<(String, u32)>>::empty());
    assert(all_entries(one.drop_first()) =~= Seq::<(String, u32)>::empty());
    assert(one[0] == tiers[t]);
    assert(all_entries(one) =~= tiers[t]@);
}

/// The entries of the first `t` tiers begin the entries of all of them.
proof fn lemma_all_entries_prefix(tiers: Seq<Vec<(String, u32)>>, t: int)
    requires
        0 <= t <= tiers.len(),
    ensures
        all_entries(tiers.subrange(0, t)).len() <= all_entries(tiers).len(),
        forall|k: int|
            0 <= k < all_entries(tiers.subrange(0, t)).len() ==> #[trigger] all_entries(
                tiers.subrange(0, t),
            )[k] == all_entries(tiers)[k],
{
    assert(tiers =~= tiers.subrange(0, t) + tiers.subrange(t, tiers.len() as int));
    lemma_all_entries_concat(tiers.subrange(0, t), tiers.subrange(t, tiers.len() as int));
}

/// Position of `name` in `seen`, if it is there.
fn find_name(seen: &Vec<(String, u32)>, name: &str) -> (r: Option<usize>)
    ensures
        r matches Some(j) ==> j < seen@.len() && seen@[j as int].0@ == name@,
        r is None ==> forall|j: int| 0 <= j < seen@.len() ==> (#[trigger] seen@[j]).0@ != name@,
{
    let mut j: usize = 0;
    while j < seen.len()
        invariant
            j <= seen@.len(),
            forall|k: int| 0 <= k < j ==> (#[trigger] seen@[k]).0@ != name@,
        decreases seen@.len() - j,
    {
        if str_eq(seen[j].0.as_str(), name) {
            return Some(j);
        }
        j = j + 1;
    }
    None
}

/// Is `a` before `b` in number-then-name order?
fn pair_before(a: &(u32, String), b: &(u32, String)) -> (r: bool)
    ensures
        r == pair_lt(pv(*a), pv(*b)),
{
    a.0 < b.0 || (a.0 == b.0 && str_lt(a.1.as_str(), b.1.as_str()))
}

/// Distinct pairs are ordered one way or the other.
proof fn lemma_pair_lt_total(a: (u32, Seq<char>), b: (u32, Seq<char>))
    requires
        a != b,
    ensures
        pair_lt(a, b) || pair_lt(b, a),
{
    if a.0 == b.0 {
        lemma_seq_lt_total(a.1, b.1);
    }
}

/// Number-then-name order is transitive.
proof fn lemma_pair_lt_transitive(a: (u32, Seq<char>), b: (u32, Seq<char>), c: (u32, Seq<char>))
    requires
        pair_lt(a, b),
        pair_lt(b, c),
    ensures
        pair_lt(a, c),
{
    if a.0 == b.0 && b.0 == c.0 {
        lemma_seq_lt_transitive(a.1, b.1, c.1);
    }
}

/// Insert `p` into the sorted pairs `v`, which do not hold it yet, at the
/// position that keeps them sorted.
fn insert_pair(v: &mut Vec<(u32, String)>, p: (u32, String)) -> (slot: usize)
    requires
        pairs_sorted(old(v)@),
        forall|k: int| 0 <= k < old(v)@.len() ==> pv(#[trigger] old(v)@[k]) != pv(p),
    ensures
        pairs_sorted(final(v)@),
        slot <= old(v)@.len(),
        final(v)@ == old(v)@.insert(slot as int, p),
{
    let mut slot: usize = 0;
    while slot < v.len() && pair_before(&v[slot], &p)
        invariant
            slot <= v@.len(),
            forall|k: int| 0 <= k < slot ==> pair_lt(pv(#[trigger] v@[k]), pv(p)),
        decreases v@.len() - slot,
    {
        slot = slot + 1;
    }
    let ghost old_s = v@;
    proof {
        assert forall|k: int| slot <= k < old_s.len() implies pair_lt(pv(p), pv(#[trigger] old_s[k])) by {
            lemma_pair_lt_total(pv(old_s[slot as int]), pv(p));
            if k > slot {
                lemma_pair_lt_transitive(pv(p), pv(old_s[slot as int]), pv(old_s[k]));
            }
        }
    }
    v.insert(slot, p);
    proof {
        let s = v@;
        assert forall|i: int, j: int| 0 <= i < j < s.len() implies pair_lt(
            pv(#[trigger] s[i]),
            pv(#[trigger] s[j]),
        ) by {
            if j < slot {
                assert(s[i] == old_s[i] && s[j] == old_s[j]);
            } else if j == slot {
                assert(s[i] == old_s[i]);
            } else if i < slot {
                assert(s[i] == old_s[i] && s[j] == old_s[j - 1]);
                lemma_pair_lt_transitive(pv(old_s[i]), pv(p), pv(old_s[j - 1]));
            } else if i == slot {
                assert(s[j] == old_s[j - 1]);
            } else {
                assert(s[i] == old_s[i - 1] && s[j] == old_s[j - 1]);
            }
        }
    }
    slot
}

/// The entries read up to and including entry `i` of tier `t` begin the
/// entries of all tiers.
proof fn lemma_done_in_all(tiers: Seq<Vec<(String, u32)>>, t: int, i: int)
    requires
        0 <= t < tiers.len(),
        0 <= i < tiers[t]@.len(),
    ensures
        all_entries(tiers.subrange(0, t)).len() + i + 1 <= all_entries(tiers).len(),
        forall|k: int|
            0 <= k < all_entries(tiers.subrange(0, t)).len() + i + 1 ==> (all_entries(
                tiers.subrange(0, t),
            ) + tiers[t]@.subrange(0, i + 1))[k] == #[trigger] all_entries(tiers)[k],
{
    lemma_all_entries_step(tiers, t);
    lemma_all_entries_prefix(tiers, t + 1);
    let base = all_entries(tiers.subrange(0, t));
    let pre = all_entries(tiers.subrange(0, t + 1));
    assert forall|k: int| 0 <= k < base.len() + i + 1 implies (base + tiers[t]@.subrange(
        0,
        i + 1,
    ))[k] == #[trigger] all_entries(tiers)[k] by {
        assert(pre[k] == all_entries(tiers)[k]);
    }
}

/// Read one entry `(name, num)`. When `name` is already in `seen` with
/// another number, its position there is returned and nothing changes;
/// otherwise `seen` gains the entry unless it already holds it.
fn absorb(seen: &mut Vec<(String, u32)>, name: &String, num: u32, Ghost(entry): Ghost<(String, u32)>) -> (r:
    Option<usize>)
    requires
        names_unique(old(seen)@),
        ev(entry) == (name@, num),
    ensures
        r matches Some(j) ==> final(seen)@ == old(seen)@ && j < old(seen)@.len() && old(
            seen,
        )@[j as int].0@ == name@ && old(seen)@[j as int].1 != num,
        r is None ==> names_unique(final(seen)@) && ev_set(final(seen)@) == ev_set(old(seen)@).insert(
            ev(entry),
        ),
{
    match find_name(seen, name.as_str()) {
        Some(j) => {
            if seen[j].1 != num {
                return Some(j);
            }
            proof {
                assert(ev_set(seen@).contains(ev(entry))) by {
                    assert(ev(seen@[j as int]) == ev(entry));
                }
                assert(ev_set(seen@).insert(ev(entry)) =~= ev_set(seen@));
            }
            None
        },
        None => {
            let ghost old_seen = seen@;
            let e = (name.clone(), num);
            seen.push(e);
            proof {
                lemma_ev_set_push(old_seen, e);
                let last = old_seen.len() as int;
                assert forall|j1: int, j2: int|
                    0 <= j1 < j2 < seen@.len() implies (#[trigger] seen@[j1]).0@ != (
                    #[trigger] seen@[j2]).0@ by {
                    assert(seen@[j1] == old_seen[j1]);
                    if j2 < last {
                        assert(seen@[j2] == old_seen[j2]);
                    }
                }
            }
            None
        },
    }
}

/// The numeric-enum-to-name pairs of the tiers' enum blocks (each tier's
/// `(name, number)` entries): exactly the entries' pairs, sorted by number
/// then name, each once; or, when some name is reported with two different
/// numbers (a malformed capture), that name.
pub fn enum_name_pairs(tiers: &[Vec<(String, u32)>]) -> (r: Result<Vec<(u32, String)>, String>)
    ensures
        r is Ok <==> names_agree(all_entries(tiers@)),
        match r {
            Ok(v) => {
                &&& names_agree(all_entries(tiers@))
                &&& pairs_sorted(v@)
                &&& forall|num: u32, name: Seq<char>|
                    #[trigger] pv_set(v@).contains((num, name)) <==> ev_set(
                        all_entries(tiers@),
                    ).contains((name, num))
            },
            Err(name) => exists|k1: int, k2: int|
                0 <= k1 < all_entries(tiers@).len() && 0 <= k2 < all_entries(tiers@).len()
                    && (#[trigger] all_entries(tiers@)[k1]).0@ == name@ && (
                #[trigger] all_entries(tiers@)[k2]).0@ == name@ && all_entries(tiers@)[k1].1
                    != all_entries(tiers@)[k2].1,
        },
{
    let ghost all = all_entries(tiers@);
    let ghost mut done: Seq<(String, u32)> = Seq::empty();
    let mut seen: Vec<(String, u32)> = Vec::new();
    let mut t: usize = 0;
    proof {
        assert(tiers@.subrange(0, 0) =~= Seq::<Vec<(String, u32)>>::empty());
        assert(ev_set(seen@) =~= ev_set(done));
    }
    while t < tiers.len()
        invariant
            t <= tiers@.len(),
            all == all_entries(tiers@),
            done == all_entries(tiers@.subrange(0, t as int)),
            names_unique(seen@),
            ev_set(seen@) == ev_set(done),
        decreases tiers@.len() - t,
    {
        let tier = &tiers[t];
        let ghost base = done;
        let mut i: usize = 0;
        proof {
            assert(done =~= base + tier@.subrange(0, 0));
        }
        while i < tier.len()
            invariant
                t < tiers@.len(),
                tier@ == tiers@[t as int]@,
                i <= tier@.len(),
                all == all_entries(tiers@),
                base == all_entries(tiers@.subrange(0, t as int)),
                done == base + tier@.subrange(0, i as int),
                names_unique(seen@),
                ev_set(seen@) == ev_set(done),
            decreases tier@.len() - i,
        {
            let name = &tier[i].0;
            let num = tier[i].1;
            let ghost entry = tier@[i as int];
            let ghost next = done.push(entry);
            proof {
                assert(next =~= base + tier@.subrange(0, i + 1));
                lemma_ev_set_push(done, entry);
            }
            match absorb(&mut seen, name, num, Ghost(entry)) {
                Some(j) => {
                    let n = name.clone();
                    proof {
                        assert(ev_set(seen@).contains(ev(seen@[j as int])));
                        let k0 = choose|k: int| 0 <= k < done.len() && ev(done[k]) == ev(seen@[j as int]);
                        lemma_done_in_all(tiers@, t as int, i as int);
                        assert(next[k0] == done[k0]);
                        assert(all[k0] == next[k0]);
                        assert(all[done.len() as int] == next[done.len() as int]);
                    }
                    return Err(n);
                },
                None => {},
            }
            proof {
                done = next;
            }
            i = i + 1;
        }
        proof {
            assert(tier@.subrange(0, i as int) =~= tier@);
            lemma_all_entries_step(tiers@, t as int);
        }
        t = t + 1;
    }
    proof {
        assert(tiers@.subrange(0, t as int) =~= tiers@);
        assert forall|k1: int, k2: int|
            0 <= k1 < all.len() && 0 <= k2 < all.len() && (#[trigger] all[k1]).0@ == (
            #[trigger] all[k2]).0@ implies all[k1].1 == all[k2].1 by {
            assert(ev_set(all).contains(ev(all[k1])));
            assert(ev_set(all).contains(ev(all[k2])));
            let ja = choose|j: int| 0 <= j < seen@.len() && ev(seen@[j]) == ev(all[k1]);
            let jb = choose|j: int| 0 <= j < seen@.len() && ev(seen@[j]) == ev(all[k2]);
            if ja < jb {
                assert(seen@[ja].0@ != seen@[jb].0@);
            } else if jb < ja {
                assert(seen@[jb].0@ != seen@[ja].0@);
            }
        }
    }
    let mut pairs: Vec<(u32, String)> = Vec::new();
    let mut k: usize = 0;
    proof {
        assert(pv_set(pairs@) =~= Set::<(u32, Seq<char>)>::empty());
    }
    while k < seen.len()
        invariant
            k <= seen@.len(),
            names_unique(seen@),
            pairs_sorted(pairs@),
            forall|num: u32, name: Seq<char>|
                #[trigger] pv_set(pairs@).contains((num, name)) <==> ev_set(
                    seen@.subrange(0, k as int),
                ).contains((name, num)),
        decreases seen@.len() - k,
    {
        let p = (seen[k].1, seen[k].0.clone());
        proof {
            assert forall|m: int| 0 <= m < pairs@.len() implies pv(#[trigger] pairs@[m]) != pv(p) by {
                let x = pv(pairs@[m]);
                assert(pv_set(pairs@).contains(x));
                assert(ev_set(seen@.subrange(0, k as int)).contains((x.1, x.0)));
                let j = choose|j: int|
                    0 <= j < k && ev(seen@.subrange(0, k as int)[j]) == (x.1, x.0);
                assert(seen@.subrange(0, k as int)[j] == seen@[j]);
                assert(seen@[j].0@ != seen@[k as int].0@);
            }
        }
        let ghost before_pairs = pairs@;
        let slot = insert_pair(&mut pairs, p);
        proof {
            lemma_pv_set_insert(before_pairs, slot as int, p);
            assert(seen@.subrange(0, k + 1) =~= seen@.subrange(0, k as int).push(seen@[k as int]));
            lemma_ev_set_push(seen@.subrange(0, k as int), seen@[k as int]);
        }
        k = k + 1;
    }
    proof {
        assert(seen@.subrange(0, k as int) =~= seen@);
    }
    Ok(pairs)
}

// ---------------------------------------------------------------------------
// Emission
// ---------------------------------------------------------------------------

/// How Rust prints an integer: an optional `-`, then its decimal digits.
pub open spec fn int_text(i: int) -> Seq<char> {
    if i < 0 {
        seq!['-'] + decimal((-i) as nat)
    } else {
        decimal(i as nat)
    }
}

/// The decimal text of `x`.
fn i32_text(x: i32) -> (r: Vec<char>)
    ensures
        r@ == int_text(x as int),
{
    if x < 0 {
        let mag: i64 = -(x as i64);
        let digits = u64_to_decimal(mag as u64);
        let mut v: Vec<char> = vec!['-'];
        extend_chars(&mut v, digits.as_slice());
        v
    } else {
        u64_to_decimal(x as u64)
    }
}

/// One line of the enum-name table.
pub open spec fn enum_line(p: (u32, String)) -> Seq<char> {
    "    ("@ + decimal(p.0 as nat) + ", "@ + debug_str(p.1@) + "),\n"@
}

/// The lines of the enum-name table.
pub open spec fn enum_lines(ps: Seq<(u32, String)>) -> Seq<char>
    decreases ps.len(),
{
    if ps.len() == 0 {
        Seq::empty()
    } else {
        enum_lines(ps.drop_last()) + enum_line(ps.last())
    }
}

/// The doc comment and opening of the enum-name table.
pub open spec fn enum_header() -> Seq<char> {
    "/// Numeric GL enum -> parameter name. Fixed by the WebGL spec.\n"@ + "///\n"@
        + "/// A single enum number can legitimately answer to more than one name (e.g.\n"@
        + "/// `BLEND_EQUATION` and `BLEND_EQUATION_RGB` are both 0x8009 per spec), so this\n"@
        + "/// is a flat pair-list rather than a map keyed by number. Do not collapse it\n"@
        + "/// into a map (e.g. a JS object keyed by enum number) without first checking\n"@
        + "/// that every pair of aliased names holds an equal value.\n"@
        + "pub(crate) static ENUM_NAMES: &[(u32, &str)] = &[\n"@
}

/// The enum-name table's source.
pub fn emit_enum_names(pairs: &[(u32, String)]) -> (r: String)
    ensures
        r@ == enum_header() + enum_lines(pairs@) + "];\n"@,
{
    let mut v: Vec<char> = Vec::new();
    extend_str(&mut v, "/// Numeric GL enum -> parameter name. Fixed by the WebGL spec.\n");
    extend_str(&mut v, "///\n");
    extend_str(
        &mut v,
        "/// A single enum number can legitimately answer to more than one name (e.g.\n",
    );
    extend_str(
        &mut v,
        "/// `BLEND_EQUATION` and `BLEND_EQUATION_RGB` are both 0x8009 per spec), so this\n",
    );
    extend_str(
        &mut v,
        "/// is a flat pair-list rather than a map keyed by number. Do not collapse it\n",
    );
    extend_str(
        &mut v,
        "/// into a map (e.g. a JS object keyed by enum number) without first checking\n",
    );
    extend_str(&mut v, "/// that every pair of aliased names holds an equal value.\n");
    extend_str(&mut v, "pub(crate) static ENUM_NAMES: &[(u32, &str)] = &[\n");
    let ghost head = v@;
    proof {
        assert(head =~= enum_header());
        assert(pairs@.subrange(0, 0) =~= Seq::<(u32, String)>::empty());
        assert(v@ =~= head + enum_lines(pairs@.subrange(0, 0)));
    }
    let mut i: usize = 0;
    while i < pairs.len()
        invariant
            i <= pairs@.len(),
            v@ == head + enum_lines(pairs@.subrange(0, i as int)),
        decreases pairs@.len() - i,
    {
        let ghost prev = v@;
        extend_str(&mut v, "    (");
        let digits = u64_to_decimal(pairs[i].0 as u64);
        extend_chars(&mut v, digits.as_slice());
        extend_str(&mut v, ", ");
        let q = debug_quoted(pairs[i].1.as_str());
        extend_str(&mut v, q.as_str());
        extend_str(&mut v, "),\n");
        proof {
            let t = pairs@.subrange(0, i + 1);
            assert(t.drop_last() =~= pairs@.subrange(0, i as int));
            assert(t.last() == pairs@[i as int]);
            assert(v@ =~= prev + enum_line(pairs@[i as int]));
        }
        i = i + 1;
    }
    extend_str(&mut v, "];\n");
    proof {
        assert(pairs@.subrange(0, pairs@.len() as int) =~= pairs@);
    }
    string_of(v.as_slice())
}

/// One shader precision format line: `(name, [range_min, range_max, precision])`.
pub open spec fn precision_line(e: (String, (i32, i32, i32))) -> Seq<char> {
    "        ("@ + debug_str(e.0@) + ", ["@ + int_text(e.1.0 as int) + ", "@ + int_text(
        e.1.1 as int,
    ) + ", "@ + int_text(e.1.2 as int) + "]),\n"@
}

/// The precision lines of one tier.
pub open spec fn precision_lines(es: Seq<(String, (i32, i32, i32))>) -> Seq<char>
    decreases es.len(),
{
    if es.len() == 0 {
        Seq::empty()
    } else {
        precision_lines(es.drop_last()) + precision_line(es.last())
    }
}

/// One tier's block of the precision table.
pub open spec fn precision_block(t: (String, Vec<(String, (i32, i32, i32))>)) -> Seq<char> {
    "    ("@ + debug_str(t.0@) + ", &[\n"@ + precision_lines(t.1@) + "    ]),\n"@
}

/// The blocks of the precision table.
pub open spec fn precision_blocks(ts: Seq<(String, Vec<(String, (i32, i32, i32))>)>) -> Seq<char>
    decreases ts.len(),
{
    if ts.len() == 0 {
        Seq::empty()
    } else {
        precision_blocks(ts.drop_last()) + precision_block(ts.last())
    }
}

/// Append one tier's block of the precision table.
fn push_precision_block(v: &mut Vec<char>, t: &(String, Vec<(String, (i32, i32, i32))>))
    ensures
        final(v)@ == old(v)@ + precision_block(*t),
{
    let ghost start = v@;
    extend_str(v, "    (");
    let q = debug_quoted(t.0.as_str());
    extend_str(v, q.as_str());
    extend_str(v, ", &[\n");
    let ghost head = v@;
    let es = &t.1;
    proof {
        assert(es@.subrange(0, 0) =~= Seq::<(String, (i32, i32, i32))>::empty());
        assert(v@ =~= head + precision_lines(es@.subrange(0, 0)));
    }
    let mut i: usize = 0;
    while i < es.len()
        invariant
            i <= es@.len(),
            v@ == head + precision_lines(es@.subrange(0, i as int)),
        decreases es@.len() - i,
    {
        let ghost prev = v@;
        let e = &es[i];
        extend_str(v, "        (");
        let q = debug_quoted(e.0.as_str());
        extend_str(v, q.as_str());
        extend_str(v, ", [");
        let a = i32_text((e.1).0);
        extend_chars(v, a.as_slice());
        extend_str(v, ", ");
        let b = i32_text((e.1).1);
        extend_chars(v, b.as_slice());
        extend_str(v, ", ");
        let c = i32_text((e.1).2);
        extend_chars(v, c.as_slice());
        extend_str(v, "]),\n");
        proof {
            let s = es@.subrange(0, i + 1);
            assert(s.drop_last() =~= es@.subrange(0, i as int));
            assert(s.last() == es@[i as int]);
            assert(v@ =~= prev + precision_line(es@[i as int]));
        }
        i = i + 1;
    }
    extend_str(v, "    ]),\n");
    proof {
        assert(es@.subrange(0, es@.len() as int) =~= es@);
        assert(v@ =~= start + precision_block(*t));
    }
}

/// The shader precision table's source: per tier, each
/// `getShaderPrecisionFormat` result in the order given.
pub fn emit_precision(tiers: &[(String, Vec<(String, (i32, i32, i32))>)]) -> (r: String)
    ensures
        r@ == "/// `getShaderPrecisionFormat` results per tier.\n"@
            + "pub(crate) static PRECISION: &[(&str, &[(&str, [i32; 3])])] = &[\n"@
            + precision_blocks(tiers@) + "];\n\n"@,
{
    let mut v: Vec<char> = Vec::new();
    extend_str(&mut v, "/// `getShaderPrecisionFormat` results per tier.\n");
    extend_str(&mut v, "pub(crate) static PRECISION: &[(&str, &[(&str, [i32; 3])])] = &[\n");
    let ghost head = v@;
    proof {
        assert(tiers@.subrange(0, 0) =~= Seq::<(String, Vec<(String, (i32, i32, i32))>)>::empty());
        assert(v@ =~= head + precision_blocks(tiers@.subrange(0, 0)));
    }
    let mut i: usize = 0;
    while i < tiers.len()
        invariant
            i <= tiers@.len(),
            v@ == head + precision_blocks(tiers@.subrange(0, i as int)),
        decreases tiers@.len() - i,
    {
        push_precision_block(&mut v, &tiers[i]);
        proof {
            let s = tiers@.subrange(0, i + 1);
            assert(s.drop_last() =~= tiers@.subrange(0, i as int));
            assert(s.last() == tiers@[i as int]);
        }
        i = i + 1;
    }
    extend_str(&mut v, "];\n\n");
    proof {
        assert(tiers@.subrange(0, tiers@.len() as int) =~= tiers@);
    }
    string_of(v.as_slice())
}

/// One extension line.
pub open spec fn extension_line(e: String) -> Seq<char> {
    "        "@ + debug_str(e@) + ",\n"@
}

/// The extension lines of one tier, in capture order.
pub open spec fn extension_lines(es: Seq<String>) -> Seq<char>
    decreases es.len(),
{
    if es.len() == 0 {
        Seq::empty()
    } else {
        extension_lines(es.drop_last()) + extension_line(es.last())
    }
}

/// One tier's block of an extension table.
pub open spec fn extension_block(t: (String, Vec<String>)) -> Seq<char> {
    "    ("@ + debug_str(t.0@) + ", &[\n"@ + extension_lines(t.1@) + "    ]),\n"@
}

/// The blocks of an extension table.
pub open spec fn extension_blocks(ts: Seq<(String, Vec<String>)>) -> Seq<char>
    decreases ts.len(),
{
    if ts.len() == 0 {
        Seq::empty()
    } else {
        extension_blocks(ts.drop_last()) + extension_block(ts.last())
    }
}

/// Append one tier's block of an extension table.
fn push_extension_block(v: &mut Vec<char>, t: &(String, Vec<String>))
    ensures
        final(v)@ == old(v)@ + extension_block(*t),
{
    let ghost start = v@;
    extend_str(v, "    (");
    let q = debug_quoted(t.0.as_str());
    extend_str(v, q.as_str());
    extend_str(v, ", &[\n");
    let ghost head = v@;
    let es = &t.1;
    proof {
        assert(es@.subrange(0, 0) =~= Seq::<String>::empty());
        assert(v@ =~= head + extension_lines(es@.subrange(0, 0)));
    }
    let mut i: usize = 0;
    while i < es.len()
        invariant
            i <= es@.len(),
            v@ == head + extension_lines(es@.subrange(0, i as int)),
        decreases es@.len() - i,
    {
        let ghost prev = v@;
        extend_str(v, "        ");
        let q = debug_quoted(es[i].as_str());
        extend_str(v, q.as_str());
        extend_str(v, ",\n");
        proof {
            let s = es@.subrange(0, i + 1);
            assert(s.drop_last() =~= es@.subrange(0, i as int));
            assert(s.last() == es@[i as int]);
            assert(v@ =~= prev + extension_line(es@[i as int]));
        }
        i = i + 1;
    }
    extend_str(v, "    ]),\n");
    proof {
        assert(es@.subrange(0, es@.len() as int) =~= es@);
        assert(v@ =~= start + extension_block(*t));
    }
}

/// The name of the extension table for one context version.
pub open spec fn extension_label(webgl1: bool) -> Seq<char> {
    if webgl1 {
        "EXTENSIONS_WEBGL1"@
    } else {
        "EXTENSIONS_WEBGL2"@
    }
}

/// The context version an extension table is for.
pub open spec fn context_name(webgl1: bool) -> Seq<char> {
    if webgl1 {
        "WebGL1"@
    } else {
        "WebGL2"@
    }
}

/// The source of the extension table of one context version (`webgl1`, or
/// WebGL2): per tier, its extension list in capture order, which is the
/// order the browser reports.
pub fn emit_extensions(webgl1: bool, tiers: &[(String, Vec<String>)]) -> (r: String)
    ensures
        r@ == "/// Extension list per tier for "@ + context_name(webgl1) + ".\n"@
            + "pub(crate) static "@ + extension_label(webgl1) + ": &[(&str, &[&str])] = &[\n"@
            + extension_blocks(tiers@) + "];\n\n"@,
{
    let mut v: Vec<char> = Vec::new();
    extend_str(&mut v, "/// Extension list per tier for ");
    extend_str(
        &mut v,
        if webgl1 {
            "WebGL1"
        } else {
            "WebGL2"
        },
    );
    extend_str(&mut v, ".\n");
    extend_str(&mut v, "pub(crate) static ");
    extend_str(
        &mut v,
        if webgl1 {
            "EXTENSIONS_WEBGL1"
        } else {
            "EXTENSIONS_WEBGL2"
        },
    );
    extend_str(&mut v, ": &[(&str, &[&str])] = &[\n");
    let ghost head = v@;
    proof {
        assert(tiers@.subrange(0, 0) =~= Seq::<(String, Vec<String>)>::empty());
        assert(v@ =~= head + extension_blocks(tiers@.subrange(0, 0)));
    }
    let mut i: usize = 0;
    while i < tiers.len()
        invariant
            i <= tiers@.len(),
            v@ == head + extension_blocks(tiers@.subrange(0, i as int)),
        decreases tiers@.len() - i,
    {
        push_extension_block(&mut v, &tiers[i]);
        proof {
            let s = tiers@.subrange(0, i + 1);
            assert(s.drop_last() =~= tiers@.subrange(0, i as int));
            assert(s.last() == tiers@[i as int]);
        }
        i = i + 1;
    }
    extend_str(&mut v, "];\n\n");
    proof {
        assert(tiers@.subrange(0, tiers@.len() as int) =~= tiers@);
    }
    string_of(v.as_slice())
}

} // verus!
