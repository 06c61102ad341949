//! "The first element that satisfies ..." over sequences, the shape every
//! index lookup in this crate takes.

use vstd::prelude::*;

verus! {

/// `i` is the position of the first element of `s` satisfying `p`.
pub open spec fn is_first<T>(s: Seq<T>, p: spec_fn(T) -> bool, i: int) -> bool {
    &&& 0 <= i < s.len()
    &&& p(s[i])
    &&& forall|j: int| 0 <= j < i ==> !p(#[trigger] s[j])
}

/// Position of the first element of `s` satisfying `p`, if any.
pub open spec fn first_where<T>(s: Seq<T>, p: spec_fn(T) -> bool) -> Option<int> {
    if exists|i: int| is_first(s, p, i) {
        Some(choose|i: int| is_first(s, p, i))
    } else {
        None
    }
}

/// A first position found by a left-to-right scan is *the* first position.
pub proof fn lemma_first_where_found<T>(s: Seq<T>, p: spec_fn(T) -> bool, i: int)
    requires
        is_first(s, p, i),
    ensures
        first_where(s, p) == Some(i),
{
    let k = choose|k: int| is_first(s, p, k);
    assert(is_first(s, p, k));
    if k < i {
        assert(!p(s[k]));
    } else if i < k {
        assert(!p(s[i]));
    }
}

/// A scan that saw no element satisfy `p` finds none.
pub proof fn lemma_first_where_none<T>(s: Seq<T>, p: spec_fn(T) -> bool)
    requires
        forall|j: int| 0 <= j < s.len() ==> !p(#[trigger] s[j]),
    ensures
        first_where(s, p) is None,
{
    if exists|i: int| is_first(s, p, i) {
        let k = choose|k: int| is_first(s, p, k);
        assert(p(s[k]));
    }
}

/// `f` of each element of `s` that satisfies `p`, in order.
pub open spec fn filter_map_seq<T, U>(s: Seq<T>, p: spec_fn(T) -> bool, f: spec_fn(T) -> U) -> Seq<U>
    decreases s.len(),
{
    if s.len() == 0 {
        Seq::empty()
    } else if p(s.last()) {
        filter_map_seq(s.drop_last(), p, f).push(f(s.last()))
    } else {
        filter_map_seq(s.drop_last(), p, f)
    }
}

/// Extending a prefix by one element extends its image accordingly.
pub proof fn lemma_filter_map_push<T, U>(
    s: Seq<T>,
    p: spec_fn(T) -> bool,
    f: spec_fn(T) -> U,
    i: int,
)
    requires
        0 <= i < s.len(),
    ensures
        filter_map_seq(s.subrange(0, i + 1), p, f) == (if p(s[i]) {
            filter_map_seq(s.subrange(0, i), p, f).push(f(s[i]))
        } else {
            filter_map_seq(s.subrange(0, i), p, f)
        }),
{
    let t = s.subrange(0, i + 1);
    assert(t.drop_last() =~= s.subrange(0, i));
    assert(t.last() == s[i]);
}

/// Each element of a filtered image is the image of an element of `s` that
/// satisfies `p`.
pub proof fn lemma_filter_map_source<T, U>(
    s: Seq<T>,
    p: spec_fn(T) -> bool,
    f: spec_fn(T) -> U,
    k: int,
) -> (i: int)
    requires
        0 <= k < filter_map_seq(s, p, f).len(),
    ensures
        0 <= i < s.len(),
        p(s[i]),
        filter_map_seq(s, p, f)[k] == f(s[i]),
    decreases s.len(),
{
    let init = s.drop_last();
    if p(s.last()) && k == filter_map_seq(init, p, f).len() {
        s.len() - 1
    } else {
        let i = lemma_filter_map_source(init, p, f, k);
        assert(init[i] == s[i]);
        i
    }
}

/// `f` of each element of `s` that satisfies `p`, last element first.
pub open spec fn rev_filter_map_seq<T, U>(s: Seq<T>, p: spec_fn(T) -> bool, f: spec_fn(T) -> U) -> Seq<
    U,
>
    decreases s.len(),
{
    if s.len() == 0 {
        Seq::empty()
    } else if p(s[0]) {
        rev_filter_map_seq(s.drop_first(), p, f).push(f(s[0]))
    } else {
        rev_filter_map_seq(s.drop_first(), p, f)
    }
}

/// Extending a suffix by one element on its left extends its reversed image
/// at the end.
pub proof fn lemma_rev_filter_map_step<T, U>(
    s: Seq<T>,
    p: spec_fn(T) -> bool,
    f: spec_fn(T) -> U,
    i: int,
)
    requires
        0 < i <= s.len(),
    ensures
        rev_filter_map_seq(s.subrange(i - 1, s.len() as int), p, f) == (if p(s[i - 1]) {
            rev_filter_map_seq(s.subrange(i, s.len() as int), p, f).push(f(s[i - 1]))
        } else {
            rev_filter_map_seq(s.subrange(i, s.len() as int), p, f)
        }),
{
    let t = s.subrange(i - 1, s.len() as int);
    assert(t.drop_first() =~= s.subrange(i, s.len() as int));
    assert(t[0] == s[i - 1]);
}

} // verus!
