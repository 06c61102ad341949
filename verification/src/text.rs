//! Character-sequence utilities shared by the parsers and renderers.
//!
//! Everything here works on `Seq<char>` in specifications and on `Vec<char>`
//! or `&[char]` in code, so that each parser can be stated directly over the
//! characters it reads.

use vstd::prelude::*;

verus! {

// ---------------------------------------------------------------------------
// Conversions between `&str`, `String` and character vectors
// ---------------------------------------------------------------------------

/// Copy the characters of `s` into a vector.
pub fn chars_of(s: &str) -> (v: Vec<char>)
    ensures
        v@ == s@,
{
    broadcast use vstd::string::group_string_axioms;
    let mut v: Vec<char> = Vec::new();
    for c in it: s.chars()
        invariant
            v@ == it.history(),
            it.seq() == s@,
    {
        v.push(c);
    }
    v
}

/// `String::push`: appends one character.
#[verifier::external_body]
fn push_char(s: &mut String, c: char)
    ensures
        final(s)@ == old(s)@.push(c),
{
    s.push(c);
}

/// Build a `String` holding exactly the characters of `v`.
pub fn string_of(v: &[char]) -> (s: String)
    ensures
        s@ == v@,
{
    let mut s = String::new();
    let mut i: usize = 0;
    while i < v.len()
        invariant
            i <= v@.len(),
            s@ == v@.subrange(0, i as int),
        decreases v@.len() - i,
    {
        push_char(&mut s, v[i]);
        i = i + 1;
        proof {
            assert(s@ =~= v@.subrange(0, i as int));
        }
    }
    proof {
        assert(v@.subrange(0, v@.len() as int) =~= v@);
    }
    s
}

/// Append the characters of `src` to `dst`.
pub fn extend_chars(dst: &mut Vec<char>, src: &[char])
    ensures
        final(dst)@ == old(dst)@ + src@,
{
    let ghost start = dst@;
    let mut i: usize = 0;
    while i < src.len()
        invariant
            i <= src@.len(),
            dst@ == start + src@.subrange(0, i as int),
        decreases src@.len() - i,
    {
        dst.push(src[i]);
        i = i + 1;
        proof {
            assert(dst@ =~= start + src@.subrange(0, i as int));
        }
    }
    proof {
        assert(src@.subrange(0, src@.len() as int) =~= src@);
    }
}

/// Append the characters of the string `src` to `dst`.
pub fn extend_str(dst: &mut Vec<char>, src: &str)
    ensures
        final(dst)@ == old(dst)@ + src@,
{
    let cs = chars_of(src);
    extend_chars(dst, cs.as_slice());
}

/// Are the two character sequences equal?
pub fn chars_eq(a: &[char], b: &[char]) -> (r: bool)
    ensures
        r == (a@ == b@),
{
    if a.len() != b.len() {
        return false;
    }
    let mut i: usize = 0;
    while i < a.len()
        invariant
            i <= a@.len(),
            a@.len() == b@.len(),
            forall|j: int| 0 <= j < i ==> a@[j] == b@[j],
        decreases a@.len() - i,
    {
        if a[i] != b[i] {
            return false;
        }
        i = i + 1;
    }
    proof {
        assert(a@ =~= b@);
    }
    true
}

/// Is the character sequence `a` equal to the string `b`?
pub fn chars_eq_str(a: &[char], b: &str) -> (r: bool)
    ensures
        r == (a@ == b@),
{
    let bs = chars_of(b);
    chars_eq(a, bs.as_slice())
}

// ---------------------------------------------------------------------------
// Whitespace and trimming
// ---------------------------------------------------------------------------

/// The Unicode `White_Space` property, which is what Rust's `char::is_whitespace`
/// and `str::trim` go by.
pub open spec fn is_ws(c: char) -> bool {
    let u = c as u32;
    ||| 0x09 <= u <= 0x0D
    ||| u == 0x20
    ||| u == 0x85
    ||| u == 0xA0
    ||| u == 0x1680
    ||| 0x2000 <= u <= 0x200A
    ||| u == 0x2028
    ||| u == 0x2029
    ||| u == 0x202F
    ||| u == 0x205F
    ||| u == 0x3000
}

/// Executable form of [`is_ws`].
pub fn is_whitespace(c: char) -> (b: bool)
    ensures
        b == is_ws(c),
{
    let u = c as u32;
    (0x09 <= u && u <= 0x0D) || u == 0x20 || u == 0x85 || u == 0xA0 || u == 0x1680 || (0x2000
        <= u && u <= 0x200A) || u == 0x2028 || u == 0x2029 || u == 0x202F || u == 0x205F || u
        == 0x3000
}

/// `s` with leading whitespace removed.
pub open spec fn trim_start_seq(s: Seq<char>) -> Seq<char>
    decreases s.len(),
{
    if s.len() > 0 && is_ws(s[0]) {
        trim_start_seq(s.drop_first())
    } else {
        s
    }
}

/// `s` with trailing whitespace removed.
pub open spec fn trim_end_seq(s: Seq<char>) -> Seq<char>
    decreases s.len(),
{
    if s.len() > 0 && is_ws(s.last()) {
        trim_end_seq(s.drop_last())
    } else {
        s
    }
}

/// `s` with leading and trailing whitespace removed, as `str::trim` does.
pub open spec fn trim_seq(s: Seq<char>) -> Seq<char> {
    trim_end_seq(trim_start_seq(s))
}

/// Index of the first non-whitespace character at or after `i`, or `s.len()`.
fn skip_ws_forward(s: &[char], i: usize) -> (r: usize)
    requires
        i <= s@.len(),
    ensures
        i <= r <= s@.len(),
        r < s@.len() ==> !is_ws(s@[r as int]),
        trim_start_seq(s@.subrange(i as int, s@.len() as int)) == trim_start_seq(
            s@.subrange(r as int, s@.len() as int),
        ),
        forall|j: int| i <= j < r ==> is_ws(#[trigger] s@[j]),
{
    let mut k = i;
    while k < s.len() && is_whitespace(s[k])
        invariant
            i <= k <= s@.len(),
            trim_start_seq(s@.subrange(i as int, s@.len() as int)) == trim_start_seq(
                s@.subrange(k as int, s@.len() as int),
            ),
            forall|j: int| i <= j < k ==> is_ws(#[trigger] s@[j]),
        decreases s@.len() - k,
    {
        proof {
            let sub = s@.subrange(k as int, s@.len() as int);
            assert(sub.drop_first() =~= s@.subrange(k + 1, s@.len() as int));
        }
        k = k + 1;
    }
    k
}

/// `trim_start_seq` of a suffix is the suffix that starts at the first
/// non-whitespace character.
proof fn lemma_trim_start_at(s: Seq<char>)
    requires
        s.len() == 0 || !is_ws(s[0]),
    ensures
        trim_start_seq(s) == s,
{
}

/// Exclusive end index once trailing whitespace of `s[lo..hi]` is dropped.
fn skip_ws_backward(s: &[char], lo: usize, hi: usize) -> (r: usize)
    requires
        lo <= hi <= s@.len(),
    ensures
        lo <= r <= hi,
        trim_end_seq(s@.subrange(lo as int, hi as int)) == s@.subrange(lo as int, r as int),
{
    let mut k = hi;
    while k > lo && is_whitespace(s[k - 1])
        invariant
            lo <= k <= hi,
            hi <= s@.len(),
            trim_end_seq(s@.subrange(lo as int, hi as int)) == trim_end_seq(
                s@.subrange(lo as int, k as int),
            ),
        decreases k,
    {
        proof {
            let sub = s@.subrange(lo as int, k as int);
            assert(sub.drop_last() =~= s@.subrange(lo as int, k - 1));
        }
        k = k - 1;
    }
    k
}

/// Copy `s[lo..hi]`.
pub fn slice_chars(s: &[char], lo: usize, hi: usize) -> (r: Vec<char>)
    requires
        lo <= hi <= s@.len(),
    ensures
        r@ == s@.subrange(lo as int, hi as int),
{
    let mut r: Vec<char> = Vec::new();
    let mut i = lo;
    while i < hi
        invariant
            lo <= i <= hi,
            hi <= s@.len(),
            r@ == s@.subrange(lo as int, i as int),
        decreases hi - i,
    {
        r.push(s[i]);
        i = i + 1;
        proof {
            assert(r@ =~= s@.subrange(lo as int, i as int));
        }
    }
    r
}

/// `str::trim` on a character sequence.
pub fn trim(s: &[char]) -> (r: Vec<char>)
    ensures
        r@ == trim_seq(s@),
{
    let lo = skip_ws_forward(s, 0);
    proof {
        assert(s@.subrange(0, s@.len() as int) =~= s@);
        lemma_trim_start_at(s@.subrange(lo as int, s@.len() as int));
    }
    let hi = skip_ws_backward(s, lo, s.len());
    slice_chars(s, lo, hi)
}

/// `str::trim_start` on a character sequence.
pub fn trim_start(s: &[char]) -> (r: Vec<char>)
    ensures
        r@ == trim_start_seq(s@),
{
    let lo = skip_ws_forward(s, 0);
    proof {
        assert(s@.subrange(0, s@.len() as int) =~= s@);
        lemma_trim_start_at(s@.subrange(lo as int, s@.len() as int));
    }
    slice_chars(s, lo, s.len())
}

/// Is every character of `s` whitespace (so that `trim` leaves nothing)?
pub open spec fn all_ws(s: Seq<char>) -> bool {
    forall|i: int| 0 <= i < s.len() ==> is_ws(#[trigger] s[i])
}

/// `trim_start` empties exactly the all-whitespace sequences.
pub proof fn lemma_trim_start_empty(s: Seq<char>)
    ensures
        (trim_start_seq(s).len() == 0) == all_ws(s),
        trim_start_seq(s).len() > 0 ==> !is_ws(trim_start_seq(s)[0]),
        trim_start_seq(s).len() <= s.len(),
        trim_start_seq(s) == s.subrange(s.len() - trim_start_seq(s).len(), s.len() as int),
    decreases s.len(),
{
    if s.len() > 0 && is_ws(s[0]) {
        lemma_trim_start_empty(s.drop_first());
        if all_ws(s.drop_first()) {
            assert forall|i: int| 0 <= i < s.len() implies is_ws(#[trigger] s[i]) by {
                if i > 0 {
                    assert(s[i] == s.drop_first()[i - 1]);
                }
            }
        }
        if all_ws(s) {
            assert forall|i: int| 0 <= i < s.drop_first().len() implies is_ws(
                #[trigger] s.drop_first()[i],
            ) by {
                assert(s.drop_first()[i] == s[i + 1]);
            }
        }
        let t = trim_start_seq(s.drop_first());
        assert(s.drop_first().subrange(
            s.drop_first().len() - t.len(),
            s.drop_first().len() as int,
        ) =~= s.subrange(s.len() - t.len(), s.len() as int));
    } else {
        assert(s.subrange(0, s.len() as int) =~= s);
        if s.len() > 0 {
            assert(!is_ws(s[0]));
        }
    }
}

/// `trim_end` empties exactly the all-whitespace sequences.
pub proof fn lemma_trim_end_empty(s: Seq<char>)
    ensures
        (trim_end_seq(s).len() == 0) == all_ws(s),
        trim_end_seq(s).len() <= s.len(),
        trim_end_seq(s) == s.subrange(0, trim_end_seq(s).len() as int),
    decreases s.len(),
{
    if s.len() > 0 && is_ws(s.last()) {
        lemma_trim_end_empty(s.drop_last());
        if all_ws(s.drop_last()) {
            assert forall|i: int| 0 <= i < s.len() implies is_ws(#[trigger] s[i]) by {
                if i < s.len() - 1 {
                    assert(s[i] == s.drop_last()[i]);
                }
            }
        }
        if all_ws(s) {
            assert forall|i: int| 0 <= i < s.drop_last().len() implies is_ws(
                #[trigger] s.drop_last()[i],
            ) by {
                assert(s.drop_last()[i] == s[i]);
            }
        }
        let t = trim_end_seq(s.drop_last());
        assert(s.drop_last().subrange(0, t.len() as int) =~= s.subrange(0, t.len() as int));
    } else {
        assert(s.subrange(0, s.len() as int) =~= s);
        if s.len() > 0 {
            assert(!is_ws(s.last()));
        }
    }
}

/// `trim` empties exactly the all-whitespace sequences.
pub proof fn lemma_trim_empty(s: Seq<char>)
    ensures
        (trim_seq(s).len() == 0) == all_ws(s),
{
    lemma_trim_start_empty(s);
    let t = trim_start_seq(s);
    lemma_trim_end_empty(t);
    if all_ws(t) && t.len() > 0 {
        assert(is_ws(t[0]));
    }
}

/// Is `s` empty or all whitespace (`str::trim().is_empty()`)?
pub fn is_blank(s: &[char]) -> (r: bool)
    ensures
        r == (trim_seq(s@).len() == 0),
        r == all_ws(s@),
{
    proof {
        lemma_trim_empty(s@);
    }
    let mut i: usize = 0;
    while i < s.len()
        invariant
            i <= s@.len(),
            forall|j: int| 0 <= j < i ==> is_ws(#[trigger] s@[j]),
        decreases s@.len() - i,
    {
        if !is_whitespace(s[i]) {
            proof {
                assert(!is_ws(s@[i as int]));
                lemma_trim_empty(s@);
            }
            return false;
        }
        i = i + 1;
    }
    proof {
        lemma_trim_empty(s@);
    }
    true
}

// ---------------------------------------------------------------------------
// ASCII case
// ---------------------------------------------------------------------------

/// `char::to_ascii_lowercase`.
pub open spec fn lower_char(c: char) -> char {
    if 'A' <= c && c <= 'Z' {
        ((c as u32) + 32) as char
    } else {
        c
    }
}

/// `str::to_ascii_lowercase`.
pub open spec fn lower_seq(s: Seq<char>) -> Seq<char> {
    s.map_values(|c: char| lower_char(c))
}

/// Executable form of [`lower_char`].
pub fn to_ascii_lower(c: char) -> (r: char)
    ensures
        r == lower_char(c),
{
    if 'A' <= c && c <= 'Z' {
        let b = c as u8;
        (b + 32) as char
    } else {
        c
    }
}

/// `str::to_ascii_lowercase` on a character sequence.
pub fn ascii_lowercase(s: &[char]) -> (r: Vec<char>)
    ensures
        r@ == lower_seq(s@),
{
    let mut r: Vec<char> = Vec::new();
    let mut i: usize = 0;
    while i < s.len()
        invariant
            i <= s@.len(),
            r@ == lower_seq(s@.subrange(0, i as int)),
        decreases s@.len() - i,
    {
        r.push(to_ascii_lower(s[i]));
        i = i + 1;
        proof {
            assert(r@ =~= lower_seq(s@.subrange(0, i as int)));
        }
    }
    proof {
        assert(s@.subrange(0, s@.len() as int) =~= s@);
    }
    r
}

/// `str::eq_ignore_ascii_case`.
pub open spec fn eq_ignore_case_seq(a: Seq<char>, b: Seq<char>) -> bool {
    a.len() == b.len() && forall|i: int| 0 <= i < a.len() ==> lower_char(#[trigger] a[i])
        == lower_char(b[i])
}

/// Executable form of [`eq_ignore_case_seq`].
pub fn eq_ignore_ascii_case(a: &[char], b: &[char]) -> (r: bool)
    ensures
        r == eq_ignore_case_seq(a@, b@),
{
    if a.len() != b.len() {
        return false;
    }
    let mut i: usize = 0;
    while i < a.len()
        invariant
            i <= a@.len(),
            a@.len() == b@.len(),
            forall|j: int| 0 <= j < i ==> lower_char(#[trigger] a@[j]) == lower_char(b@[j]),
        decreases a@.len() - i,
    {
        if to_ascii_lower(a[i]) != to_ascii_lower(b[i]) {
            return false;
        }
        i = i + 1;
    }
    true
}

// ---------------------------------------------------------------------------
// Prefixes, suffixes, searching
// ---------------------------------------------------------------------------

/// `str::starts_with`.
pub open spec fn starts_with_seq(s: Seq<char>, p: Seq<char>) -> bool {
    p.len() <= s.len() && s.subrange(0, p.len() as int) == p
}

/// `str::ends_with`.
pub open spec fn ends_with_seq(s: Seq<char>, p: Seq<char>) -> bool {
    p.len() <= s.len() && s.subrange(s.len() - p.len(), s.len() as int) == p
}

/// Does `p` occur in `s` at position `i`?
pub open spec fn occurs_at(s: Seq<char>, p: Seq<char>, i: int) -> bool {
    0 <= i && i + p.len() <= s.len() && s.subrange(i, i + p.len()) == p
}

/// `str::contains`.
pub open spec fn contains_seq(s: Seq<char>, p: Seq<char>) -> bool {
    exists|i: int| occurs_at(s, p, i)
}

/// Position of the first occurrence of `p` in `s`, as `str::find` reports it.
pub open spec fn is_first_occurrence(s: Seq<char>, p: Seq<char>, i: int) -> bool {
    occurs_at(s, p, i) && forall|j: int| 0 <= j < i ==> !occurs_at(s, p, j)
}

/// Does `p` occur in `s` at position `i`? (executable)
pub fn matches_at(s: &[char], p: &[char], i: usize) -> (r: bool)
    ensures
        r == occurs_at(s@, p@, i as int),
{
    if i > s.len() || p.len() > s.len() - i {
        return false;
    }
    let mut k: usize = 0;
    while k < p.len()
        invariant
            k <= p@.len(),
            i + p@.len() <= s@.len(),
            p@.len() == p.len(),
            s@.len() == s.len(),
            forall|j: int| 0 <= j < k ==> s@[i + j] == p@[j],
        decreases p@.len() - k,
    {
        if s[i + k] != p[k] {
            proof {
                assert(s@.subrange(i as int, i + p@.len())[k as int] != p@[k as int]);
            }
            return false;
        }
        k = k + 1;
    }
    proof {
        assert(s@.subrange(i as int, i + p@.len()) =~= p@);
    }
    true
}

/// `str::starts_with` (executable).
pub fn starts_with(s: &[char], p: &[char]) -> (r: bool)
    ensures
        r == starts_with_seq(s@, p@),
{
    matches_at(s, p, 0)
}

/// `str::ends_with` (executable).
pub fn ends_with(s: &[char], p: &[char]) -> (r: bool)
    ensures
        r == ends_with_seq(s@, p@),
{
    if p.len() > s.len() {
        false
    } else {
        matches_at(s, p, s.len() - p.len())
    }
}

/// `str::starts_with` against a literal.
pub fn starts_with_str(s: &[char], p: &str) -> (r: bool)
    ensures
        r == starts_with_seq(s@, p@),
{
    let pc = chars_of(p);
    starts_with(s, pc.as_slice())
}

/// `str::ends_with` against a literal.
pub fn ends_with_str(s: &[char], p: &str) -> (r: bool)
    ensures
        r == ends_with_seq(s@, p@),
{
    let pc = chars_of(p);
    ends_with(s, pc.as_slice())
}

/// `str::find`: the first position where `p` occurs.
pub fn find(s: &[char], p: &[char]) -> (r: Option<usize>)
    ensures
        r matches Some(i) ==> is_first_occurrence(s@, p@, i as int),
        r is None ==> !contains_seq(s@, p@),
{
    let mut i: usize = 0;
    while i < s.len()
        invariant
            i <= s@.len(),
            forall|j: int| 0 <= j < i ==> !occurs_at(s@, p@, j),
        decreases s@.len() - i,
    {
        if matches_at(s, p, i) {
            return Some(i);
        }
        i = i + 1;
    }
    if matches_at(s, p, i) {
        return Some(i);
    }
    proof {
        assert forall|j: int| !occurs_at(s@, p@, j) by {
            if 0 <= j && j <= i {
            } else if j > i {
                assert(!(j + p@.len() <= s@.len()));
            }
        }
    }
    None
}

/// `str::contains` (executable).
pub fn contains(s: &[char], p: &[char]) -> (r: bool)
    ensures
        r == contains_seq(s@, p@),
{
    match find(s, p) {
        Some(_) => true,
        None => false,
    }
}

/// `str::contains` against a literal.
pub fn contains_str(s: &[char], p: &str) -> (r: bool)
    ensures
        r == contains_seq(s@, p@),
{
    let pc = chars_of(p);
    contains(s, pc.as_slice())
}

/// Does `c` occur in `s`?
pub fn contains_char(s: &[char], c: char) -> (r: bool)
    ensures
        r == s@.contains(c),
{
    let mut i: usize = 0;
    while i < s.len()
        invariant
            i <= s@.len(),
            forall|j: int| 0 <= j < i ==> s@[j] != c,
        decreases s@.len() - i,
    {
        if s[i] == c {
            proof {
                assert(s@[i as int] == c);
            }
            return true;
        }
        i = i + 1;
    }
    false
}

/// Position of the first `c` in `s`.
pub open spec fn first_index_of(s: Seq<char>, c: char, i: int) -> bool {
    0 <= i < s.len() && s[i] == c && forall|j: int| 0 <= j < i ==> s[j] != c
}

/// `str::find(char)`.
pub fn find_char(s: &[char], c: char) -> (r: Option<usize>)
    ensures
        r matches Some(i) ==> first_index_of(s@, c, i as int),
        r is None ==> !s@.contains(c),
{
    let mut i: usize = 0;
    while i < s.len()
        invariant
            i <= s@.len(),
            forall|j: int| 0 <= j < i ==> s@[j] != c,
        decreases s@.len() - i,
    {
        if s[i] == c {
            return Some(i);
        }
        i = i + 1;
    }
    None
}

// ---------------------------------------------------------------------------
// Lines
// ---------------------------------------------------------------------------

/// A line as `str::lines` yields it: the trailing `\r` of a `\r\n` ending is
/// dropped, a lone trailing `\r` (no `\n` after it) is kept.
pub open spec fn strip_cr(line: Seq<char>) -> Seq<char> {
    if line.len() > 0 && line.last() == '\r' {
        line.drop_last()
    } else {
        line
    }
}

/// `str::lines`: split at `\n` (and `\r\n`); no empty final line after a
/// trailing newline.
pub open spec fn lines_seq(s: Seq<char>) -> Seq<Seq<char>>
    decreases s.len(),
{
    if s.len() == 0 {
        Seq::empty()
    } else if exists|i: int| first_index_of(s, '\n', i) {
        let i = choose|i: int| first_index_of(s, '\n', i);
        seq![strip_cr(s.subrange(0, i))] + lines_seq(s.subrange(i + 1, s.len() as int))
    } else {
        seq![s]
    }
}

/// First-`'\n'` positions are unique.
pub proof fn lemma_first_index_unique(s: Seq<char>, c: char, i: int, k: int)
    requires
        first_index_of(s, c, i),
        first_index_of(s, c, k),
    ensures
        i == k,
{
    if i < k {
        assert(s[i] == c);
    } else if k < i {
        assert(s[k] == c);
    }
}

/// `str::lines` on a character sequence.
pub fn split_lines(s: &[char]) -> (r: Vec<Vec<char>>)
    ensures
        r@.len() == lines_seq(s@).len(),
        forall|i: int| 0 <= i < r@.len() ==> (#[trigger] r@[i])@ == lines_seq(s@)[i],
{
    let mut r: Vec<Vec<char>> = Vec::new();
    let mut start: usize = 0;
    let ghost done: Seq<Seq<char>> = Seq::empty();
    proof {
        assert(s@.subrange(0, s@.len() as int) =~= s@);
        assert(done + lines_seq(s@) =~= lines_seq(s@));
    }
    while start < s.len()
        invariant
            start <= s@.len(),
            r@.len() == done.len(),
            forall|i: int| 0 <= i < r@.len() ==> (#[trigger] r@[i])@ == done[i],
            lines_seq(s@) == done + lines_seq(s@.subrange(start as int, s@.len() as int)),
        decreases s@.len() - start,
    {
        let ghost rest = s@.subrange(start as int, s@.len() as int);
        // find the next newline from `start`
        let mut k = start;
        while k < s.len() && s[k] != '\n'
            invariant
                start <= k <= s@.len(),
                forall|j: int| start <= j < k ==> s@[j] != '\n',
            decreases s@.len() - k,
        {
            k = k + 1;
        }
        let mut end = k;
        if k < s.len() && end > start && s[end - 1] == '\r' {
            end = end - 1;
        }
        let line = slice_chars(s, start, end);
        proof {
            if k < s@.len() {
                let i = k - start;
                assert(first_index_of(rest, '\n', i as int));
                assert forall|i2: int| first_index_of(rest, '\n', i2) implies i2 == i by {
                    lemma_first_index_unique(rest, '\n', i as int, i2);
                }
                let ch = choose|i2: int| first_index_of(rest, '\n', i2);
                assert(ch == i);
                assert(rest.subrange(0, i as int) =~= s@.subrange(start as int, k as int));
                assert(strip_cr(rest.subrange(0, i as int)) =~= line@);
                assert(rest.subrange(i + 1, rest.len() as int) =~= s@.subrange(
                    k + 1,
                    s@.len() as int,
                ));
                assert(lines_seq(rest) == seq![line@] + lines_seq(
                    s@.subrange(k + 1, s@.len() as int),
                ));
            } else {
                assert(!(exists|i2: int| first_index_of(rest, '\n', i2))) by {
                    if exists|i2: int| first_index_of(rest, '\n', i2) {
                        let i2 = choose|i2: int| first_index_of(rest, '\n', i2);
                        assert(rest[i2] == s@[start + i2]);
                    }
                }
                assert(line@ =~= rest);
                assert(lines_seq(rest) == seq![line@]);
                assert(s@.subrange(s@.len() as int, s@.len() as int) =~= Seq::<char>::empty());
            }
        }
        r.push(line);
        proof {
            done = done.push(line@);
            assert(done + lines_seq(s@.subrange(
                (if k < s@.len() { k + 1 } else { k as int }),
                s@.len() as int,
            )) =~= lines_seq(s@)) by {
                let old_done = done.drop_last();
                assert(old_done + lines_seq(rest) == lines_seq(s@));
            }
        }
        if k < s.len() {
            start = k + 1;
        } else {
            start = k;
        }
    }
    proof {
        assert(s@.subrange(start as int, s@.len() as int).len() == 0);
        assert(done + Seq::<Seq<char>>::empty() =~= done);
    }
    r
}

// ---------------------------------------------------------------------------
// Numbers
// ---------------------------------------------------------------------------

/// Value of `c` as a digit in base 10 or 16, if it is one.
pub open spec fn digit_value(c: char, radix: nat) -> Option<nat> {
    let u = c as u32;
    if 0x30 <= u <= 0x39 && (u - 0x30) < radix {
        Some((u - 0x30) as nat)
    } else if radix == 16 && 0x61 <= u <= 0x66 {
        Some((u - 0x61 + 10) as nat)
    } else if radix == 16 && 0x41 <= u <= 0x46 {
        Some((u - 0x41 + 10) as nat)
    } else {
        None
    }
}

/// Is every character of `ds` a digit in `radix`?
pub open spec fn all_digits(ds: Seq<char>, radix: nat) -> bool {
    forall|i: int| 0 <= i < ds.len() ==> (#[trigger] digit_value(ds[i], radix)) is Some
}

/// The number the digit string `ds` spells in `radix` (most significant first).
pub open spec fn digits_value(ds: Seq<char>, radix: nat) -> nat
    decreases ds.len(),
{
    if ds.len() == 0 {
        0
    } else {
        digits_value(ds.drop_last(), radix) * radix + digit_value(ds.last(), radix).unwrap_or(0)
    }
}

/// What `u64::from_str_radix(s, radix)` (and `str::parse::<u64>` for base 10)
/// returns: an optional single leading `+`, then at least one digit, and a
/// value that fits.
pub open spec fn parse_unsigned(s: Seq<char>, radix: nat, max: nat) -> Option<nat> {
    let ds = if s.len() > 1 && s[0] == '+' {
        s.drop_first()
    } else {
        s
    };
    if ds.len() > 0 && all_digits(ds, radix) && digits_value(ds, radix) <= max {
        Some(digits_value(ds, radix))
    } else {
        None
    }
}

proof fn lemma_digits_value_push(ds: Seq<char>, c: char, radix: nat)
    ensures
        digits_value(ds.push(c), radix) == digits_value(ds, radix) * radix + digit_value(
            c,
            radix,
        ).unwrap_or(0),
{
    assert(ds.push(c).drop_last() =~= ds);
}

proof fn lemma_digits_value_mono(ds: Seq<char>, c: char, radix: nat)
    requires
        radix >= 1,
    ensures
        digits_value(ds.push(c), radix) >= digits_value(ds, radix),
{
    lemma_digits_value_push(ds, c, radix);
    assert(digits_value(ds, radix) * radix >= digits_value(ds, radix)) by (nonlinear_arith)
        requires
            radix >= 1,
    ;
}

proof fn lemma_digits_value_prefix_mono(ds: Seq<char>, k: int, radix: nat)
    requires
        radix >= 1,
        0 <= k <= ds.len(),
    ensures
        digits_value(ds.subrange(0, k), radix) <= digits_value(ds, radix),
    decreases ds.len() - k,
{
    if k < ds.len() {
        lemma_digits_value_prefix_mono(ds, k + 1, radix);
        assert(ds.subrange(0, k + 1) =~= ds.subrange(0, k).push(ds[k]));
        lemma_digits_value_mono(ds.subrange(0, k), ds[k], radix);
    } else {
        assert(ds.subrange(0, k) =~= ds);
    }
}

/// Executable digit value.
fn digit_of(c: char, radix: u32) -> (r: Option<u32>)
    requires
        radix == 10 || radix == 16,
    ensures
        r matches Some(v) ==> digit_value(c, radix as nat) == Some(v as nat) && v < radix,
        r is None ==> digit_value(c, radix as nat) is None,
{
    let u = c as u32;
    if 0x30 <= u && u <= 0x39 && (u - 0x30) < radix {
        Some(u - 0x30)
    } else if radix == 16 && 0x61 <= u && u <= 0x66 {
        Some(u - 0x61 + 10)
    } else if radix == 16 && 0x41 <= u && u <= 0x46 {
        Some(u - 0x41 + 10)
    } else {
        None
    }
}

/// `u64::from_str_radix` for bases 10 and 16, bounded by `max`.
pub fn parse_radix(s: &[char], radix: u32, max: u64) -> (r: Option<u64>)
    requires
        radix == 10 || radix == 16,
    ensures
        r matches Some(v) ==> parse_unsigned(s@, radix as nat, max as nat) == Some(v as nat),
        r is None ==> parse_unsigned(s@, radix as nat, max as nat) is None,
{
    let start: usize = if s.len() > 1 && s[0] == '+' {
        1
    } else {
        0
    };
    let ghost ds = if s@.len() > 1 && s@[0] == '+' {
        s@.drop_first()
    } else {
        s@
    };
    proof {
        assert(ds =~= s@.subrange(start as int, s@.len() as int));
    }
    if start >= s.len() {
        return None;
    }
    let mut acc: u64 = 0;
    let mut i = start;
    while i < s.len()
        invariant
            start <= i <= s@.len(),
            ds == s@.subrange(start as int, s@.len() as int),
            ds == (if s@.len() > 1 && s@[0] == '+' {
                s@.drop_first()
            } else {
                s@
            }),
            radix == 10 || radix == 16,
            all_digits(s@.subrange(start as int, i as int), radix as nat),
            acc as nat == digits_value(s@.subrange(start as int, i as int), radix as nat),
            acc <= max,
        decreases s@.len() - i,
    {
        let ghost pre = s@.subrange(start as int, i as int);
        proof {
            assert(s@.subrange(start as int, i + 1) =~= pre.push(s@[i as int]));
        }
        match digit_of(s[i], radix) {
            None => {
                proof {
                    let j = i - start;
                    assert(ds[j as int] == s@[i as int]);
                    assert(digit_value(ds[j as int], radix as nat) is None);
                    assert(!all_digits(ds, radix as nat));
                }
                return None;
            },
            Some(d) => {
                proof {
                    lemma_digits_value_push(pre, s@[i as int], radix as nat);
                }
                let too_big = d as u64 > max || acc > (max - d as u64) / (radix as u64);
                if too_big {
                    proof {
                        let nv = digits_value(pre.push(s@[i as int]), radix as nat);
                        assert(nv == acc * radix + d);
                        assert(acc * radix + d > max) by (nonlinear_arith)
                            requires
                                d > max || acc > (max - d) / (radix as int),
                                radix > 0,
                                acc >= 0,
                        ;
                        lemma_digits_value_prefix_mono(ds, (i + 1 - start) as int, radix as nat);
                        assert(ds.subrange(0, (i + 1 - start) as int) =~= pre.push(
                            s@[i as int],
                        ));
                    }
                    return None;
                }
                proof {
                    assert(acc * radix + d <= max) by (nonlinear_arith)
                        requires
                            acc <= (max - d) / (radix as int),
                            radix > 0,
                            d <= max,
                    ;
                }
                acc = acc * (radix as u64) + d as u64;
                i = i + 1;
                proof {
                    let npre = s@.subrange(start as int, i as int);
                    assert forall|t: int| 0 <= t < npre.len() implies (#[trigger] digit_value(
                        npre[t],
                        radix as nat,
                    )) is Some by {
                        if t < pre.len() {
                            assert(npre[t] == pre[t]);
                        }
                    }
                }
            },
        }
    }
    proof {
        assert(s@.subrange(start as int, i as int) =~= ds);
    }
    Some(acc)
}

/// Decimal digits of `n`, most significant first, as `u64`'s `Display` writes them.
pub open spec fn decimal(n: nat) -> Seq<char>
    decreases n,
{
    if n < 10 {
        seq![(n + 0x30) as char]
    } else {
        decimal(n / 10).push(((n % 10) + 0x30) as char)
    }
}

/// Render `n` in decimal.
pub fn u64_to_decimal(n: u64) -> (r: Vec<char>)
    ensures
        r@ == decimal(n as nat),
    decreases n,
{
    if n < 10 {
        let d = (n as u8 + 0x30) as char;
        let mut r: Vec<char> = Vec::new();
        r.push(d);
        proof {
            assert(r@ =~= decimal(n as nat));
        }
        r
    } else {
        let mut r = u64_to_decimal(n / 10);
        let d = ((n % 10) as u8 + 0x30) as char;
        r.push(d);
        r
    }
}


// ---------------------------------------------------------------------------
// Small string operations
// ---------------------------------------------------------------------------

/// Are the two strings equal?
pub fn str_eq(a: &str, b: &str) -> (r: bool)
    ensures
        r == (a@ == b@),
{
    let ca = chars_of(a);
    chars_eq_str(ca.as_slice(), b)
}

/// `s` with every trailing `c` removed, as `str::trim_end_matches(c)` leaves it.
pub open spec fn trim_end_char(s: Seq<char>, c: char) -> Seq<char>
    decreases s.len(),
{
    if s.len() > 0 && s.last() == c {
        trim_end_char(s.drop_last(), c)
    } else {
        s
    }
}

/// `str::trim_end_matches` with a single character.
pub fn trim_end_matches_char(s: &str, c: char) -> (r: Vec<char>)
    ensures
        r@ == trim_end_char(s@, c),
{
    let mut v = chars_of(s);
    while v.len() > 0 && v[v.len() - 1] == c
        invariant
            trim_end_char(v@, c) == trim_end_char(s@, c),
        decreases v@.len(),
    {
        proof {
            assert(v@.last() == v@[v@.len() - 1]);
        }
        v.pop();
    }
    proof {
        if v@.len() > 0 {
            assert(v@.last() == v@[v@.len() - 1]);
        }
    }
    v
}

/// The first `n` characters of `s` (all of it when shorter).
pub open spec fn take_chars(s: Seq<char>, n: nat) -> Seq<char> {
    if s.len() <= n {
        s
    } else {
        s.subrange(0, n as int)
    }
}

/// What `{:?}` prints for a string: the quoted, escaped form that `str`'s
/// `Debug` writes.
pub uninterp spec fn debug_str(s: Seq<char>) -> Seq<char>;

/// `<str as Debug>::fmt`, through `format!("{:?}")`.
#[verifier::external_body]
pub fn debug_quoted(s: &str) -> (r: String)
    ensures
        r@ == debug_str(s@),
{
    format!("{:?}", s)
}

/// An optional string taken by value.
pub open spec fn opt_chars(o: Option<String>) -> Option<Seq<char>> {
    match o {
        Some(s) => Some(s@),
        None => None,
    }
}

/// `n` spaces.
pub open spec fn spaces(n: nat) -> Seq<char> {
    Seq::new(n, |i: int| ' ')
}

/// `s` right-aligned in a field of `width` characters, as `{:>width}` writes it.
pub open spec fn pad_left_spec(s: Seq<char>, width: nat) -> Seq<char> {
    if s.len() >= width {
        s
    } else {
        spaces((width - s.len()) as nat) + s
    }
}

/// `s` left-aligned in a field of `width` characters, as `{:<width}` writes it.
pub open spec fn pad_right_spec(s: Seq<char>, width: nat) -> Seq<char> {
    if s.len() >= width {
        s
    } else {
        s + spaces((width - s.len()) as nat)
    }
}

fn spaces_exec(n: usize) -> (r: Vec<char>)
    ensures
        r@ == spaces(n as nat),
{
    let mut r: Vec<char> = Vec::new();
    while r.len() < n
        invariant
            r.len() <= n,
            forall|i: int| 0 <= i < r.len() ==> r@[i] == ' ',
        decreases n - r.len(),
    {
        r.push(' ');
    }
    proof {
        assert(r@ =~= spaces(n as nat));
    }
    r
}

/// Right-align `s` in a field of `width` characters.
pub fn pad_left(s: &[char], width: usize) -> (r: Vec<char>)
    ensures
        r@ == pad_left_spec(s@, width as nat),
{
    if s.len() >= width {
        let mut r: Vec<char> = Vec::new();
        extend_chars(&mut r, s);
        r
    } else {
        let mut r = spaces_exec(width - s.len());
        extend_chars(&mut r, s);
        r
    }
}

/// Left-align `s` in a field of `width` characters.
pub fn pad_right(s: &[char], width: usize) -> (r: Vec<char>)
    ensures
        r@ == pad_right_spec(s@, width as nat),
{
    let mut r: Vec<char> = Vec::new();
    extend_chars(&mut r, s);
    if s.len() < width {
        let sp = spaces_exec(width - s.len());
        extend_chars(&mut r, sp.as_slice());
    }
    r
}

// ---------------------------------------------------------------------------
// Ordering
// ---------------------------------------------------------------------------

/// Lexicographic order by code point, which for `String`s is the order their
/// `Ord` uses (UTF-8 preserves code point order).
pub open spec fn seq_lt(a: Seq<char>, b: Seq<char>) -> bool
    decreases a.len(),
{
    if a.len() == 0 {
        b.len() > 0
    } else if b.len() == 0 {
        false
    } else if a[0] < b[0] {
        true
    } else if a[0] == b[0] {
        seq_lt(a.drop_first(), b.drop_first())
    } else {
        false
    }
}

/// The order is irreflexive.
pub proof fn lemma_seq_lt_irreflexive(a: Seq<char>)
    ensures
        !seq_lt(a, a),
    decreases a.len(),
{
    if a.len() > 0 {
        lemma_seq_lt_irreflexive(a.drop_first());
    }
}

/// The order is transitive.
pub proof fn lemma_seq_lt_transitive(a: Seq<char>, b: Seq<char>, c: Seq<char>)
    requires
        seq_lt(a, b),
        seq_lt(b, c),
    ensures
        seq_lt(a, c),
    decreases a.len(),
{
    if a.len() > 0 && b.len() > 0 && c.len() > 0 {
        if a[0] == b[0] && b[0] == c[0] {
            lemma_seq_lt_transitive(a.drop_first(), b.drop_first(), c.drop_first());
        }
    }
}

/// Any two different sequences are ordered one way or the other.
pub proof fn lemma_seq_lt_total(a: Seq<char>, b: Seq<char>)
    requires
        a != b,
    ensures
        seq_lt(a, b) || seq_lt(b, a),
    decreases a.len(),
{
    if a.len() > 0 && b.len() > 0 && a[0] == b[0] {
        if a.drop_first() == b.drop_first() {
            assert(a =~= seq![a[0]] + a.drop_first());
            assert(b =~= seq![b[0]] + b.drop_first());
        }
        lemma_seq_lt_total(a.drop_first(), b.drop_first());
    } else if a.len() == 0 && b.len() == 0 {
        assert(a =~= b);
    }
}

/// Is `a` before `b` in code point order?
pub fn chars_lt(a: &[char], b: &[char]) -> (r: bool)
    ensures
        r == seq_lt(a@, b@),
{
    let mut i: usize = 0;
    proof {
        assert(a@.subrange(0, a@.len() as int) =~= a@);
        assert(b@.subrange(0, b@.len() as int) =~= b@);
    }
    while i < a.len() && i < b.len() && a[i] == b[i]
        invariant
            i <= a@.len(),
            i <= b@.len(),
            seq_lt(a@, b@) == seq_lt(
                a@.subrange(i as int, a@.len() as int),
                b@.subrange(i as int, b@.len() as int),
            ),
        decreases a@.len() - i,
    {
        proof {
            let sa = a@.subrange(i as int, a@.len() as int);
            let sb = b@.subrange(i as int, b@.len() as int);
            assert(sa.drop_first() =~= a@.subrange(i + 1, a@.len() as int));
            assert(sb.drop_first() =~= b@.subrange(i + 1, b@.len() as int));
        }
        i = i + 1;
    }
    proof {
        assert(a@.subrange(0, a@.len() as int) =~= a@);
        assert(b@.subrange(0, b@.len() as int) =~= b@);
    }
    if i == a.len() {
        i < b.len()
    } else if i == b.len() {
        false
    } else {
        a[i] < b[i]
    }
}

/// Is the string `a` before the string `b` in code point order?
pub fn str_lt(a: &str, b: &str) -> (r: bool)
    ensures
        r == seq_lt(a@, b@),
{
    let ca = chars_of(a);
    let cb = chars_of(b);
    chars_lt(ca.as_slice(), cb.as_slice())
}

// ---------------------------------------------------------------------------
// Splitting
// ---------------------------------------------------------------------------

/// `str::split(c)`: the pieces between occurrences of `c` (one piece when
/// there is none, so never empty).
pub open spec fn split_seq(s: Seq<char>, c: char) -> Seq<Seq<char>>
    decreases s.len(),
{
    if exists|i: int| first_index_of(s, c, i) {
        let i = choose|i: int| first_index_of(s, c, i);
        seq![s.subrange(0, i)] + split_seq(s.subrange(i + 1, s.len() as int), c)
    } else {
        seq![s]
    }
}

/// The views of a list of character vectors.
pub open spec fn pieces(v: Seq<Vec<char>>) -> Seq<Seq<char>> {
    v.map_values(|x: Vec<char>| x@)
}

/// `str::split(c)` on a character sequence.
pub fn split_on(s: &[char], c: char) -> (r: Vec<Vec<char>>)
    ensures
        pieces(r@) == split_seq(s@, c),
{
    let mut out: Vec<Vec<char>> = Vec::new();
    let mut start: usize = 0;
    let mut cur: Vec<char> = Vec::new();
    let mut i: usize = 0;
    proof {
        assert(pieces(out@) =~= Seq::<Seq<char>>::empty());
        assert(s@.subrange(0, s@.len() as int) =~= s@);
    }
    while i < s.len()
        invariant
            start <= i <= s@.len(),
            cur@ == s@.subrange(start as int, i as int),
            forall|k: int| start <= k < i ==> s@[k] != c,
            split_seq(s@, c) == pieces(out@) + split_seq(
                s@.subrange(start as int, s@.len() as int),
                c,
            ),
        decreases s@.len() - i,
    {
        if s[i] == c {
            let ghost rest = s@.subrange(start as int, s@.len() as int);
            let ghost k = (i - start) as int;
            proof {
                assert(first_index_of(rest, c, k)) by {
                    assert forall|j: int| 0 <= j < k implies rest[j] != c by {
                        assert(rest[j] == s@[start + j]);
                    }
                }
                assert forall|m: int| first_index_of(rest, c, m) implies m == k by {
                    lemma_first_index_unique(rest, c, k, m);
                }
                assert(rest.subrange(0, k) =~= cur@);
                assert(rest.subrange(k + 1, rest.len() as int) =~= s@.subrange(
                    i + 1,
                    s@.len() as int,
                ));
            }
            let ghost before = pieces(out@);
            let ghost piece = cur@;
            out.push(cur);
            cur = Vec::new();
            start = i + 1;
            proof {
                assert(pieces(out@) =~= before.push(piece));
                assert(split_seq(rest, c) == seq![piece] + split_seq(
                    s@.subrange(start as int, s@.len() as int),
                    c,
                ));
                assert(before + (seq![piece] + split_seq(s@.subrange(start as int, s@.len() as int), c))
                    =~= before.push(piece) + split_seq(s@.subrange(start as int, s@.len() as int), c));
                assert(cur@ =~= s@.subrange(start as int, (i + 1) as int));
            }
        } else {
            cur.push(s[i]);
            proof {
                assert(cur@ =~= s@.subrange(start as int, (i + 1) as int));
            }
        }
        i = i + 1;
    }
    proof {
        let rest = s@.subrange(start as int, s@.len() as int);
        assert forall|m: int| !first_index_of(rest, c, m) by {
            if first_index_of(rest, c, m) {
                assert(rest[m] == s@[start + m]);
            }
        }
        assert(rest =~= cur@);
    }
    let ghost before = pieces(out@);
    let ghost last = cur@;
    out.push(cur);
    proof {
        assert(pieces(out@) =~= before.push(last));
        assert(before.push(last) =~= before + seq![last]);
    }
    out
}

/// First occurrences are unique.
pub proof fn lemma_first_occurrence_unique(s: Seq<char>, p: Seq<char>, i: int, k: int)
    requires
        is_first_occurrence(s, p, i),
        is_first_occurrence(s, p, k),
    ensures
        i == k,
{
    if i < k {
        assert(occurs_at(s, p, i));
    } else if k < i {
        assert(occurs_at(s, p, k));
    }
}

/// An occurrence of `p` in `s` is still one, shifted by the prefix, once
/// text is put before and after `s`.
pub proof fn lemma_occurs_in_context(x: Seq<char>, s: Seq<char>, y: Seq<char>, p: Seq<char>, k: int)
    requires
        occurs_at(s, p, k),
    ensures
        occurs_at(x + s, p, x.len() + k),
        occurs_at(s + y, p, k),
        occurs_at(x + s + y, p, x.len() + k),
{
    assert((x + s).subrange(x.len() + k, x.len() + k + p.len()) =~= s.subrange(k, k + p.len()));
    assert((s + y).subrange(k, k + p.len()) =~= s.subrange(k, k + p.len()));
    assert((x + s + y).subrange(x.len() + k, x.len() + k + p.len()) =~= s.subrange(
        k,
        k + p.len(),
    ));
}

/// `str::split_once(p)`: the text before and after the first occurrence of `p`.
pub open spec fn split_once_spec(s: Seq<char>, p: Seq<char>) -> Option<(Seq<char>, Seq<char>)> {
    if exists|i: int| is_first_occurrence(s, p, i) {
        let i = choose|i: int| is_first_occurrence(s, p, i);
        Some((s.subrange(0, i), s.subrange(i + p.len(), s.len() as int)))
    } else {
        None
    }
}

/// `str::split_once(p)` on a character sequence.
pub fn split_once(s: &[char], p: &[char]) -> (r: Option<(Vec<char>, Vec<char>)>)
    ensures
        match split_once_spec(s@, p@) {
            Some((a, b)) => r matches Some((x, y)) && x@ == a && y@ == b,
            None => r is None,
        },
{
    let found = find(s, p);
    match found {
        Some(i) => {
            proof {
                assert(is_first_occurrence(s@, p@, i as int));
                assert forall|k: int| is_first_occurrence(s@, p@, k) implies k == i by {
                    lemma_first_occurrence_unique(s@, p@, i as int, k);
                }
            }
            proof {
                assert(occurs_at(s@, p@, i as int));
                assert(i + p@.len() <= s@.len());
            }
            let pl = p.len();
            let sl = s.len();
            assert(pl == p@.len() && sl == s@.len());
            let a = slice_chars(s, 0, i);
            let b = slice_chars(s, i + pl, sl);
            Some((a, b))
        },
        None => {
            proof {
                assert forall|k: int| !is_first_occurrence(s@, p@, k) by {
                    if is_first_occurrence(s@, p@, k) {
                        assert(occurs_at(s@, p@, k));
                    }
                }
            }
            None
        },
    }
}

} // verus!
