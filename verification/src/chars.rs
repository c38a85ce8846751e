//! Verified character-sequence utilities: extracting the characters of a
//! string, line splitting, ASCII trimming, prefix and substring search,
//! and joining. Each executable function is proved against a direct
//! specification over `Seq<char>`; the quality checkers build their
//! contracts from these specifications.

use vstd::prelude::*;
use vstd::string::{StrSliceExecFns, StringExecFns};

verus! {

/// The characters of `s`, as a vector.
pub fn chars_of(s: &str) -> (r: Vec<char>)
    ensures
        r@ == s@,
{
    let n = s.unicode_len();
    let mut r: Vec<char> = Vec::new();
    let mut i: usize = 0;
    while i < n
        invariant
            n == s@.len(),
            0 <= i <= n,
            r@ == s@.take(i as int),
        decreases n - i,
    {
        r.push(s.get_char(i));
        proof {
            assert(r@ =~= s@.take(i as int + 1));
        }
        i = i + 1;
    }
    proof {
        assert(s@.take(n as int) =~= s@);
    }
    r
}

/// The view of each string in a list, in order.
pub open spec fn texts_view(v: Seq<String>) -> Seq<Seq<char>>
    decreases v.len(),
{
    if v.len() == 0 {
        Seq::empty()
    } else {
        texts_view(v.drop_last()).push(v.last()@)
    }
}

/// `texts_view` keeps the length.
pub proof fn lemma_texts_view_len(v: Seq<String>)
    ensures
        texts_view(v).len() == v.len(),
    decreases v.len(),
{
    if v.len() > 0 {
        lemma_texts_view_len(v.drop_last());
    }
}

/// Appends one string, extending the list's view by the string's view.
pub fn push_text(v: &mut Vec<String>, s: &str)
    ensures
        texts_view(final(v)@) == texts_view(old(v)@).push(s@),
{
    v.push(String::from_str(s));
    proof {
        assert(v@.drop_last() =~= old(v)@);
    }
}

/// `texts_view` maps each element to its view.
pub proof fn lemma_texts_view_index(v: Seq<String>, k: int)
    requires
        0 <= k < v.len(),
    ensures
        texts_view(v).len() == v.len(),
        texts_view(v)[k] == v[k]@,
    decreases v.len(),
{
    lemma_texts_view_len(v);
    if k < v.len() - 1 {
        lemma_texts_view_index(v.drop_last(), k);
    }
}

/// An ASCII whitespace character: space, tab, carriage return or line
/// feed.
pub open spec fn is_ws(c: char) -> bool {
    c == ' ' || c == '\t' || c == '\r' || c == '\n'
}

/// Decides [`is_ws`].
pub fn is_ws_exec(c: char) -> (r: bool)
    ensures
        r == is_ws(c),
{
    c == ' ' || c == '\t' || c == '\r' || c == '\n'
}

/// The index of the first line feed at or after `i`, or the length when
/// none follows.
pub open spec fn find_newline(s: Seq<char>, i: int) -> int
    decreases s.len() - i,
{
    if i >= s.len() {
        s.len() as int
    } else if s[i] == '\n' {
        i
    } else {
        find_newline(s, i + 1)
    }
}

/// Facts about [`find_newline`]: it lands between `i` and the end, on a
/// line feed or the end.
pub proof fn lemma_find_newline(s: Seq<char>, i: int)
    requires
        0 <= i <= s.len(),
    ensures
        i <= find_newline(s, i) <= s.len(),
    decreases s.len() - i,
{
    if i < s.len() && s[i] != '\n' {
        lemma_find_newline(s, i + 1);
    }
}

/// Finds the first line feed at or after `i`.
pub fn find_nl(cs: &Vec<char>, i: usize) -> (r: usize)
    requires
        i <= cs@.len(),
    ensures
        r == find_newline(cs@, i as int),
        i <= r <= cs@.len(),
{
    let n = cs.len();
    let mut j: usize = i;
    while j < n
        invariant
            n == cs@.len(),
            i <= j <= n,
            find_newline(cs@, i as int) == find_newline(cs@, j as int),
        decreases n - j,
    {
        if cs[j] == '\n' {
            return j;
        }
        j = j + 1;
    }
    j
}

/// Copies the characters of `cs` between `lo` and `hi`.
pub fn copy_range(cs: &Vec<char>, lo: usize, hi: usize) -> (r: Vec<char>)
    requires
        lo <= hi <= cs@.len(),
    ensures
        r@ == cs@.subrange(lo as int, hi as int),
{
    let mut r: Vec<char> = Vec::new();
    let mut k: usize = lo;
    while k < hi
        invariant
            lo <= k <= hi <= cs@.len(),
            r@ == cs@.subrange(lo as int, k as int),
        decreases hi - k,
    {
        r.push(cs[k]);
        proof {
            assert(r@ =~= cs@.subrange(lo as int, k as int + 1));
        }
        k = k + 1;
    }
    r
}

/// The first index at or after `i` holding a non-whitespace character, or
/// the length.
pub open spec fn trim_start_idx(s: Seq<char>, i: int) -> int
    decreases s.len() - i,
{
    if i >= s.len() {
        s.len() as int
    } else if is_ws(s[i]) {
        trim_start_idx(s, i + 1)
    } else {
        i
    }
}

/// The index just past the last non-whitespace character at or before
/// `i - 1`, or zero.
pub open spec fn trim_end_idx(s: Seq<char>, i: int) -> int
    decreases i,
{
    if i <= 0 {
        0
    } else if is_ws(s[i - 1]) {
        trim_end_idx(s, i - 1)
    } else {
        i
    }
}

/// `s` without leading and trailing ASCII whitespace.
pub open spec fn trim_spec(s: Seq<char>) -> Seq<char> {
    let lo = trim_start_idx(s, 0);
    let hi = trim_end_idx(s, s.len() as int);
    if lo >= hi {
        Seq::empty()
    } else {
        s.subrange(lo, hi)
    }
}

/// Bounds of [`find_newline`]-style trim indices.
proof fn lemma_trim_start_bounds(s: Seq<char>, i: int)
    requires
        0 <= i <= s.len(),
    ensures
        i <= trim_start_idx(s, i) <= s.len(),
    decreases s.len() - i,
{
    if i < s.len() && is_ws(s[i]) {
        lemma_trim_start_bounds(s, i + 1);
    }
}

proof fn lemma_trim_end_bounds(s: Seq<char>, i: int)
    requires
        0 <= i <= s.len(),
    ensures
        0 <= trim_end_idx(s, i) <= i,
    decreases i,
{
    if i > 0 && is_ws(s[i - 1]) {
        lemma_trim_end_bounds(s, i - 1);
    }
}

/// The trimmed range of `line`: `line@.subrange(r.0, r.1)` is exactly
/// `trim_spec(line@)`.
pub fn trim_bounds(line: &Vec<char>) -> (r: (usize, usize))
    ensures
        r.0 <= r.1 <= line@.len(),
        line@.subrange(r.0 as int, r.1 as int) == trim_spec(line@),
{
    let n = line.len();
    proof {
        lemma_trim_start_bounds(line@, 0);
        lemma_trim_end_bounds(line@, n as int);
    }
    let mut lo: usize = 0;
    while lo < n && is_ws_exec(line[lo])
        invariant
            n == line@.len(),
            0 <= lo <= n,
            trim_start_idx(line@, 0) == trim_start_idx(line@, lo as int),
        decreases n - lo,
    {
        lo = lo + 1;
    }
    let mut hi: usize = n;
    while hi > 0 && is_ws_exec(line[hi - 1])
        invariant
            n == line@.len(),
            0 <= hi <= n,
            trim_end_idx(line@, n as int) == trim_end_idx(line@, hi as int),
        decreases hi,
    {
        hi = hi - 1;
    }
    proof {
        assert(trim_start_idx(line@, lo as int) == lo);
        assert(trim_end_idx(line@, hi as int) == hi);
    }
    if lo >= hi {
        proof {
            assert(line@.subrange(lo as int, lo as int) =~= Seq::<char>::empty());
        }
        (lo, lo)
    } else {
        (lo, hi)
    }
}

/// `p` occurs in `s` starting at index `i`.
pub open spec fn at_spec(s: Seq<char>, p: Seq<char>, i: int) -> bool {
    0 <= i && i + p.len() <= s.len() && s.subrange(i, i + p.len()) == p
}

/// `s` begins with `p`.
pub open spec fn starts_with_spec(s: Seq<char>, p: Seq<char>) -> bool {
    at_spec(s, p, 0)
}

/// `p` occurs somewhere in `s`.
pub open spec fn contains_spec(s: Seq<char>, p: Seq<char>) -> bool {
    exists|i: int| at_spec(s, p, i)
}

/// Decides whether `p` occurs in `s` at `i`.
pub fn match_at(s: &Vec<char>, p: &Vec<char>, i: usize) -> (r: bool)
    requires
        i + p@.len() <= s@.len(),
    ensures
        r == at_spec(s@, p@, i as int),
{
    let n = s.len();
    let m = p.len();
    let mut k: usize = 0;
    while k < m
        invariant
            n == s@.len(),
            m == p@.len(),
            i + m <= n,
            0 <= k <= m,
            forall|q: int| 0 <= q < k ==> s@[i + q] == p@[q],
        decreases m - k,
    {
        if s[i + k] != p[k] {
            proof {
                assert(s@.subrange(i as int, i as int + p@.len())[k as int] != p@[k as int]);
            }
            return false;
        }
        k = k + 1;
    }
    proof {
        assert(s@.subrange(i as int, i as int + p@.len()) =~= p@);
    }
    true
}

/// Decides [`starts_with_spec`].
pub fn starts_with_vec(s: &Vec<char>, p: &Vec<char>) -> (r: bool)
    ensures
        r == starts_with_spec(s@, p@),
{
    if p.len() > s.len() {
        return false;
    }
    match_at(s, p, 0)
}

/// Decides [`contains_spec`].
pub fn contains_vec(s: &Vec<char>, p: &Vec<char>) -> (r: bool)
    ensures
        r == contains_spec(s@, p@),
{
    let n = s.len();
    let m = p.len();
    if m > n {
        proof {
            assert(forall|i: int| !at_spec(s@, p@, i));
        }
        return false;
    }
    if m == 0 {
        proof {
            assert(s@.subrange(0, 0) =~= p@);
            assert(at_spec(s@, p@, 0));
        }
        return true;
    }
    let last = n - m;
    let mut i: usize = 0;
    while i <= last
        invariant
            n == s@.len(),
            m == p@.len(),
            1 <= m <= n,
            last == n - m,
            0 <= i <= last + 1,
            forall|q: int| 0 <= q < i ==> !at_spec(s@, p@, q),
        decreases last + 1 - i,
    {
        if match_at(s, p, i) {
            proof {
                assert(contains_spec(s@, p@));
            }
            return true;
        }
        i = i + 1;
    }
    proof {
        assert(forall|q: int| at_spec(s@, p@, q) ==> 0 <= q <= last as int);
    }
    false
}

/// The first line of `s` (up to the first line feed), without leading and
/// trailing ASCII whitespace.
pub open spec fn first_line_trimmed_spec(s: Seq<char>) -> Seq<char> {
    trim_spec(s.subrange(0, find_newline(s, 0)))
}

/// Extracts the first line of `s`, trimmed; used to read a version out of
/// a command's output.
pub fn first_line_trimmed(s: &str) -> (r: String)
    ensures
        r@ == first_line_trimmed_spec(s@),
{
    let cs = chars_of(s);
    let j = find_nl(&cs, 0);
    let line_v = copy_range(&cs, 0, j);
    let bounds = trim_bounds(&line_v);
    let piece = s.substring_char(bounds.0, bounds.1);
    proof {
        assert(s@.subrange(bounds.0 as int, bounds.1 as int) =~= line_v@.subrange(
            bounds.0 as int,
            bounds.1 as int,
        ));
    }
    String::from_str(piece)
}

/// Decides whether `needle` occurs in `haystack`.
pub fn text_contains(haystack: &str, needle: &str) -> (r: bool)
    ensures
        r == contains_spec(haystack@, needle@),
{
    let h = chars_of(haystack);
    let n = chars_of(needle);
    contains_vec(&h, &n)
}

/// The parts joined with `sep` between consecutive parts, from `k` on.
pub open spec fn join_from(parts: Seq<Seq<char>>, sep: Seq<char>, k: int) -> Seq<char>
    decreases parts.len() - k,
{
    if k >= parts.len() {
        Seq::empty()
    } else if k == parts.len() - 1 {
        parts[k]
    } else {
        parts[k] + sep + join_from(parts, sep, k + 1)
    }
}

/// The parts joined with `sep` between consecutive parts.
pub open spec fn join_spec(parts: Seq<Seq<char>>, sep: Seq<char>) -> Seq<char> {
    join_from(parts, sep, 0)
}

} // verus!
