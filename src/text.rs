use vstd::prelude::*;

verus! {

/// The texts of a list of strings.
pub open spec fn views(v: Seq<String>) -> Seq<Seq<char>> {
    v.map_values(|p: String| p@)
}

/// Unicode `White_Space`: what trimming removes.
pub open spec fn is_space(c: char) -> bool {
    c == '\t' || c == '\n' || c == '\x0B' || c == '\x0C' || c == '\r' || c == ' '
        || c == '\u{85}' || c == '\u{A0}' || c == '\u{1680}' || ('\u{2000}' <= c && c
        <= '\u{200A}') || c == '\u{2028}' || c == '\u{2029}' || c == '\u{202F}' || c
        == '\u{205F}' || c == '\u{3000}'
}

/// A character that list markers are made of: `-`, `*`, a decimal digit or `.`.
pub open spec fn is_mark(c: char) -> bool {
    c == '-' || c == '*' || c == '.' || is_digit(c)
}

pub open spec fn is_digit(c: char) -> bool {
    '0' <= c && c <= '9'
}

/// The first index from `i` on (below `hi`) that does not hold a space.
pub open spec fn space_end(s: Seq<char>, i: int, hi: int) -> int
    decreases hi - i,
{
    if i < hi && is_space(s[i]) {
        space_end(s, i + 1, hi)
    } else {
        i
    }
}

/// The first index from `i` on (below `hi`) that does not hold a marker character.
pub open spec fn mark_end(s: Seq<char>, i: int, hi: int) -> int
    decreases hi - i,
{
    if i < hi && is_mark(s[i]) {
        mark_end(s, i + 1, hi)
    } else {
        i
    }
}

/// The end of `s[lo..hi]` once trailing spaces are cut off.
pub open spec fn space_start(s: Seq<char>, lo: int, hi: int) -> int
    decreases hi - lo,
{
    if lo < hi && is_space(s[hi - 1]) {
        space_start(s, lo, hi - 1)
    } else {
        hi
    }
}

/// The first index from `i` on that holds `/`, or the length.
pub open spec fn slash_index(s: Seq<char>, i: int) -> int
    decreases s.len() - i,
{
    if 0 <= i < s.len() && s[i] != '/' {
        slash_index(s, i + 1)
    } else {
        i
    }
}

/// The top-level segment of a path: what stands before the first `/`, or nothing.
pub open spec fn top_dir(s: Seq<char>) -> Seq<char> {
    let k = slash_index(s, 0);
    if k < s.len() {
        s.subrange(0, k)
    } else {
        Seq::empty()
    }
}

pub open spec fn occurs_at(s: Seq<char>, pat: Seq<char>, i: int) -> bool {
    0 <= i && i + pat.len() <= s.len() && s.subrange(i, i + pat.len()) == pat
}

pub open spec fn contains_text(s: Seq<char>, pat: Seq<char>) -> bool {
    exists|i: int| occurs_at(s, pat, i)
}

pub open spec fn ends_with_text(s: Seq<char>, pat: Seq<char>) -> bool {
    pat.len() <= s.len() && occurs_at(s, pat, s.len() - pat.len())
}

pub fn is_space_char(c: char) -> (r: bool)
    ensures
        r == is_space(c),
{
    c == '\t' || c == '\n' || c == '\x0B' || c == '\x0C' || c == '\r' || c == ' '
        || c == '\u{85}' || c == '\u{A0}' || c == '\u{1680}' || ('\u{2000}' <= c && c
        <= '\u{200A}') || c == '\u{2028}' || c == '\u{2029}' || c == '\u{202F}' || c
        == '\u{205F}' || c == '\u{3000}'
}

pub fn is_mark_char(c: char) -> (r: bool)
    ensures
        r == is_mark(c),
{
    c == '-' || c == '*' || c == '.' || ('0' <= c && c <= '9')
}

pub fn skip_spaces(s: &str, i: usize, hi: usize) -> (r: usize)
    requires
        i <= hi <= s@.len(),
    ensures
        r == space_end(s@, i as int, hi as int),
        i <= r <= hi,
{
    let mut k = i;
    while k < hi && is_space_char(s.get_char(k))
        invariant
            i <= k <= hi,
            hi <= s@.len(),
            space_end(s@, k as int, hi as int) == space_end(s@, i as int, hi as int),
        decreases hi - k,
    {
        k = k + 1;
    }
    k
}

pub fn skip_marks(s: &str, i: usize, hi: usize) -> (r: usize)
    requires
        i <= hi <= s@.len(),
    ensures
        r == mark_end(s@, i as int, hi as int),
        i <= r <= hi,
{
    let mut k = i;
    while k < hi && is_mark_char(s.get_char(k))
        invariant
            i <= k <= hi,
            hi <= s@.len(),
            mark_end(s@, k as int, hi as int) == mark_end(s@, i as int, hi as int),
        decreases hi - k,
    {
        k = k + 1;
    }
    k
}

pub fn cut_trailing_spaces(s: &str, lo: usize, hi: usize) -> (r: usize)
    requires
        lo <= hi <= s@.len(),
    ensures
        r == space_start(s@, lo as int, hi as int),
        lo <= r <= hi,
{
    let mut k = hi;
    while lo < k && is_space_char(s.get_char(k - 1))
        invariant
            lo <= k <= hi,
            hi <= s@.len(),
            space_start(s@, lo as int, k as int) == space_start(s@, lo as int, hi as int),
        decreases k - lo,
    {
        k = k - 1;
    }
    k
}

/// Whether `pat` stands in `s` at index `i`.
pub fn text_at(s: &str, pat: &str, i: usize) -> (r: bool)
    ensures
        r == occurs_at(s@, pat@, i as int),
{
    let n = s.unicode_len();
    let m = pat.unicode_len();
    if i > n || m > n - i {
        return false;
    }
    let mut j: usize = 0;
    while j < m
        invariant
            i + m <= n,
            n == s@.len(),
            m == pat@.len(),
            j <= m,
            forall|t: int| 0 <= t < j ==> s@[i + t] == pat@[t],
        decreases m - j,
    {
        if s.get_char(i + j) != pat.get_char(j) {
            assert(s@.subrange(i as int, i + m)[j as int] != pat@[j as int]);
            return false;
        }
        j = j + 1;
    }
    assert(s@.subrange(i as int, i + m) =~= pat@);
    true
}

/// Whether `pat` stands anywhere in `s`.
pub fn has_text(s: &str, pat: &str) -> (r: bool)
    ensures
        r == contains_text(s@, pat@),
{
    let n = s.unicode_len();
    let m = pat.unicode_len();
    if m > n {
        return false;
    }
    let mut i: usize = 0;
    while i <= n - m
        invariant
            m <= n,
            n == s@.len(),
            m == pat@.len(),
            i <= n - m,
            forall|t: int| 0 <= t < i ==> !occurs_at(s@, pat@, t),
        decreases n - m - i,
    {
        if text_at(s, pat, i) {
            return true;
        }
        if i == n - m {
            return false;
        }
        i = i + 1;
    }
    false
}

/// Whether `s` ends with `pat`.
pub fn ends_with(s: &str, pat: &str) -> (r: bool)
    ensures
        r == ends_with_text(s@, pat@),
{
    let n = s.unicode_len();
    let m = pat.unicode_len();
    if m > n {
        return false;
    }
    text_at(s, pat, n - m)
}

/// The top-level segment of a path.
pub fn top_level_dir(path: &str) -> (r: String)
    ensures
        r@ == top_dir(path@),
{
    let n = path.unicode_len();
    let mut k: usize = 0;
    while k < n && path.get_char(k) != '/'
        invariant
            k <= n,
            n == path@.len(),
            slash_index(path@, k as int) == slash_index(path@, 0),
        decreases n - k,
    {
        k = k + 1;
    }
    if k < n {
        String::from_str(path.substring_char(0, k))
    } else {
        String::new()
    }
}

} // verus!
