//! Character-level text scanning: first/last occurrence of a character, the
//! first triple-backtick fence, and whitespace trimming.
//!
//! All functions are stated against recursive spec functions over the
//! string's character sequence, so that the extraction logic can be pinned
//! down exactly.

use vstd::prelude::*;
use vstd::string::*;

verus! {

/// A character with the Unicode `White_Space` property; the set that
/// `str::trim` removes at either end.
pub open spec fn whitespace_char(c: char) -> bool {
    c == ' ' || c == '\t' || c == '\n' || c == '\u{b}' || c == '\u{c}' || c == '\r'
        || c == '\u{85}' || c == '\u{a0}' || c == '\u{1680}'
        || ('\u{2000}' <= c && c <= '\u{200a}')
        || c == '\u{2028}' || c == '\u{2029}' || c == '\u{202f}' || c == '\u{205f}'
        || c == '\u{3000}'
}

/// Whether a triple-backtick fence starts at index `i` of `s`.
pub open spec fn fence_at(s: Seq<char>, i: int) -> bool {
    &&& 0 <= i
    &&& i + 3 <= s.len()
    &&& s[i] == '`'
    &&& s[i + 1] == '`'
    &&& s[i + 2] == '`'
}

/// The first index `>= from` at which a triple-backtick fence starts.
pub open spec fn first_fence_from(s: Seq<char>, from: int) -> Option<int>
    decreases s.len() - from,
{
    if from < 0 || from + 3 > s.len() {
        None
    } else if fence_at(s, from) {
        Some(from)
    } else {
        first_fence_from(s, from + 1)
    }
}

/// The first index `>= from` at which the character `c` occurs in `s`.
pub open spec fn first_char_from(s: Seq<char>, from: int, c: char) -> Option<int>
    decreases s.len() - from,
{
    if from < 0 || from >= s.len() {
        None
    } else if s[from] == c {
        Some(from)
    } else {
        first_char_from(s, from + 1, c)
    }
}

/// The last index `< end` at which the character `c` occurs in `s`.
pub open spec fn last_char_before(s: Seq<char>, end: int, c: char) -> Option<int>
    decreases end,
{
    if end <= 0 || end > s.len() {
        None
    } else if s[end - 1] == c {
        Some(end - 1)
    } else {
        last_char_before(s, end - 1, c)
    }
}

/// The first index `>= from` holding a non-whitespace character, or `s.len()`.
pub open spec fn first_non_ws_from(s: Seq<char>, from: int) -> int
    decreases s.len() - from,
{
    if from < 0 || from >= s.len() {
        s.len() as int
    } else if !whitespace_char(s[from]) {
        from
    } else {
        first_non_ws_from(s, from + 1)
    }
}

/// One past the last index `< end` holding a non-whitespace character, or 0.
pub open spec fn last_non_ws_before(s: Seq<char>, end: int) -> int
    decreases end,
{
    if end <= 0 || end > s.len() {
        0
    } else if !whitespace_char(s[end - 1]) {
        end
    } else {
        last_non_ws_before(s, end - 1)
    }
}

/// `s` with leading and trailing whitespace removed.
pub open spec fn trim_spec(s: Seq<char>) -> Seq<char> {
    let a = first_non_ws_from(s, 0);
    let b = last_non_ws_before(s, s.len() as int);
    if a <= b {
        s.subrange(a, b)
    } else {
        Seq::empty()
    }
}

pub proof fn lemma_last_non_ws_le(s: Seq<char>, end: int)
    ensures
        last_non_ws_before(s, end) <= end || end < 0,
        0 <= last_non_ws_before(s, end),
    decreases end,
{
    if !(end <= 0 || end > s.len()) && whitespace_char(s[end - 1]) {
        lemma_last_non_ws_le(s, end - 1);
    }
}

/// Decides `whitespace_char` on a concrete character.
pub fn is_whitespace_char(c: char) -> (r: bool)
    ensures
        r == whitespace_char(c),
{
    c == ' ' || c == '\t' || c == '\n' || c == '\u{b}' || c == '\u{c}' || c == '\r'
        || c == '\u{85}' || c == '\u{a0}' || c == '\u{1680}'
        || ('\u{2000}' <= c && c <= '\u{200a}')
        || c == '\u{2028}' || c == '\u{2029}' || c == '\u{202f}' || c == '\u{205f}'
        || c == '\u{3000}'
}

/// Finds the first triple-backtick fence at an index `>= from`.
pub fn find_fence(s: &str, from: usize) -> (r: Option<usize>)
    ensures
        match r {
            Some(i) => first_fence_from(s@, from as int) == Some(i as int)
                && from <= i && i + 3 <= s@.len(),
            None => first_fence_from(s@, from as int) is None,
        },
{
    let n = s.unicode_len();
    let mut i: usize = from;
    while i < n && i + 1 < n && i + 2 < n
        invariant
            n == s@.len(),
            from <= i,
            first_fence_from(s@, from as int) == first_fence_from(s@, i as int),
        decreases n - i,
    {
        if s.get_char(i) == '`' && s.get_char(i + 1) == '`' && s.get_char(i + 2) == '`' {
            assert(fence_at(s@, i as int));
            return Some(i);
        }
        assert(!fence_at(s@, i as int));
        i = i + 1;
    }
    assert(i + 3 > s@.len());
    None
}

/// Finds the first occurrence of `c` at an index `>= from`.
pub fn find_char(s: &str, from: usize, c: char) -> (r: Option<usize>)
    ensures
        match r {
            Some(i) => first_char_from(s@, from as int, c) == Some(i as int)
                && from <= i && i < s@.len(),
            None => first_char_from(s@, from as int, c) is None,
        },
{
    let n = s.unicode_len();
    let mut i: usize = from;
    while i < n
        invariant
            n == s@.len(),
            from <= i,
            first_char_from(s@, from as int, c) == first_char_from(s@, i as int, c),
        decreases n - i,
    {
        if s.get_char(i) == c {
            return Some(i);
        }
        i = i + 1;
    }
    None
}

/// Finds the last occurrence of `c` in `s`.
pub fn rfind_char(s: &str, c: char) -> (r: Option<usize>)
    ensures
        match r {
            Some(i) => last_char_before(s@, s@.len() as int, c) == Some(i as int)
                && i < s@.len(),
            None => last_char_before(s@, s@.len() as int, c) is None,
        },
{
    let n = s.unicode_len();
    let mut i: usize = n;
    while i > 0
        invariant
            n == s@.len(),
            i <= n,
            last_char_before(s@, n as int, c) == last_char_before(s@, i as int, c),
        decreases i,
    {
        if s.get_char(i - 1) == c {
            return Some(i - 1);
        }
        i = i - 1;
    }
    None
}

/// Removes leading and trailing whitespace.
pub fn trim_str<'a>(s: &'a str) -> (r: &'a str)
    ensures
        r@ == trim_spec(s@),
{
    let n = s.unicode_len();
    let mut a: usize = 0;
    while a < n && is_whitespace_char(s.get_char(a))
        invariant
            n == s@.len(),
            a <= n,
            first_non_ws_from(s@, 0) == first_non_ws_from(s@, a as int),
        decreases n - a,
    {
        a = a + 1;
    }
    let mut b: usize = n;
    while b > a && is_whitespace_char(s.get_char(b - 1))
        invariant
            n == s@.len(),
            a <= b <= n,
            a < b || b == n,
            a < n ==> !whitespace_char(s@[a as int]),
            last_non_ws_before(s@, n as int) == last_non_ws_before(s@, b as int),
        decreases b,
    {
        b = b - 1;
    }
    proof {
        lemma_last_non_ws_le(s@, b as int);
        if b > a {
            // the right scan exits only at a non-whitespace character
            assert(last_non_ws_before(s@, b as int) == b as int);
            assert(first_non_ws_from(s@, a as int) == a as int);
            assert(trim_spec(s@) == s@.subrange(a as int, b as int));
        } else {
            // b == a == n: every character is whitespace
            assert(first_non_ws_from(s@, 0) == n as int);
            assert(trim_spec(s@) =~= s@.subrange(n as int, n as int));
        }
    }
    s.substring_char(a, b)
}

} // verus!
