//! Character-level text operations for the search editor: substring
//! containment and the byte width of a character-indexed caret.

use vstd::prelude::*;

verus! {

broadcast use vstd::string::axiom_spec_iter;

/// `needle` occurs contiguously somewhere in `hay` (vacuously true when
/// `needle` is empty).
pub open spec fn is_substring(needle: Seq<char>, hay: Seq<char>) -> bool {
    exists|i: int|
        0 <= i && i + needle.len() <= hay.len() && (#[trigger] hay.subrange(
            i,
            i + needle.len(),
        )) == needle
}

/// Whether `needle` occurs in `hay` starting exactly at position `at`.
fn matches_at(hay: &Vec<char>, needle: &Vec<char>, at: usize) -> (r: bool)
    requires
        at + needle@.len() <= hay@.len(),
    ensures
        r <==> hay@.subrange(at as int, at + needle@.len()) == needle@,
{
    let hay_len = hay.len();
    let mut j: usize = 0;
    while j < needle.len()
        invariant
            j <= needle@.len(),
            at + needle@.len() <= hay@.len(),
            hay@.len() == hay_len,
            forall|k: int| 0 <= k < j ==> hay@[at + k] == needle@[k],
        decreases needle@.len() - j,
    {
        if hay[at + j] != needle[j] {
            proof {
                assert(hay@.subrange(at as int, at + needle@.len())[j as int] == hay@[at + j]);
            }
            return false;
        }
        j = j + 1;
    }
    proof {
        assert(hay@.subrange(at as int, at + needle@.len()) =~= needle@);
    }
    true
}

/// Case-sensitive substring search, character by character.
pub fn contains_substring(hay: &Vec<char>, needle: &Vec<char>) -> (r: bool)
    ensures
        r == is_substring(needle@, hay@),
{
    if needle.len() > hay.len() {
        return false;
    }
    let last_start = hay.len() - needle.len();
    let mut i: usize = 0;
    loop
        invariant
            i <= last_start,
            last_start == hay@.len() - needle@.len(),
            forall|k: int|
                0 <= k < i ==> (#[trigger] hay@.subrange(k, k + needle@.len())) != needle@,
        decreases last_start - i,
    {
        if matches_at(hay, needle, i) {
            return true;
        }
        if i == last_start {
            return false;
        }
        i = i + 1;
    }
}

/// Collects a string's characters into a vector that can be indexed by
/// character position.
pub fn chars_of(s: &str) -> (v: Vec<char>)
    ensures
        v@ == s@,
{
    let mut v: Vec<char> = Vec::new();
    for c in it: s.chars()
        invariant
            it.seq() == s@,
            v@ == it.seq().take(it.index() as int),
    {
        v.push(c);
    }
    proof {
        assert(v@ =~= s@);
    }
    v
}

/// How many bytes one character occupies in UTF-8, by code point range.
pub open spec fn utf8_len(c: char) -> int {
    if (c as u32) < 0x80 {
        1
    } else if (c as u32) < 0x800 {
        2
    } else if (c as u32) < 0x10000 {
        3
    } else {
        4
    }
}

/// Total UTF-8 byte width of the first `n` characters of `s`: the byte
/// offset that character position `n` has in the encoded text.
pub open spec fn utf8_prefix_len(s: Seq<char>, n: int) -> int
    decreases n,
{
    if n <= 0 {
        0
    } else {
        utf8_prefix_len(s, n - 1) + utf8_len(s[n - 1])
    }
}

/// The encoded width of one character.
fn char_utf8_len(c: char) -> (n: usize)
    ensures
        n == utf8_len(c),
{
    let u = c as u32;
    if u < 0x80 {
        1
    } else if u < 0x800 {
        2
    } else if u < 0x10000 {
        3
    } else {
        4
    }
}

/// Byte offset of character position `upto` in the UTF-8 encoding of the
/// buffer.
pub fn utf8_byte_index(chars: &Vec<char>, upto: usize) -> (r: usize)
    requires
        upto <= chars@.len(),
        4 * chars@.len() <= usize::MAX,
    ensures
        r == utf8_prefix_len(chars@, upto as int),
{
    let mut total: usize = 0;
    let mut i: usize = 0;
    while i < upto
        invariant
            i <= upto <= chars@.len(),
            4 * chars@.len() <= usize::MAX,
            total == utf8_prefix_len(chars@, i as int),
            total <= 4 * i,
        decreases upto - i,
    {
        total = total + char_utf8_len(chars[i]);
        i = i + 1;
    }
    total
}

} // verus!
