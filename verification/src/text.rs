//! Character-level text utilities: ASCII case folding, substring search and
//! conversions between `String` and `Vec<char>`.
//!
//! All position arithmetic in this crate is in characters, so the algorithms
//! here work on `Vec<char>` values whose view is the same `Seq<char>` as the
//! view of the originating string.

use vstd::prelude::*;
use vstd::string::StrSliceExecFns;

verus! {

/// An ASCII uppercase letter.
pub open spec fn is_upper(c: char) -> bool {
    65 <= c as u32 && c as u32 <= 90
}

/// An ASCII lowercase letter.
pub open spec fn is_lower(c: char) -> bool {
    97 <= c as u32 && c as u32 <= 122
}

/// An ASCII decimal digit.
pub open spec fn is_digit(c: char) -> bool {
    48 <= c as u32 && c as u32 <= 57
}

/// ASCII whitespace: space, tab, line feed, carriage return.
pub open spec fn is_space(c: char) -> bool {
    c as u32 == 32 || c as u32 == 9 || c as u32 == 10 || c as u32 == 13
}

/// Unicode whitespace: the characters with the White_Space property, the
/// same set std's `char::is_whitespace` recognizes — the ASCII whitespace
/// plus next line, no-break space, ogham space mark, the en-quad to
/// hair-space range, the line and paragraph separators, narrow no-break
/// space, medium mathematical space and ideographic space.
pub open spec fn is_unicode_space(c: char) -> bool {
    let u = c as u32;
    (9 <= u && u <= 13) || u == 32 || u == 133 || u == 160 || u == 5760 || (8192 <= u && u
        <= 8202) || u == 8232 || u == 8233 || u == 8239 || u == 8287 || u == 12288
}

/// Executable test for Unicode whitespace.
pub fn is_unicode_space_char(c: char) -> (r: bool)
    ensures
        r == is_unicode_space(c),
{
    let u = c as u32;
    (9 <= u && u <= 13) || u == 32 || u == 133 || u == 160 || u == 5760 || (8192 <= u && u
        <= 8202) || u == 8232 || u == 8233 || u == 8239 || u == 8287 || u == 12288
}

/// ASCII case folding of one character: uppercase letters are mapped to
/// their lowercase counterpart, everything else is left alone.
pub open spec fn lower_char(c: char) -> char {
    if is_upper(c) {
        ((c as u32) + 32) as char
    } else {
        c
    }
}

/// ASCII case folding of a character sequence.
pub open spec fn lower(s: Seq<char>) -> Seq<char> {
    Seq::new(s.len(), |i: int| lower_char(s[i]))
}

/// The pattern `pat` occurs in `text` starting at character position `i`.
pub open spec fn matches_at(text: Seq<char>, pat: Seq<char>, i: int) -> bool {
    0 <= i && i + pat.len() <= text.len() && text.subrange(i, i + pat.len()) == pat
}

/// The pattern `pat` occurs somewhere in `text`.
pub open spec fn contains_sub(text: Seq<char>, pat: Seq<char>) -> bool {
    exists|i: int| matches_at(text, pat, i)
}

/// Executable ASCII case folding of one character.
pub fn to_lower_char(c: char) -> (r: char)
    ensures
        r == lower_char(c),
{
    let u = c as u32;
    if 65 <= u && u <= 90 {
        ((u + 32) as u8) as char
    } else {
        c
    }
}

/// Executable ASCII case folding of a character vector.
pub fn to_lower(s: &Vec<char>) -> (r: Vec<char>)
    ensures
        r@ == lower(s@),
{
    let mut r: Vec<char> = Vec::new();
    for i in 0..s.len()
        invariant
            r@ =~= lower(s@).take(i as int),
    {
        r.push(to_lower_char(s[i]));
        assert(r@ =~= lower(s@).take(i + 1));
    }
    assert(lower(s@).take(s@.len() as int) =~= lower(s@));
    r
}

/// Whether `pat` occurs in `text` starting exactly at position `i`.
fn check_match_at(text: &Vec<char>, pat: &Vec<char>, i: usize) -> (r: bool)
    requires
        i + pat@.len() <= text@.len(),
    ensures
        r == matches_at(text@, pat@, i as int),
{
    let tlen = text.len();
    let mut j: usize = 0;
    while j < pat.len()
        invariant
            tlen == text@.len(),
            i + pat@.len() <= text@.len(),
            j <= pat@.len(),
            forall|k: int| 0 <= k < j ==> text@[i + k] == pat@[k],
        decreases pat@.len() - j,
    {
        if text[i + j] != pat[j] {
            assert(text@.subrange(i as int, i + pat@.len())[j as int] != pat@[j as int]);
            return false;
        }
        j = j + 1;
    }
    assert(text@.subrange(i as int, i + pat@.len()) =~= pat@);
    true
}

/// First occurrence of `pat` in `text`, by character position.
pub fn find_sub(text: &Vec<char>, pat: &Vec<char>) -> (r: Option<usize>)
    ensures
        match r {
            Some(p) => matches_at(text@, pat@, p as int) && forall|j: int|
                0 <= j < p ==> !matches_at(text@, pat@, j),
            None => forall|j: int| !matches_at(text@, pat@, j),
        },
{
    if pat.len() > text.len() {
        return None;
    }
    if pat.len() == 0 {
        assert(text@.subrange(0, 0) =~= pat@);
        return Some(0);
    }
    let last = text.len() - pat.len();
    let mut i: usize = 0;
    while i <= last
        invariant
            1 <= pat@.len() <= text@.len(),
            text@.len() <= usize::MAX,
            last == text@.len() - pat@.len(),
            i <= last + 1,
            forall|j: int| 0 <= j < i ==> !matches_at(text@, pat@, j),
        decreases last + 1 - i,
    {
        if check_match_at(text, pat, i) {
            return Some(i);
        }
        i = i + 1;
    }
    return None;
}

/// Copies the characters of `v` in positions `a .. b` into a new vector.
pub fn subvec(v: &Vec<char>, a: usize, b: usize) -> (r: Vec<char>)
    requires
        a <= b <= v@.len(),
    ensures
        r@ == v@.subrange(a as int, b as int),
{
    let mut r: Vec<char> = Vec::new();
    let mut i: usize = a;
    while i < b
        invariant
            a <= i <= b <= v@.len(),
            r@ =~= v@.subrange(a as int, i as int),
        decreases b - i,
    {
        r.push(v[i]);
        assert(r@ =~= v@.subrange(a as int, i + 1));
        i = i + 1;
    }
    assert(r@ =~= v@.subrange(a as int, b as int));
    r
}

/// The characters of a string, in order, as a vector.
pub fn chars_of(s: &str) -> (r: Vec<char>)
    ensures
        r@ == s@,
{
    let n = s.unicode_len();
    let mut r: Vec<char> = Vec::new();
    for i in 0..n
        invariant
            n == s@.len(),
            r@ =~= s@.take(i as int),
    {
        r.push(s.get_char(i));
        assert(r@ =~= s@.take(i + 1));
    }
    assert(s@.take(n as int) =~= s@);
    r
}

/// Rebuilds a string from its characters.
///
/// Relies on `String`'s `FromIterator<char>` implementation: collecting an
/// iterator of characters yields the string made of exactly those characters
/// in order.
#[verifier::external_body]
pub(crate) fn string_from_chars(v: &Vec<char>) -> (r: String)
    ensures
        r@ == v@,
{
    v.iter().collect()
}

} // verus!
