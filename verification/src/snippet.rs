//! Offset-accurate snippet extraction with highlight spans.
//!
//! For a matched scene the formatter looks for the first case-insensitive
//! occurrence of the query (quotes stripped) in the scene text.  If it is
//! found at character position `p`, the snippet is the window from `p - 60`
//! to `p + len + 60` (clamped to the text) with one highlight span covering
//! the match; otherwise the snippet is the first 160 characters with no
//! highlight.  All positions are in characters.

use vstd::prelude::*;
use crate::text;

verus! {

/// Drops leading quote characters.
pub open spec fn trim_leading(s: Seq<char>) -> Seq<char>
    decreases s.len(),
{
    if s.len() > 0 && s[0] == '"' {
        trim_leading(s.drop_first())
    } else {
        s
    }
}

/// Drops trailing quote characters.
pub open spec fn trim_trailing(s: Seq<char>) -> Seq<char>
    decreases s.len(),
{
    if s.len() > 0 && s.last() == '"' {
        trim_trailing(s.drop_last())
    } else {
        s
    }
}

/// Strips all leading and trailing quote characters.
pub open spec fn trim_quotes(s: Seq<char>) -> Seq<char> {
    trim_trailing(trim_leading(s))
}

/// First position at or after `i` where `pat` occurs in `text`.
pub open spec fn find_from(text: Seq<char>, pat: Seq<char>, i: int) -> Option<int>
    decreases text.len() + 1 - i,
{
    if i < 0 || i + pat.len() > text.len() {
        None
    } else if text::matches_at(text, pat, i) {
        Some(i)
    } else {
        find_from(text, pat, i + 1)
    }
}

/// The normalized needle the formatter searches for: the query with its
/// quotes stripped, case-folded.
pub open spec fn needle_of(query: Seq<char>) -> Seq<char> {
    text::lower(trim_quotes(query))
}

/// Position of the first case-insensitive occurrence of the stripped query
/// in `text`, if any.
pub open spec fn local_match(text: Seq<char>, query: Seq<char>) -> Option<int> {
    find_from(text::lower(text), needle_of(query), 0)
}

/// The first characters of `text`, at most 160 of them.
pub open spec fn prefix_snippet(text: Seq<char>) -> Seq<char> {
    if text.len() <= 160 {
        text
    } else {
        text.take(160)
    }
}

/// Start of the snippet window around a match at `p`.
pub open spec fn snip_start(p: int) -> int {
    if p >= 60 {
        p - 60
    } else {
        0
    }
}

/// End of the snippet window around a match at `p` of length `qlen` in a
/// text of length `len`.
pub open spec fn snip_end(p: int, qlen: int, len: int) -> int {
    if p + qlen + 60 <= len {
        p + qlen + 60
    } else {
        len
    }
}

/// What the formatter produces for one scene: the snippet, its highlight
/// spans and the local match position, if any.
pub ghost struct HitParts {
    pub snippet: Seq<char>,
    pub highlights: Seq<(usize, usize)>,
    pub local_pos: Option<int>,
}

/// The formatter's result on a scene text and a raw query.
pub open spec fn hit_parts(text: Seq<char>, query: Seq<char>) -> HitParts {
    let q = needle_of(query);
    if q.len() == 0 {
        HitParts { snippet: prefix_snippet(text), highlights: Seq::empty(), local_pos: None }
    } else {
        match local_match(text, query) {
            Some(p) => {
                let s = snip_start(p);
                let e = snip_end(p, q.len() as int, text.len() as int);
                HitParts {
                    snippet: text.subrange(s, e),
                    highlights: seq![((p - s) as usize, (p - s + q.len()) as usize)],
                    local_pos: Some(p),
                }
            },
            None => HitParts {
                snippet: prefix_snippet(text),
                highlights: Seq::empty(),
                local_pos: None,
            },
        }
    }
}

/// Strips all leading and trailing quote characters from a character vector.
pub fn trim_quotes_chars(v: &Vec<char>) -> (r: Vec<char>)
    ensures
        r@ == trim_quotes(v@),
{
    proof {
        assert(v@.subrange(0, v@.len() as int) =~= v@);
    }
    let mut a: usize = 0;
    while a < v.len() && v[a] == '"'
        invariant
            a <= v@.len(),
            trim_leading(v@) == trim_leading(v@.subrange(a as int, v@.len() as int)),
        decreases v@.len() - a,
    {
        proof {
            let rest = v@.subrange(a as int, v@.len() as int);
            assert(rest[0] == '"');
            assert(rest.drop_first() =~= v@.subrange(a + 1, v@.len() as int));
        }
        a = a + 1;
    }
    proof {
        let rest = v@.subrange(a as int, v@.len() as int);
        if rest.len() > 0 {
            assert(rest[0] == v@[a as int]);
        }
        assert(trim_leading(v@) == rest);
    }
    let mut b: usize = v.len();
    while b > a && v[b - 1] == '"'
        invariant
            a <= b <= v@.len(),
            trim_quotes(v@) == trim_trailing(v@.subrange(a as int, b as int)),
        decreases b,
    {
        proof {
            let rest = v@.subrange(a as int, b as int);
            assert(rest.last() == '"');
            assert(rest.drop_last() =~= v@.subrange(a as int, b - 1));
        }
        b = b - 1;
    }
    proof {
        let rest = v@.subrange(a as int, b as int);
        if rest.len() > 0 {
            assert(rest.last() == v@[b - 1]);
        }
        assert(trim_quotes(v@) == rest);
    }
    text::subvec(v, a, b)
}

/// `find_from` yields exactly the first match position.
proof fn lemma_find_from_some(text: Seq<char>, pat: Seq<char>, i: int, p: int)
    requires
        0 <= i <= p,
        text::matches_at(text, pat, p),
        forall|j: int| i <= j < p ==> !text::matches_at(text, pat, j),
    ensures
        find_from(text, pat, i) == Some(p),
    decreases p - i,
{
    assert(p + pat.len() <= text.len());
    if i < p {
        lemma_find_from_some(text, pat, i + 1, p);
    }
}

/// `find_from` yields `None` when no position at or after `i` matches.
proof fn lemma_find_from_none(text: Seq<char>, pat: Seq<char>, i: int)
    requires
        0 <= i,
        forall|j: int| i <= j ==> !text::matches_at(text, pat, j),
    ensures
        find_from(text, pat, i) is None,
    decreases text.len() + 1 - i,
{
    if !(i + pat.len() > text.len()) {
        lemma_find_from_none(text, pat, i + 1);
    }
}

/// A found position is at or after the search start and really matches.
pub proof fn lemma_find_from_found(text: Seq<char>, pat: Seq<char>, i: int, p: int)
    requires
        0 <= i,
        find_from(text, pat, i) == Some(p),
    ensures
        i <= p,
        text::matches_at(text, pat, p),
    decreases text.len() + 1 - i,
{
    if !(i + pat.len() > text.len()) && !text::matches_at(text, pat, i) {
        lemma_find_from_found(text, pat, i + 1, p);
    }
}

/// Computes the snippet, highlight spans and local match position for one
/// scene text and a raw query string.
pub fn make_snippet(text: &str, query: &str) -> (r: (String, Vec<(usize, usize)>, Option<usize>))
    ensures
        r.0@ == hit_parts(text@, query@).snippet,
        r.1@ == hit_parts(text@, query@).highlights,
        match r.2 {
            Some(p) => hit_parts(text@, query@).local_pos == Some(p as int),
            None => hit_parts(text@, query@).local_pos is None,
        },
{
    let tchars = text::chars_of(text);
    let qchars = text::chars_of(query);
    let qtrim = trim_quotes_chars(&qchars);
    let needle = text::to_lower(&qtrim);
    if needle.len() == 0 {
        let snip = prefix_snippet_chars(&tchars);
        return (text::string_from_chars(&snip), Vec::new(), None);
    }
    let lowered = text::to_lower(&tchars);
    match text::find_sub(&lowered, &needle) {
        Some(p) => {
            proof {
                lemma_find_from_some(lowered@, needle@, 0, p as int);
            }
            let llen = lowered.len();
            assert(p + needle@.len() <= llen);
            let start = if p >= 60 {
                p - 60
            } else {
                0
            };
            let qend = p + needle.len();
            let end = if text.unicode_len() - qend >= 60 {
                qend + 60
            } else {
                text.unicode_len()
            };
            let snip = text::subvec(&tchars, start, end);
            let mut hl: Vec<(usize, usize)> = Vec::new();
            hl.push((p - start, qend - start));
            (text::string_from_chars(&snip), hl, Some(p))
        },
        None => {
            proof {
                lemma_find_from_none(lowered@, needle@, 0);
            }
            let snip = prefix_snippet_chars(&tchars);
            (text::string_from_chars(&snip), Vec::new(), None)
        },
    }
}

/// The first characters of `v`, at most 160 of them.
fn prefix_snippet_chars(v: &Vec<char>) -> (r: Vec<char>)
    ensures
        r@ == prefix_snippet(v@),
{
    let cut = if v.len() <= 160 {
        v.len()
    } else {
        160
    };
    let r = text::subvec(v, 0, cut);
    assert(r@ =~= prefix_snippet(v@));
    r
}

} // verus!
