//! Quote-aware query tokenization and token classification.
//!
//! A raw query string is split on whitespace, except that a `"`-delimited
//! run is kept together as a single token (with its quotes).  Each token is
//! then classified: quoted tokens become phrase subqueries and tokens with a
//! wildcard marker become wildcard subqueries — both required — while every
//! other token becomes an optional fuzzy term subquery.

use vstd::prelude::*;
use crate::text;

verus! {

/// Tokenizer state: the tokens finished so far, the token being built, and
/// whether the scan stands inside a quoted run.
pub ghost struct TokState {
    pub tokens: Seq<Seq<char>>,
    pub cur: Seq<char>,
    pub in_quote: bool,
}

/// One step of the quote-aware tokenizer.
pub open spec fn tok_step(st: TokState, c: char) -> TokState {
    if c == '"' {
        if st.in_quote {
            TokState {
                tokens: st.tokens.push(st.cur.push('"')),
                cur: Seq::empty(),
                in_quote: false,
            }
        } else {
            TokState { tokens: st.tokens, cur: st.cur.push('"'), in_quote: true }
        }
    } else if text::is_space(c) && !st.in_quote {
        if st.cur.len() == 0 {
            st
        } else {
            TokState { tokens: st.tokens.push(st.cur), cur: Seq::empty(), in_quote: false }
        }
    } else {
        TokState { tokens: st.tokens, cur: st.cur.push(c), in_quote: st.in_quote }
    }
}

/// The tokenizer state after scanning all of `s`.
pub open spec fn tok_run(s: Seq<char>) -> TokState
    decreases s.len(),
{
    if s.len() == 0 {
        TokState { tokens: Seq::empty(), cur: Seq::empty(), in_quote: false }
    } else {
        tok_step(tok_run(s.drop_last()), s.last())
    }
}

/// The tokens of a query string: the finished tokens, plus the trailing
/// token if the scan ended in the middle of one.
pub open spec fn tokens_of(s: Seq<char>) -> Seq<Seq<char>> {
    let st = tok_run(s);
    if st.cur.len() > 0 {
        st.tokens.push(st.cur)
    } else {
        st.tokens
    }
}

/// A token that is a quoted phrase: delimited by quote characters and longer
/// than the two quotes themselves.
pub open spec fn is_phrase_token(t: Seq<char>) -> bool {
    t.len() > 2 && t[0] == '"' && t[t.len() - 1] == '"'
}

/// A token with a wildcard marker, not counting quoted phrases.
pub open spec fn is_wildcard_token(t: Seq<char>) -> bool {
    !is_phrase_token(t) && (t.contains('*') || t.contains('?'))
}

/// A token that yields a required subquery (phrase or wildcard); all other
/// tokens yield optional fuzzy subqueries.
pub open spec fn is_must_token(t: Seq<char>) -> bool {
    is_phrase_token(t) || is_wildcard_token(t)
}

/// The required (phrase and wildcard) tokens of a query, in order.
pub open spec fn must_tokens(toks: Seq<Seq<char>>) -> Seq<Seq<char>>
    decreases toks.len(),
{
    if toks.len() == 0 {
        Seq::empty()
    } else {
        let rest = must_tokens(toks.drop_last());
        if is_must_token(toks.last()) {
            rest.push(toks.last())
        } else {
            rest
        }
    }
}

/// The optional (fuzzy) tokens of a query, in order.
pub open spec fn fuzzy_tokens(toks: Seq<Seq<char>>) -> Seq<Seq<char>>
    decreases toks.len(),
{
    if toks.len() == 0 {
        Seq::empty()
    } else {
        let rest = fuzzy_tokens(toks.drop_last());
        if is_must_token(toks.last()) {
            rest
        } else {
            rest.push(toks.last())
        }
    }
}

/// Every token is a must or a fuzzy token, so the two classes cover the
/// token list.
pub proof fn lemma_token_split(toks: Seq<Seq<char>>)
    ensures
        must_tokens(toks).len() + fuzzy_tokens(toks).len() == toks.len(),
    decreases toks.len(),
{
    if toks.len() > 0 {
        lemma_token_split(toks.drop_last());
    }
}

/// The must tokens of a prefix of the token list are a prefix of the must
/// tokens of the whole list.
pub proof fn lemma_must_tokens_prefix(toks: Seq<Seq<char>>, n: int)
    requires
        0 <= n <= toks.len(),
    ensures
        must_tokens(toks.take(n)).len() <= must_tokens(toks).len(),
        must_tokens(toks).take(must_tokens(toks.take(n)).len() as int) == must_tokens(
            toks.take(n),
        ),
    decreases toks.len() - n,
{
    if n == toks.len() {
        assert(toks.take(n) =~= toks);
        assert(must_tokens(toks).take(must_tokens(toks).len() as int) =~= must_tokens(toks));
    } else {
        lemma_must_tokens_prefix(toks, n + 1);
        assert(toks.take(n + 1).drop_last() =~= toks.take(n));
        assert(toks.take(n + 1).last() == toks[n]);
        let pre = must_tokens(toks.take(n));
        let pre1 = must_tokens(toks.take(n + 1));
        if is_must_token(toks[n]) {
            assert(pre1 == pre.push(toks[n]));
            assert(must_tokens(toks).take(pre.len() as int) =~= must_tokens(toks).take(
                pre1.len() as int,
            ).take(pre.len() as int));
            assert(pre1.take(pre.len() as int) =~= pre);
        } else {
            assert(pre1 == pre);
        }
    }
}

/// Splits a raw query into tokens, keeping `"`-delimited runs together.
pub fn split_query(q: &str) -> (r: Vec<String>)
    ensures
        r@.len() == tokens_of(q@).len(),
        forall|i: int| 0 <= i < r@.len() ==> r@[i]@ == tokens_of(q@)[i],
{
    let chars = text::chars_of(q);
    let toks = split_query_chars(&chars);
    let mut r: Vec<String> = Vec::new();
    let mut i: usize = 0;
    while i < toks.len()
        invariant
            toks@.len() == tokens_of(q@).len(),
            forall|k: int| 0 <= k < toks@.len() ==> toks@[k]@ == tokens_of(q@)[k],
            i <= toks@.len(),
            r@.len() == i,
            forall|k: int| 0 <= k < i ==> r@[k]@ == tokens_of(q@)[k],
        decreases toks@.len() - i,
    {
        r.push(text::string_from_chars(&toks[i]));
        i = i + 1;
    }
    r
}

/// Splits a character vector into tokens, keeping `"`-delimited runs
/// together.
pub fn split_query_chars(q: &Vec<char>) -> (r: Vec<Vec<char>>)
    ensures
        r@.len() == tokens_of(q@).len(),
        forall|i: int| 0 <= i < r@.len() ==> r@[i]@ == tokens_of(q@)[i],
{
    let mut out: Vec<Vec<char>> = Vec::new();
    let mut cur: Vec<char> = Vec::new();
    let mut in_quote: bool = false;
    let mut i: usize = 0;
    while i < q.len()
        invariant
            i <= q@.len(),
            out@.len() == tok_run(q@.take(i as int)).tokens.len(),
            forall|k: int| 0 <= k < out@.len() ==> out@[k]@ == tok_run(q@.take(i as int)).tokens[k],
            cur@ == tok_run(q@.take(i as int)).cur,
            in_quote == tok_run(q@.take(i as int)).in_quote,
        decreases q@.len() - i,
    {
        proof {
            assert(q@.take(i + 1).drop_last() =~= q@.take(i as int));
            assert(q@.take(i + 1).last() == q@[i as int]);
        }
        let c = q[i];
        if c == '"' {
            if in_quote {
                cur.push('"');
                out.push(cur);
                cur = Vec::new();
                in_quote = false;
            } else {
                cur.push('"');
                in_quote = true;
            }
        } else if is_space_char(c) && !in_quote {
            if cur.len() > 0 {
                out.push(cur);
                cur = Vec::new();
            }
        } else {
            cur.push(c);
        }
        i = i + 1;
    }
    proof {
        assert(q@.take(q@.len() as int) =~= q@);
    }
    if cur.len() > 0 {
        out.push(cur);
    }
    out
}

/// Executable test for ASCII whitespace.
pub fn is_space_char(c: char) -> (r: bool)
    ensures
        r == text::is_space(c),
{
    let u = c as u32;
    u == 32 || u == 9 || u == 10 || u == 13
}

/// Whether a token yields a required subquery: a quoted phrase or a token
/// with a wildcard marker.
pub fn token_is_must(t: &Vec<char>) -> (r: bool)
    ensures
        r == is_must_token(t@),
{
    if token_is_phrase(t) {
        return true;
    }
    let mut i: usize = 0;
    while i < t.len()
        invariant
            i <= t@.len(),
            !is_phrase_token(t@),
            forall|k: int| 0 <= k < i ==> t@[k] != '*' && t@[k] != '?',
        decreases t@.len() - i,
    {
        if t[i] == '*' || t[i] == '?' {
            return true;
        }
        i = i + 1;
    }
    assert(!t@.contains('*') && !t@.contains('?'));
    false
}

/// Whether a token is a quoted phrase.
pub fn token_is_phrase(t: &Vec<char>) -> (r: bool)
    ensures
        r == is_phrase_token(t@),
{
    t.len() > 2 && t[0] == '"' && t[t.len() - 1] == '"'
}

} // verus!
