//! Character-name variants for mention search.
//!
//! A mention query for a name searches not just the literal name but a small
//! variant set: entries from a fixed alias table (on the lowercased name),
//! and, when the name is exactly two words, the derived honorific forms
//! `"mr <last>"`, `"mrs <last>"` and `"ms <last>"`.

use vstd::prelude::*;
use vstd::string::StringExecFns;
use crate::text;

verus! {

/// Whitespace-splitter state: the words finished so far and the word being
/// built.
pub ghost struct WordsState {
    pub words: Seq<Seq<char>>,
    pub cur: Seq<char>,
}

/// One step of the whitespace splitter.
pub open spec fn words_step(st: WordsState, c: char) -> WordsState {
    if text::is_space(c) {
        if st.cur.len() == 0 {
            st
        } else {
            WordsState { words: st.words.push(st.cur), cur: Seq::empty() }
        }
    } else {
        WordsState { words: st.words, cur: st.cur.push(c) }
    }
}

/// The splitter state after scanning all of `s`.
pub open spec fn words_run(s: Seq<char>) -> WordsState
    decreases s.len(),
{
    if s.len() == 0 {
        WordsState { words: Seq::empty(), cur: Seq::empty() }
    } else {
        words_step(words_run(s.drop_last()), s.last())
    }
}

/// The whitespace-separated words of `s`, in order.
pub open spec fn words_of(s: Seq<char>) -> Seq<Seq<char>> {
    let st = words_run(s);
    if st.cur.len() > 0 {
        st.words.push(st.cur)
    } else {
        st.words
    }
}

/// The fixed alias table, applied to a lowercased name.
pub open spec fn alias_expansion(lower_name: Seq<char>) -> Seq<Seq<char>> {
    if lower_name == "bob"@ {
        seq!["robert"@, "bobby"@]
    } else if lower_name == "rob"@ {
        seq!["robert"@]
    } else {
        Seq::empty()
    }
}

/// The honorific forms derived from a two-word name: `mr`, `mrs` and `ms`
/// followed by the lowercased last word.  Empty for any other word count.
pub open spec fn honorific_forms(name: Seq<char>) -> Seq<Seq<char>> {
    let ws = words_of(name);
    if ws.len() == 2 {
        let last = text::lower(ws[1]);
        seq!["mr "@ + last, "mrs "@ + last, "ms "@ + last]
    } else {
        Seq::empty()
    }
}

/// Every variant beyond the literal name itself.
pub open spec fn extra_variants(name: Seq<char>) -> Seq<Seq<char>> {
    alias_expansion(text::lower(name)) + honorific_forms(name)
}

/// The full variant set for a mention query: the literal name first, then
/// the alias and honorific variants.
pub open spec fn all_variants(name: Seq<char>) -> Seq<Seq<char>> {
    seq![name] + extra_variants(name)
}

/// Whether two character vectors hold the same characters.
fn vec_chars_eq(a: &Vec<char>, b: &Vec<char>) -> (r: bool)
    ensures
        r == (a@ == b@),
{
    if a.len() != b.len() {
        assert(a@ != b@);
        return false;
    }
    let mut i: usize = 0;
    while i < a.len()
        invariant
            a@.len() == b@.len(),
            i <= a@.len(),
            forall|k: int| 0 <= k < i ==> a@[k] == b@[k],
        decreases a@.len() - i,
    {
        if a[i] != b[i] {
            assert(a@ != b@);
            return false;
        }
        i = i + 1;
    }
    assert(a@ =~= b@);
    true
}

/// The whitespace-separated words of a character vector, in order.
fn words_chars(v: &Vec<char>) -> (r: Vec<Vec<char>>)
    ensures
        r@.len() == words_of(v@).len(),
        forall|i: int| 0 <= i < r@.len() ==> r@[i]@ == words_of(v@)[i],
{
    let mut words: Vec<Vec<char>> = Vec::new();
    let mut cur: Vec<char> = Vec::new();
    let mut i: usize = 0;
    while i < v.len()
        invariant
            i <= v@.len(),
            words@.len() == words_run(v@.take(i as int)).words.len(),
            forall|k: int| 0 <= k < words@.len() ==> words@[k]@ == words_run(
                v@.take(i as int),
            ).words[k],
            cur@ == words_run(v@.take(i as int)).cur,
        decreases v@.len() - i,
    {
        proof {
            assert(v@.take(i + 1).drop_last() =~= v@.take(i as int));
            assert(v@.take(i + 1).last() == v@[i as int]);
        }
        let c = v[i];
        if crate::query::is_space_char(c) {
            if cur.len() > 0 {
                words.push(cur);
                cur = Vec::new();
            }
        } else {
            cur.push(c);
        }
        i = i + 1;
    }
    proof {
        assert(v@.take(v@.len() as int) =~= v@);
    }
    if cur.len() > 0 {
        words.push(cur);
    }
    words
}

/// Builds one honorific form: the given prefix characters followed by the
/// lowercased last word.
fn honorific(prefix: &Vec<char>, last_lower: &Vec<char>) -> (r: String)
    ensures
        r@ == prefix@ + last_lower@,
{
    let mut out: Vec<char> = Vec::new();
    let mut i: usize = 0;
    while i < prefix.len()
        invariant
            i <= prefix@.len(),
            out@ =~= prefix@.take(i as int),
        decreases prefix@.len() - i,
    {
        out.push(prefix[i]);
        assert(out@ =~= prefix@.take(i + 1));
        i = i + 1;
    }
    assert(out@ =~= prefix@);
    let mut j: usize = 0;
    while j < last_lower.len()
        invariant
            j <= last_lower@.len(),
            out@ =~= prefix@ + last_lower@.take(j as int),
        decreases last_lower@.len() - j,
    {
        out.push(last_lower[j]);
        assert(out@ =~= prefix@ + last_lower@.take(j + 1));
        j = j + 1;
    }
    assert(out@ =~= prefix@ + last_lower@);
    text::string_from_chars(&out)
}

/// The alias and honorific variants of a name, or `None` when there are
/// none.
pub fn canonical_name(name: &str) -> (r: Option<Vec<String>>)
    ensures
        match r {
            Some(v) => extra_variants(name@).len() > 0 && v@.len() == extra_variants(name@).len()
                && forall|i: int| 0 <= i < v@.len() ==> v@[i]@ == extra_variants(name@)[i],
            None => extra_variants(name@).len() == 0,
        },
{
    let chars = text::chars_of(name);
    let lowered = text::to_lower(&chars);
    let mut out: Vec<String> = Vec::new();
    let bob = text::chars_of("bob");
    let rob = text::chars_of("rob");
    if vec_chars_eq(&lowered, &bob) {
        out.push(text::string_from_chars(&text::chars_of("robert")));
        out.push(text::string_from_chars(&text::chars_of("bobby")));
    } else if vec_chars_eq(&lowered, &rob) {
        out.push(text::string_from_chars(&text::chars_of("robert")));
    }
    assert(out@.len() == alias_expansion(text::lower(name@)).len());
    assert(forall|i: int| 0 <= i < out@.len() ==> out@[i]@ == alias_expansion(
        text::lower(name@),
    )[i]);
    let words = words_chars(&chars);
    if words.len() == 2 {
        let last_lower = text::to_lower(&words[1]);
        out.push(honorific(&text::chars_of("mr "), &last_lower));
        out.push(honorific(&text::chars_of("mrs "), &last_lower));
        out.push(honorific(&text::chars_of("ms "), &last_lower));
    }
    proof {
        assert(out@.len() == extra_variants(name@).len());
        assert(forall|i: int| 0 <= i < out@.len() ==> out@[i]@ == extra_variants(name@)[i]);
    }
    if out.len() == 0 {
        None
    } else {
        Some(out)
    }
}

/// The full variant list for a mention query: the literal name first, then
/// every alias and honorific variant.
pub fn variants_of(name: &str) -> (r: Vec<String>)
    ensures
        r@.len() == all_variants(name@).len(),
        forall|i: int| 0 <= i < r@.len() ==> r@[i]@ == all_variants(name@)[i],
        r@.len() >= 1,
{
    let mut r: Vec<String> = Vec::new();
    r.push(String::from_str(name));
    match canonical_name(name) {
        Some(extra) => {
            let mut i: usize = 0;
            while i < extra.len()
                invariant
                    extra@.len() == extra_variants(name@).len(),
                    forall|k: int| 0 <= k < extra@.len() ==> extra@[k]@ == extra_variants(
                        name@,
                    )[k],
                    i <= extra@.len(),
                    r@.len() == 1 + i,
                    r@[0]@ == name@,
                    forall|k: int| 0 <= k < i ==> r@[1 + k]@ == extra_variants(name@)[k],
                decreases extra@.len() - i,
            {
                r.push(extra[i].clone());
                i = i + 1;
            }
            assert(forall|k: int| 0 <= k < r@.len() ==> r@[k]@ == all_variants(name@)[k]);
            r
        },
        None => {
            assert(forall|k: int| 0 <= k < r@.len() ==> r@[k]@ == all_variants(name@)[k]);
            r
        },
    }
}

} // verus!
