//! Heuristic character-name extraction.
//!
//! Scene text is scanned for runs of one or more capitalized words of three
//! or more letters (`"Robert"`, `"Mary Jane"`).  A word takes part only when
//! it stands on its own: one uppercase ASCII letter followed by two or more
//! lowercase ASCII letters, delimited by non-word characters.  Consecutive
//! qualifying words separated by whitespace form one run, recorded with its
//! words joined by single spaces.  False positives and negatives are
//! accepted: the result powers fuzzy character lookup only.

use vstd::prelude::*;
use crate::text;

verus! {

/// A word character: ASCII letter, digit or underscore.
pub open spec fn is_word_char(c: char) -> bool {
    text::is_upper(c) || text::is_lower(c) || text::is_digit(c) || c == '_'
}

/// A word that can take part in a name run: one uppercase letter followed
/// by at least two lowercase letters.
pub open spec fn qualifies(w: Seq<char>) -> bool {
    w.len() >= 3 && text::is_upper(w[0]) && forall|k: int| 1 <= k < w.len() ==> text::is_lower(
        w[k],
    )
}

/// Extractor state: finished runs, the run being built, the word being
/// scanned, and whether the gap since the last word was whitespace only.
pub ghost struct ExtractState {
    pub names: Seq<Seq<char>>,
    pub run: Seq<char>,
    pub word: Seq<char>,
    pub sep_ws: bool,
}

/// Folds the scanned word into the current run: a qualifying word extends
/// the run when the gap was whitespace, otherwise it starts a new one; a
/// non-qualifying word closes any open run.
pub open spec fn close_word(st: ExtractState) -> ExtractState {
    if st.word.len() == 0 {
        st
    } else if qualifies(st.word) {
        if st.run.len() > 0 && st.sep_ws {
            ExtractState {
                names: st.names,
                run: st.run + seq![' '] + st.word,
                word: Seq::empty(),
                sep_ws: st.sep_ws,
            }
        } else if st.run.len() > 0 {
            ExtractState {
                names: st.names.push(st.run),
                run: st.word,
                word: Seq::empty(),
                sep_ws: st.sep_ws,
            }
        } else {
            ExtractState {
                names: st.names,
                run: st.word,
                word: Seq::empty(),
                sep_ws: st.sep_ws,
            }
        }
    } else {
        if st.run.len() > 0 {
            ExtractState {
                names: st.names.push(st.run),
                run: Seq::empty(),
                word: Seq::empty(),
                sep_ws: st.sep_ws,
            }
        } else {
            ExtractState {
                names: st.names,
                run: Seq::empty(),
                word: Seq::empty(),
                sep_ws: st.sep_ws,
            }
        }
    }
}

/// One step of the extractor.
pub open spec fn ex_step(st: ExtractState, c: char) -> ExtractState {
    if is_word_char(c) {
        if st.word.len() == 0 && st.run.len() > 0 && !st.sep_ws {
            ExtractState {
                names: st.names.push(st.run),
                run: Seq::empty(),
                word: seq![c],
                sep_ws: st.sep_ws,
            }
        } else {
            ExtractState {
                names: st.names,
                run: st.run,
                word: st.word.push(c),
                sep_ws: st.sep_ws,
            }
        }
    } else {
        let closed = close_word(st);
        let was_word = st.word.len() > 0;
        ExtractState {
            names: closed.names,
            run: closed.run,
            word: Seq::empty(),
            sep_ws: if was_word {
                text::is_space(c)
            } else {
                st.sep_ws && text::is_space(c)
            },
        }
    }
}

/// The extractor state after scanning all of `s`.
pub open spec fn ex_run(s: Seq<char>) -> ExtractState
    decreases s.len(),
{
    if s.len() == 0 {
        ExtractState { names: Seq::empty(), run: Seq::empty(), word: Seq::empty(), sep_ws: true }
    } else {
        ex_step(ex_run(s.drop_last()), s.last())
    }
}

/// The name runs of a scene text, in order of appearance.
pub open spec fn names_of(s: Seq<char>) -> Seq<Seq<char>> {
    let st = close_word(ex_run(s));
    if st.run.len() > 0 {
        st.names.push(st.run)
    } else {
        st.names
    }
}

/// Executable test for a word character.
fn is_word_char_exec(c: char) -> (r: bool)
    ensures
        r == is_word_char(c),
{
    let u = c as u32;
    (65 <= u && u <= 90) || (97 <= u && u <= 122) || (48 <= u && u <= 57) || c == '_'
}

/// Whether a scanned word can take part in a name run.
fn qualifies_exec(w: &Vec<char>) -> (r: bool)
    ensures
        r == qualifies(w@),
{
    if w.len() < 3 {
        return false;
    }
    let c0 = w[0] as u32;
    if !(65 <= c0 && c0 <= 90) {
        return false;
    }
    let mut k: usize = 1;
    while k < w.len()
        invariant
            1 <= k <= w@.len(),
            forall|j: int| 1 <= j < k ==> text::is_lower(w@[j]),
        decreases w@.len() - k,
    {
        let u = w[k] as u32;
        if !(97 <= u && u <= 122) {
            return false;
        }
        k = k + 1;
    }
    true
}

/// Scans a character vector for name runs.
pub fn extract_names_chars(s: &Vec<char>) -> (r: Vec<Vec<char>>)
    ensures
        r@.len() == names_of(s@).len(),
        forall|i: int| 0 <= i < r@.len() ==> r@[i]@ == names_of(s@)[i],
{
    let mut names: Vec<Vec<char>> = Vec::new();
    let mut run: Vec<char> = Vec::new();
    let mut word: Vec<char> = Vec::new();
    let mut sep_ws: bool = true;
    let mut i: usize = 0;
    while i < s.len()
        invariant
            i <= s@.len(),
            names@.len() == ex_run(s@.take(i as int)).names.len(),
            forall|k: int| 0 <= k < names@.len() ==> names@[k]@ == ex_run(
                s@.take(i as int),
            ).names[k],
            run@ == ex_run(s@.take(i as int)).run,
            word@ == ex_run(s@.take(i as int)).word,
            sep_ws == ex_run(s@.take(i as int)).sep_ws,
        decreases s@.len() - i,
    {
        proof {
            assert(s@.take(i + 1).drop_last() =~= s@.take(i as int));
            assert(s@.take(i + 1).last() == s@[i as int]);
        }
        let c = s[i];
        if is_word_char_exec(c) {
            if word.len() == 0 && run.len() > 0 && !sep_ws {
                names.push(run);
                run = Vec::new();
                word = Vec::new();
                word.push(c);
                assert(word@ =~= seq![c]);
            } else {
                word.push(c);
            }
        } else {
            if word.len() > 0 {
                if qualifies_exec(&word) {
                    if run.len() > 0 && sep_ws {
                        run.push(' ');
                        let mut j: usize = 0;
                        while j < word.len()
                            invariant
                                j <= word@.len(),
                                run@ =~= ex_run(s@.take(i as int)).run + seq![' ']
                                    + word@.take(j as int),
                                word@ == ex_run(s@.take(i as int)).word,
                            decreases word@.len() - j,
                        {
                            run.push(word[j]);
                            assert(run@ =~= ex_run(s@.take(i as int)).run + seq![' ']
                                + word@.take(j + 1));
                            j = j + 1;
                        }
                        assert(word@.take(word@.len() as int) =~= word@);
                    } else if run.len() > 0 {
                        names.push(run);
                        run = word;
                    } else {
                        run = word;
                    }
                } else {
                    if run.len() > 0 {
                        names.push(run);
                        run = Vec::new();
                    }
                }
                word = Vec::new();
                sep_ws = is_space_exec(c);
            } else {
                sep_ws = sep_ws && is_space_exec(c);
            }
        }
        i = i + 1;
    }
    proof {
        assert(s@.take(s@.len() as int) =~= s@);
    }
    if word.len() > 0 {
        if qualifies_exec(&word) {
            if run.len() > 0 && sep_ws {
                run.push(' ');
                let mut j: usize = 0;
                while j < word.len()
                    invariant
                        j <= word@.len(),
                        run@ =~= ex_run(s@).run + seq![' '] + word@.take(j as int),
                        word@ == ex_run(s@).word,
                    decreases word@.len() - j,
                {
                    run.push(word[j]);
                    assert(run@ =~= ex_run(s@).run + seq![' '] + word@.take(j + 1));
                    j = j + 1;
                }
                assert(word@.take(word@.len() as int) =~= word@);
            } else if run.len() > 0 {
                names.push(run);
                run = word;
            } else {
                run = word;
            }
        } else {
            if run.len() > 0 {
                names.push(run);
                run = Vec::new();
            }
        }
    }
    if run.len() > 0 {
        names.push(run);
    }
    names
}

/// Executable test for ASCII whitespace.
fn is_space_exec(c: char) -> (r: bool)
    ensures
        r == text::is_space(c),
{
    let u = c as u32;
    u == 32 || u == 9 || u == 10 || u == 13
}

/// Scans scene text for candidate character names.
pub fn extract_character_names(s: &str) -> (r: Vec<String>)
    ensures
        r@.len() == names_of(s@).len(),
        forall|i: int| 0 <= i < r@.len() ==> r@[i]@ == names_of(s@)[i],
{
    let chars = text::chars_of(s);
    let runs = extract_names_chars(&chars);
    let mut r: Vec<String> = Vec::new();
    let mut i: usize = 0;
    while i < runs.len()
        invariant
            runs@.len() == names_of(s@).len(),
            forall|k: int| 0 <= k < runs@.len() ==> runs@[k]@ == names_of(s@)[k],
            i <= runs@.len(),
            r@.len() == i,
            forall|k: int| 0 <= k < i ==> r@[k]@ == names_of(s@)[k],
        decreases runs@.len() - i,
    {
        r.push(text::string_from_chars(&runs[i]));
        i = i + 1;
    }
    r
}

} // verus!
