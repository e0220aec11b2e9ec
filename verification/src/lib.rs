//! Full-text search engine for manuscript scenes.
//!
//! The library maintains an inverted index over manuscript "scenes" and
//! answers phrase, wildcard, fuzzy and character-alias queries with
//! offset-accurate, highlighted snippets.  The index itself is kept by an
//! embedded search engine behind a small trusted boundary; everything that
//! decides *what* is indexed and *how* results are shaped is verified here.

use vstd::prelude::*;
use vstd::string::StringExecFns;

pub mod alias;
pub mod engine;
pub mod extract;
pub mod index;
pub mod model;
pub mod query;
pub mod records;
pub mod recover;
pub mod snippet;
pub mod text;

verus! {

/// A scene handed to the indexer: a contiguous span of manuscript text with
/// a stable id, a chapter association and an absolute start offset
/// (in characters from the start of the manuscript).
#[derive(Clone, Debug)]
pub struct IndexScene {
    pub id: String,
    pub chapter_id: String,
    pub text: String,
    pub start_offset: u64,
}

/// One search result: the scene, the absolute offset of the match (or of
/// the scene when the query has no literal occurrence), a snippet with
/// highlight spans, and the engine's relevance score.
///
/// The score is carried through untouched from the engine's ranking as the
/// bits of its IEEE-754 single-precision value.
#[derive(Clone, Debug)]
pub struct SearchHit {
    pub scene_id: String,
    pub offset: u64,
    pub snippet: String,
    pub score_bits: u32,
    pub highlights: Vec<(usize, usize)>,
}

/// An error of the search subsystem.
#[derive(Clone, Debug)]
pub enum SearchError {
    /// The query parser rejected a phrase or wildcard token.
    Query { message: String },
    /// The engine failed: an I/O fault, a locked writer, or a corrupted
    /// index.
    Engine { message: String },
}

impl SearchError {
    /// The error's descriptive message.
    pub fn message(&self) -> (r: &String)
        ensures
            r@ == match self {
                SearchError::Query { message } => message@,
                SearchError::Engine { message } => message@,
            },
    {
        match self {
            SearchError::Query { message } => message,
            SearchError::Engine { message } => message,
        }
    }

    /// Whether the error signals a recoverable index state: an engine
    /// failure carrying a corruption signature, which the write path should
    /// answer by wiping the index directory, recreating it and retrying
    /// once.
    pub fn is_recoverable(&self) -> (r: bool)
        ensures
            r == match self {
                SearchError::Query { .. } => false,
                SearchError::Engine { message } => recover::corruption_signature(message@),
            },
    {
        match self {
            SearchError::Query { .. } => false,
            SearchError::Engine { message } => recover::is_corruption_signature(message.as_str()),
        }
    }
}

/// Text that holds at least one character that is not Unicode whitespace.
pub open spec fn has_content(s: Seq<char>) -> bool {
    exists|i: int| 0 <= i < s.len() && !text::is_unicode_space(s[i])
}

/// Whether analysis input text is non-empty after trimming whitespace.
pub fn validate_text(input: &str) -> (r: bool)
    ensures
        r == has_content(input@),
{
    let chars = text::chars_of(input);
    let mut i: usize = 0;
    while i < chars.len()
        invariant
            chars@ == input@,
            i <= chars@.len(),
            forall|k: int| 0 <= k < i ==> text::is_unicode_space(input@[k]),
        decreases chars@.len() - i,
    {
        if !text::is_unicode_space_char(chars[i]) {
            return true;
        }
        i = i + 1;
    }
    false
}

/// The event topic of a job: `job::<id>::<suffix>`.
pub fn topic(id: &str, suffix: &str) -> (r: String)
    ensures
        r@ == "job::"@ + id@ + "::"@ + suffix@,
{
    let mut s = String::from_str("job::");
    s.append(id);
    s.append("::");
    s.append(suffix);
    s
}

} // verus!
