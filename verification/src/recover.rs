//! Corruption detection on engine error messages.
//!
//! The index is a derived cache: when an operation fails with a signature
//! that points at a missing or invalid metadata marker, a killed or stuck
//! writer, or an otherwise unreadable index, the caller is expected to wipe
//! the index directory, recreate it and retry once.  Detection goes by
//! substring signatures of the error message, exactly as the write path has
//! always done.

use vstd::prelude::*;
use crate::text;

verus! {

/// An error message that signals a recoverable (wipe-and-rebuild) index
/// state: it mentions the writer, a kill, the metadata marker, or a missing
/// file (matched case-insensitively).
pub open spec fn corruption_signature(msg: Seq<char>) -> bool {
    text::contains_sub(msg, "writer"@) || text::contains_sub(msg, "killed"@)
        || text::contains_sub(msg, "meta.json"@) || text::contains_sub(
        text::lower(msg),
        "does not exist"@,
    )
}

/// Whether `hay` contains `pat`.
fn contains_chars(hay: &Vec<char>, pat: &Vec<char>) -> (r: bool)
    ensures
        r == text::contains_sub(hay@, pat@),
{
    match text::find_sub(hay, pat) {
        Some(_) => true,
        None => false,
    }
}

/// Whether an error message carries a corruption signature, so that the
/// write path should wipe the index directory, recreate it and retry once.
pub fn is_corruption_signature(msg: &str) -> (r: bool)
    ensures
        r == corruption_signature(msg@),
{
    let chars = text::chars_of(msg);
    if contains_chars(&chars, &text::chars_of("writer")) {
        return true;
    }
    if contains_chars(&chars, &text::chars_of("killed")) {
        return true;
    }
    if contains_chars(&chars, &text::chars_of("meta.json")) {
        return true;
    }
    let lowered = text::to_lower(&chars);
    contains_chars(&lowered, &text::chars_of("does not exist"))
}

} // verus!
