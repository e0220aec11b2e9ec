//! Plain data records exchanged with the host shell.
//!
//! The shell around this library persists structured records, relays job
//! progress events and delegates narrative analysis to external scripts.
//! Those collaborators are out of the library's scope; the records they
//! exchange are plain values and are kept here so that every component
//! speaks the same data model.

use vstd::prelude::*;

verus! {

/// Input to a candidate-analysis job: the job id for events, the candidate
/// under analysis and the manuscript text.
#[derive(Clone, Debug)]
pub struct AnalyzeCandidateInput {
    pub id: String,
    pub candidate_id: String,
    pub manuscript_text: String,
    pub candidate_text: Option<String>,
}

/// A scene as handed to the index-building command.
#[derive(Clone, Debug)]
pub struct BuildIndexScene {
    pub id: String,
    pub chapter_id: String,
    pub text: String,
    pub start_offset: usize,
}

/// Arguments of the search command.
#[derive(Clone, Debug)]
pub struct SearchArgs {
    pub query: String,
    pub limit: Option<usize>,
}

/// Metadata of one stored manuscript version.
#[derive(Clone, Debug)]
pub struct VersionMetadata {
    pub id: String,
    pub name: String,
    pub created_at: i64,
    pub parent_id: Option<String>,
    pub description: Option<String>,
}

/// Arguments of the version-load command.
#[derive(Clone, Debug)]
pub struct LoadArgs {
    pub id: String,
}

/// Arguments of the version-delete command.
#[derive(Clone, Debug)]
pub struct DeleteArgs {
    pub id: String,
}

/// Arguments of the version-compare command.
#[derive(Clone, Debug)]
pub struct CompareArgs {
    pub a_id: String,
    pub b_id: String,
}

/// A stored plot-reveal record; `prereqs` holds a JSON array as text.
#[derive(Clone, Debug)]
pub struct RevealRecord {
    pub id: String,
    pub description: String,
    pub first_scene_id: String,
    pub prereqs: String,
}

/// Counts of the stored records of one manuscript.
#[derive(Clone, Debug, PartialEq, Eq, Structural)]
pub struct ManuscriptMeta {
    pub scene_count: i64,
    pub reveal_count: i64,
}

/// Progress event of a long-running job.
#[derive(Clone, Debug)]
pub struct ProgressPayload {
    pub id: String,
    pub percent: u8,
    pub step: Option<String>,
}

/// Log event of a long-running job.
#[derive(Clone, Debug)]
pub struct LogPayload {
    pub id: String,
    pub level: Option<String>,
    pub message: String,
    pub timestamp: Option<u64>,
}

/// Error event of a long-running job.
#[derive(Clone, Debug)]
pub struct ErrorPayload {
    pub id: String,
    pub error: String,
    pub code: Option<String>,
}

/// An opening candidate: a set of scenes proposed as a manuscript opening.
#[derive(Clone, Debug)]
pub struct OpeningCandidate {
    pub id: String,
    pub scene_ids: Vec<String>,
    pub kind: String,
}

/// An opening candidate as returned by the candidate-generation command.
#[derive(Clone, Debug)]
pub struct OpeningCandidateOut {
    pub id: String,
    pub scene_ids: Vec<String>,
    pub kind: String,
}

/// A spoiler found by analysis: a reveal surfaced before its setup.
#[derive(Clone, Debug)]
pub struct SpoilerViolation {
    pub id: String,
    pub reveal_id: String,
    pub location: String,
    pub severity: String,
    pub suggested_fix: String,
}

/// An editorial decision on an opening candidate.
#[derive(Clone, Debug)]
pub struct Decision {
    pub verdict: DecisionVerdict,
    pub why_it_works: Vec<String>,
    pub risk_notes: Option<String>,
}

/// The verdict of an editorial decision.
#[derive(Clone, Copy, Debug, PartialEq, Eq, Structural)]
pub enum DecisionVerdict {
    Accept,
    Revise,
    Reject,
}

} // verus!
