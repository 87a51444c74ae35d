//! Projections of committed records onto the runtime directory, and the
//! record kept when writing one fails.
use crate::model::ids::{is_millis_text, is_minted_id, new_id, now_timestamp};
use crate::text::owned;
use vstd::prelude::*;

verus! {

/// A file write staged until the transaction commits.
pub enum ProjectionOp {
    /// Replace the file at `path` with a JSON document.
    WriteJson { path: String, payload: String },
    /// Append one JSON line to the file at `path`.
    AppendJsonl { path: String, line: String },
}

/// The name of a projection's kind.
pub open spec fn projection_kind(op: &ProjectionOp) -> Seq<char> {
    match op {
        ProjectionOp::WriteJson { .. } => "write_json"@,
        ProjectionOp::AppendJsonl { .. } => "append_jsonl"@,
    }
}

/// The file a projection writes.
pub open spec fn projection_path(op: &ProjectionOp) -> Seq<char> {
    match op {
        ProjectionOp::WriteJson { path, .. } => path@,
        ProjectionOp::AppendJsonl { path, .. } => path@,
    }
}

impl ProjectionOp {
    /// The name of the projection's kind.
    pub fn kind(&self) -> (r: &'static str)
        ensures
            r@ == projection_kind(self),
    {
        match self {
            ProjectionOp::WriteJson { .. } => "write_json",
            ProjectionOp::AppendJsonl { .. } => "append_jsonl",
        }
    }

    /// The file the projection writes.
    pub fn target_path(&self) -> (r: &str)
        ensures
            r@ == projection_path(self),
    {
        match self {
            ProjectionOp::WriteJson { path, .. } => path.as_str(),
            ProjectionOp::AppendJsonl { path, .. } => path.as_str(),
        }
    }
}

/// The record of a projection that could not be written.
pub struct ProjectionFailureRecord {
    pub failure_id: String,
    pub projection_kind: String,
    pub target_path: String,
    pub error_message: String,
    pub recorded_at: String,
}

/// Records that a projection could not be written, with a fresh
/// `projection-failure-` identifier, now.
pub fn projection_failure(op: &ProjectionOp, error_message: String) -> (r: ProjectionFailureRecord)
    ensures
        is_minted_id(r.failure_id@, "projection-failure"@),
        r.projection_kind@ == projection_kind(op),
        r.target_path@ == projection_path(op),
        r.error_message@ == error_message@,
        is_millis_text(r.recorded_at@),
{
    ProjectionFailureRecord {
        failure_id: new_id("projection-failure"),
        projection_kind: owned(op.kind()),
        target_path: owned(op.target_path()),
        error_message,
        recorded_at: now_timestamp(),
    }
}

} // verus!
