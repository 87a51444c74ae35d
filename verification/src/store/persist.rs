//! Idempotent recording of host judgments keyed by their reference.
use crate::text::str_eq;
use vstd::prelude::*;

verus! {

/// What recording a keyed payload amounts to.
#[derive(Clone, Copy, Debug, PartialEq, Eq, Structural)]
pub enum PersistOutcome {
    Inserted,
    DuplicateSame,
    Conflict,
}

/// A payload under a new key is inserted; under a known key it is a harmless
/// repeat when the stored payload is the same text, and a conflict otherwise.
pub open spec fn persist_outcome_spec(existing: Option<Seq<char>>, payload: Seq<char>) -> PersistOutcome {
    match existing {
        None => PersistOutcome::Inserted,
        Some(e) => if e == payload {
            PersistOutcome::DuplicateSame
        } else {
            PersistOutcome::Conflict
        },
    }
}

/// Classifies recording `payload` where `existing` is what the key already
/// holds.
pub fn persist_outcome(existing: &Option<String>, payload: &str) -> (r: PersistOutcome)
    ensures
        r == persist_outcome_spec(existing.deep_view(), payload@),
{
    match existing {
        None => PersistOutcome::Inserted,
        Some(e) => if str_eq(e.as_str(), payload) {
            PersistOutcome::DuplicateSame
        } else {
            PersistOutcome::Conflict
        },
    }
}

} // verus!
