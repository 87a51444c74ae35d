//! The ways an ingress can be refused by the harness.
use crate::text::{owned, push_str};
use vstd::prelude::*;

verus! {

/// A refusal the harness reports to the host.
#[derive(Clone, Debug, PartialEq, Eq)]
pub enum LoomHarnessError {
    MissingDecisionToken,
    StaleDecisionToken,
    ManagedTaskNotFound(String),
    MissingCapabilitySnapshot(String),
    MissingManagedTaskSemantics,
    MissingScopeSourceDecisionRef,
    MissingManagedTaskRefForActiveLane,
    MissingInteractionLaneDecision,
    DuplicateSemanticDecisionKind(String),
    DuplicateDecisionRef(String),
    ConflictingDecisionRef(String),
    MissingTaskChangeSourceDecisionRef,
    TaskChangeSourceDecisionNotFound(String),
    InvalidTaskChangeSourceDecision,
    TaskChangeManagedTaskMismatch,
    MissingPairedTaskChangeJudgment,
}

/// The abstract form of a [`LoomHarnessError`].
pub enum LoomHarnessErrorView {
    MissingDecisionToken,
    StaleDecisionToken,
    ManagedTaskNotFound(Seq<char>),
    MissingCapabilitySnapshot(Seq<char>),
    MissingManagedTaskSemantics,
    MissingScopeSourceDecisionRef,
    MissingManagedTaskRefForActiveLane,
    MissingInteractionLaneDecision,
    DuplicateSemanticDecisionKind(Seq<char>),
    DuplicateDecisionRef(Seq<char>),
    ConflictingDecisionRef(Seq<char>),
    MissingTaskChangeSourceDecisionRef,
    TaskChangeSourceDecisionNotFound(Seq<char>),
    InvalidTaskChangeSourceDecision,
    TaskChangeManagedTaskMismatch,
    MissingPairedTaskChangeJudgment,
}

impl View for LoomHarnessError {
    type V = LoomHarnessErrorView;

    open spec fn view(&self) -> LoomHarnessErrorView {
        match self {
            LoomHarnessError::MissingDecisionToken => LoomHarnessErrorView::MissingDecisionToken,
            LoomHarnessError::StaleDecisionToken => LoomHarnessErrorView::StaleDecisionToken,
            LoomHarnessError::ManagedTaskNotFound(s) => LoomHarnessErrorView::ManagedTaskNotFound(s@),
            LoomHarnessError::MissingCapabilitySnapshot(s) => LoomHarnessErrorView::MissingCapabilitySnapshot(s@),
            LoomHarnessError::MissingManagedTaskSemantics => LoomHarnessErrorView::MissingManagedTaskSemantics,
            LoomHarnessError::MissingScopeSourceDecisionRef => LoomHarnessErrorView::MissingScopeSourceDecisionRef,
            LoomHarnessError::MissingManagedTaskRefForActiveLane => LoomHarnessErrorView::MissingManagedTaskRefForActiveLane,
            LoomHarnessError::MissingInteractionLaneDecision => LoomHarnessErrorView::MissingInteractionLaneDecision,
            LoomHarnessError::DuplicateSemanticDecisionKind(s) => LoomHarnessErrorView::DuplicateSemanticDecisionKind(s@),
            LoomHarnessError::DuplicateDecisionRef(s) => LoomHarnessErrorView::DuplicateDecisionRef(s@),
            LoomHarnessError::ConflictingDecisionRef(s) => LoomHarnessErrorView::ConflictingDecisionRef(s@),
            LoomHarnessError::MissingTaskChangeSourceDecisionRef => LoomHarnessErrorView::MissingTaskChangeSourceDecisionRef,
            LoomHarnessError::TaskChangeSourceDecisionNotFound(s) => LoomHarnessErrorView::TaskChangeSourceDecisionNotFound(s@),
            LoomHarnessError::InvalidTaskChangeSourceDecision => LoomHarnessErrorView::InvalidTaskChangeSourceDecision,
            LoomHarnessError::TaskChangeManagedTaskMismatch => LoomHarnessErrorView::TaskChangeManagedTaskMismatch,
            LoomHarnessError::MissingPairedTaskChangeJudgment => LoomHarnessErrorView::MissingPairedTaskChangeJudgment,
        }
    }
}

/// The text the host is shown for a refusal.
pub open spec fn harness_error_message(e: LoomHarnessErrorView) -> Seq<char> {
    match e {
        LoomHarnessErrorView::MissingDecisionToken => "missing decision_token for window-consuming control action"@,
        LoomHarnessErrorView::StaleDecisionToken => "no open pending decision window matched the provided decision_token"@,
        LoomHarnessErrorView::ManagedTaskNotFound(s) => "managed task not found: "@ + s,
        LoomHarnessErrorView::MissingCapabilitySnapshot(s) => "host capability snapshot missing for session: "@ + s,
        LoomHarnessErrorView::MissingManagedTaskSemantics => "semantic decision is missing managed task class or work horizon"@,
        LoomHarnessErrorView::MissingScopeSourceDecisionRef => "missing source decision ref for scope snapshot"@,
        LoomHarnessErrorView::MissingManagedTaskRefForActiveLane => "managed task active lane requires managed_task_ref"@,
        LoomHarnessErrorView::MissingInteractionLaneDecision => "semantic bundle requires a single interaction_lane decision when semantic judgments are present"@,
        LoomHarnessErrorView::DuplicateSemanticDecisionKind(s) => "semantic bundle has duplicate semantic decision kind: "@ + s,
        LoomHarnessErrorView::DuplicateDecisionRef(s) => "semantic bundle has duplicate decision_ref: "@ + s,
        LoomHarnessErrorView::ConflictingDecisionRef(s) => "host decision_ref conflicts with different payload: "@ + s,
        LoomHarnessErrorView::MissingTaskChangeSourceDecisionRef => "request_task_change requires source_decision_ref"@,
        LoomHarnessErrorView::TaskChangeSourceDecisionNotFound(s) => "request_task_change source decision not found: "@ + s,
        LoomHarnessErrorView::InvalidTaskChangeSourceDecision => "request_task_change source decision must be a task_change judgment"@,
        LoomHarnessErrorView::TaskChangeManagedTaskMismatch => "request_task_change managed_task_ref does not match the paired task_change judgment"@,
        LoomHarnessErrorView::MissingPairedTaskChangeJudgment => "request_task_change requires a paired task_change judgment in the same batch"@,
    }
}

fn prefixed(prefix: &str, value: &String) -> (r: String)
    ensures
        r@ == prefix@ + value@,
{
    let mut r = owned(prefix);
    push_str(&mut r, value.as_str());
    r
}

impl LoomHarnessError {
    /// The text the host is shown for this refusal.
    pub fn message(&self) -> (m: String)
        ensures
            m@ == harness_error_message(self@),
    {
        match self {
            LoomHarnessError::MissingDecisionToken => owned("missing decision_token for window-consuming control action"),
            LoomHarnessError::StaleDecisionToken => owned("no open pending decision window matched the provided decision_token"),
            LoomHarnessError::ManagedTaskNotFound(s) => prefixed("managed task not found: ", s),
            LoomHarnessError::MissingCapabilitySnapshot(s) => prefixed("host capability snapshot missing for session: ", s),
            LoomHarnessError::MissingManagedTaskSemantics => owned("semantic decision is missing managed task class or work horizon"),
            LoomHarnessError::MissingScopeSourceDecisionRef => owned("missing source decision ref for scope snapshot"),
            LoomHarnessError::MissingManagedTaskRefForActiveLane => owned("managed task active lane requires managed_task_ref"),
            LoomHarnessError::MissingInteractionLaneDecision => owned("semantic bundle requires a single interaction_lane decision when semantic judgments are present"),
            LoomHarnessError::DuplicateSemanticDecisionKind(s) => prefixed("semantic bundle has duplicate semantic decision kind: ", s),
            LoomHarnessError::DuplicateDecisionRef(s) => prefixed("semantic bundle has duplicate decision_ref: ", s),
            LoomHarnessError::ConflictingDecisionRef(s) => prefixed("host decision_ref conflicts with different payload: ", s),
            LoomHarnessError::MissingTaskChangeSourceDecisionRef => owned("request_task_change requires source_decision_ref"),
            LoomHarnessError::TaskChangeSourceDecisionNotFound(s) => prefixed("request_task_change source decision not found: ", s),
            LoomHarnessError::InvalidTaskChangeSourceDecision => owned("request_task_change source decision must be a task_change judgment"),
            LoomHarnessError::TaskChangeManagedTaskMismatch => owned("request_task_change managed_task_ref does not match the paired task_change judgment"),
            LoomHarnessError::MissingPairedTaskChangeJudgment => owned("request_task_change requires a paired task_change judgment in the same batch"),
        }
    }
}

/// A failed step of a harness flow: a refusal with a known cause, or another
/// failure described by its text.
#[derive(Clone, Debug, PartialEq, Eq)]
pub enum FlowError {
    Harness(LoomHarnessError),
    Other(String),
}

/// The abstract form of a [`FlowError`].
pub enum FlowErrorView {
    Harness(LoomHarnessErrorView),
    Other(Seq<char>),
}

impl View for FlowError {
    type V = FlowErrorView;

    open spec fn view(&self) -> FlowErrorView {
        match self {
            FlowError::Harness(e) => FlowErrorView::Harness(e@),
            FlowError::Other(s) => FlowErrorView::Other(s@),
        }
    }
}

/// The text of a flow failure.
pub open spec fn flow_error_message(e: FlowErrorView) -> Seq<char> {
    match e {
        FlowErrorView::Harness(h) => harness_error_message(h),
        FlowErrorView::Other(s) => s,
    }
}

impl FlowError {
    /// The text of this failure.
    pub fn message(&self) -> (m: String)
        ensures
            m@ == flow_error_message(self@),
    {
        match self {
            FlowError::Harness(e) => e.message(),
            FlowError::Other(s) => s.clone(),
        }
    }
}

/// A failure described by its text.
pub fn other_failure(text: &str) -> (e: FlowError)
    ensures
        e@ == FlowErrorView::Other(text@),
{
    FlowError::Other(owned(text))
}

} // verus!
