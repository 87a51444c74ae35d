//! Routing a control action to the flow that handles it.
use crate::harness::error::{LoomHarnessError, LoomHarnessErrorView};
use crate::harness::support::{requires_decision_token, requires_decision_token_spec};
use crate::model::ingress::{ControlAction, ControlActionKind};
use vstd::prelude::*;

verus! {

/// The flow a control action is handed to.
#[derive(Clone, Copy, Debug, PartialEq, Eq, Structural)]
pub enum ControlRoute {
    ApproveStart,
    ModifyCandidate,
    CancelCandidate,
    RequestTaskChange,
    ResumeTask,
    /// The action is accepted and nothing further is done.
    Nothing,
}

/// The flow a control action kind is handed to.
pub open spec fn control_route_spec(kind: ControlActionKind) -> ControlRoute {
    match kind {
        ControlActionKind::ApproveStart => ControlRoute::ApproveStart,
        ControlActionKind::ModifyCandidate => ControlRoute::ModifyCandidate,
        ControlActionKind::CancelCandidate => ControlRoute::CancelCandidate,
        ControlActionKind::RequestTaskChange => ControlRoute::RequestTaskChange,
        ControlActionKind::ResumeTask => ControlRoute::ResumeTask,
        _ => ControlRoute::Nothing,
    }
}

/// Routes a control action; one that consumes a window must carry its
/// decision token.
pub fn route_control_action(action: &ControlAction) -> (r: Result<ControlRoute, LoomHarnessError>)
    ensures
        requires_decision_token_spec(action@.kind) && action@.decision_token is None ==> (r matches Err(
            e,
        ) && e@ == LoomHarnessErrorView::MissingDecisionToken),
        !(requires_decision_token_spec(action@.kind) && action@.decision_token is None) ==> r == Ok::<
            ControlRoute,
            LoomHarnessError,
        >(control_route_spec(action@.kind)),
{
    if requires_decision_token(&action.kind) && action.decision_token.is_none() {
        return Err(LoomHarnessError::MissingDecisionToken);
    }
    match action.kind {
        ControlActionKind::ApproveStart => Ok(ControlRoute::ApproveStart),
        ControlActionKind::ModifyCandidate => Ok(ControlRoute::ModifyCandidate),
        ControlActionKind::CancelCandidate => Ok(ControlRoute::CancelCandidate),
        ControlActionKind::RequestTaskChange => Ok(ControlRoute::RequestTaskChange),
        ControlActionKind::ResumeTask => Ok(ControlRoute::ResumeTask),
        _ => Ok(ControlRoute::Nothing),
    }
}

} // verus!
