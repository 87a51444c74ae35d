//! The records a control action must find before the harness acts on it,
//! and the refusals when one is missing.
use crate::harness::error::{LoomHarnessError, LoomHarnessErrorView};
use crate::model::ingress::{ControlAction, HostCapabilitySnapshot};
use crate::model::task::{ManagedTask, PendingDecisionWindow};
use crate::text::owned;
use vstd::prelude::*;

verus! {

/// The decision token a window-consuming action must carry.
pub fn required_decision_token(action: &ControlAction) -> (r: Result<String, LoomHarnessError>)
    ensures
        match action@.decision_token {
            Some(t) => r matches Ok(x) && x@ == t,
            None => r matches Err(e) && e@ == LoomHarnessErrorView::MissingDecisionToken,
        },
{
    match &action.decision_token {
        Some(t) => Ok(t.clone()),
        None => Err(LoomHarnessError::MissingDecisionToken),
    }
}

/// The task an action on a window applies to: the one the action names,
/// else the window's.
pub open spec fn action_task_ref_spec(
    action_task_ref: Option<Seq<char>>,
    window_task_ref: Seq<char>,
) -> Seq<char> {
    match action_task_ref {
        Some(r) => r,
        None => window_task_ref,
    }
}

/// The task an action applies to, once the window its token opens is looked
/// up: refused as stale when no open window matched.
pub fn window_task_ref(action: &ControlAction, window: Option<&PendingDecisionWindow>) -> (r: Result<
    String,
    LoomHarnessError,
>)
    ensures
        match window {
            None => r matches Err(e) && e@ == LoomHarnessErrorView::StaleDecisionToken,
            Some(w) => r matches Ok(x) && x@ == action_task_ref_spec(
                action@.managed_task_ref,
                w@.managed_task_ref,
            ),
        },
{
    match window {
        None => Err(LoomHarnessError::StaleDecisionToken),
        Some(w) => match &action.managed_task_ref {
            Some(t) => Ok(t.clone()),
            None => Ok(w.managed_task_ref.clone()),
        },
    }
}

/// The task looked up by its reference, or the refusal that it is unknown.
pub fn found_task(task: Option<ManagedTask>, managed_task_ref: &str) -> (r: Result<
    ManagedTask,
    LoomHarnessError,
>)
    ensures
        match task {
            Some(t) => r matches Ok(x) && x@ == t@,
            None => r matches Err(e) && e@ == LoomHarnessErrorView::ManagedTaskNotFound(managed_task_ref@),
        },
{
    match task {
        Some(t) => Ok(t),
        None => Err(LoomHarnessError::ManagedTaskNotFound(owned(managed_task_ref))),
    }
}

/// The session's latest capability snapshot, or the refusal that the host
/// has reported none.
pub fn found_capability(capability: Option<HostCapabilitySnapshot>, host_session_id: &str) -> (r:
    Result<HostCapabilitySnapshot, LoomHarnessError>)
    ensures
        match capability {
            Some(c) => r matches Ok(x) && x@ == c@,
            None => r matches Err(e) && e@ == LoomHarnessErrorView::MissingCapabilitySnapshot(
                host_session_id@,
            ),
        },
{
    match capability {
        Some(c) => Ok(c),
        None => Err(LoomHarnessError::MissingCapabilitySnapshot(owned(host_session_id))),
    }
}

} // verus!
