//! Routing a semantic decision by its lane, opening a managed-task candidate
//! with its start window and card, and modifying or cancelling it there.
use crate::harness::error::{LoomHarnessError, LoomHarnessErrorView};
use crate::harness::support::{accepts_drafts, default_pack_ref, to_requirement_items};
use crate::harness::task_change::{apply_task_change_payload, or_else, task_change_applied};
use crate::model::ids::{is_millis_text, is_minted_id, new_id, now_timestamp};
use crate::model::ingress::{
    ControlActionKind, ControlActionPayload, CurrentTurnEnvelope, IngressMeta,
    LegacySemanticDecisionEnvelope, LegacySemanticDecisionEnvelopeView,
};
use crate::model::outbound::{
    default_render_hint, RenderHint, StartCardAction, StartCardPayload, StartCardPayloadView,
};
use crate::model::shared::{InteractionLane, TaskActivationReason, WorkflowStage};
use crate::model::task::{
    ManagedTask, ManagedTaskView, PendingDecisionWindow, PendingDecisionWindowKind,
    PendingDecisionWindowStatus, PendingDecisionWindowView, RequirementOrigin,
};
use crate::text::owned;
use vstd::prelude::*;

verus! {

/// Where a semantic decision leads, by its lane.
pub enum LaneRoute {
    /// Plain chat: nothing to do.
    Chat,
    /// A new managed-task candidate is opened.
    OpenCandidate,
    /// The named active task must exist.
    CheckActiveTask(String),
}

/// Routes a semantic decision by its lane; an active-lane decision must name
/// its task.
pub fn route_semantic_decision(decision: &LegacySemanticDecisionEnvelope) -> (r: Result<
    LaneRoute,
    LoomHarnessError,
>)
    ensures
        decision@.interaction_lane == InteractionLane::Chat ==> r matches Ok(LaneRoute::Chat),
        decision@.interaction_lane == InteractionLane::ManagedTaskCandidate ==> r matches Ok(
            LaneRoute::OpenCandidate,
        ),
        decision@.interaction_lane == InteractionLane::ManagedTaskActive ==> match decision@.managed_task_ref {
            Some(t) => r matches Ok(LaneRoute::CheckActiveTask(x)) && x@ == t,
            None => r matches Err(e) && e@ == LoomHarnessErrorView::MissingManagedTaskRefForActiveLane,
        },
{
    match decision.interaction_lane {
        InteractionLane::Chat => Ok(LaneRoute::Chat),
        InteractionLane::ManagedTaskCandidate => Ok(LaneRoute::OpenCandidate),
        InteractionLane::ManagedTaskActive => match &decision.managed_task_ref {
            Some(t) => Ok(LaneRoute::CheckActiveTask(t.clone())),
            None => Err(LoomHarnessError::MissingManagedTaskRefForActiveLane),
        },
    }
}

/// The title a candidate gets when the decision gives none.
pub open spec fn default_title() -> Seq<char> {
    "Managed task"@
}

/// The expected outcome a candidate gets when the decision gives none.
pub open spec fn default_expected_outcome() -> Seq<char> {
    "Deliver the requested coding change"@
}

/// `task` is the candidate a decision opens: the decision's semantics and
/// texts, with defaults where it gives none (its title standing in for a
/// missing summary), its requirements accepted as initial ones, no scope,
/// run or result yet.
pub open spec fn candidate_task_spec(d: LegacySemanticDecisionEnvelopeView, task: ManagedTaskView) -> bool {
    &&& match d.managed_task_ref {
        Some(r) => task.managed_task_ref == r,
        None => is_minted_id(task.managed_task_ref, "task"@),
    }
    &&& d.managed_task_class == Some(task.managed_task_class)
    &&& d.work_horizon == Some(task.work_horizon)
    &&& task.activation_reason == or_else(d.task_activation_reason, TaskActivationReason::ExplicitStartTask)
    &&& task.host_session_id == d.host_session_id
    &&& task.workflow_stage == WorkflowStage::Candidate
    &&& task.title == or_else(d.title, default_title())
    &&& task.summary == or_else(d.summary, or_else(d.title, default_title()))
    &&& task.expected_outcome == or_else(d.expected_outcome, default_expected_outcome())
    &&& task.workspace_ref == d.workspace_ref
    &&& task.repo_ref == d.repo_ref
    &&& task.allowed_roots == d.allowed_roots
    &&& task.secret_classes == d.secret_classes
    &&& accepts_drafts(task.requirement_items, d.requirement_items, RequirementOrigin::InitialDecision)
    &&& task.current_scope_ref is None
    &&& task.current_scope_version is None
    &&& task.current_baseline_risk_ref is None
    &&& task.current_execution_authorization_ref is None
    &&& task.current_pending_window_ref is None
    &&& task.active_run_ref is None
    &&& task.spec_bundle is None
    &&& task.phase_plan is None
    &&& task.agent_binding is None
    &&& task.review_result is None
    &&& task.proof_of_work_bundle is None
    &&& task.result_contract is None
    &&& is_millis_text(task.created_at)
    &&& is_millis_text(task.updated_at)
}

fn text_or(value: &Option<String>, default: &str) -> (r: String)
    ensures
        r@ == or_else(value.deep_view(), default@),
{
    match value {
        Some(v) => v.clone(),
        None => owned(default),
    }
}

/// Opens the candidate a decision stands for; a decision without its task
/// class or work horizon is refused.
pub fn build_candidate_task(decision: &LegacySemanticDecisionEnvelope) -> (r: Result<
    ManagedTask,
    LoomHarnessError,
>)
    ensures
        (decision@.managed_task_class is None || decision@.work_horizon is None) ==> (r matches Err(
            e,
        ) && e@ == LoomHarnessErrorView::MissingManagedTaskSemantics),
        (decision@.managed_task_class is Some && decision@.work_horizon is Some) ==> (r matches Ok(
            t,
        ) && candidate_task_spec(decision@, t@)),
{
    let class = match decision.managed_task_class {
        Some(c) => c,
        None => {
            return Err(LoomHarnessError::MissingManagedTaskSemantics);
        },
    };
    let horizon = match decision.work_horizon {
        Some(h) => h,
        None => {
            return Err(LoomHarnessError::MissingManagedTaskSemantics);
        },
    };
    let activation = match decision.task_activation_reason {
        Some(a) => a,
        None => TaskActivationReason::ExplicitStartTask,
    };
    let managed_task_ref = match &decision.managed_task_ref {
        Some(r) => r.clone(),
        None => new_id("task"),
    };
    let title = text_or(&decision.title, "Managed task");
    let summary = match &decision.summary {
        Some(s) => s.clone(),
        None => text_or(&decision.title, "Managed task"),
    };
    let expected_outcome = text_or(&decision.expected_outcome, "Deliver the requested coding change");
    let requirement_items = to_requirement_items(
        &decision.requirement_items,
        RequirementOrigin::InitialDecision,
    );
    let roots = decision.allowed_roots.clone();
    assert(roots.deep_view() =~= decision.allowed_roots.deep_view());
    let classes = decision.secret_classes.clone();
    assert(classes.deep_view() =~= decision.secret_classes.deep_view());
    Ok(ManagedTask {
        managed_task_ref,
        host_session_id: decision.host_session_id.clone(),
        managed_task_class: class,
        work_horizon: horizon,
        activation_reason: activation,
        workflow_stage: WorkflowStage::Candidate,
        title,
        summary,
        expected_outcome,
        workspace_ref: match &decision.workspace_ref {
            Some(w) => Some(w.clone()),
            None => None,
        },
        repo_ref: match &decision.repo_ref {
            Some(w) => Some(w.clone()),
            None => None,
        },
        allowed_roots: roots,
        secret_classes: classes,
        requirement_items,
        current_scope_ref: None,
        current_scope_version: None,
        current_baseline_risk_ref: None,
        current_execution_authorization_ref: None,
        current_pending_window_ref: None,
        active_run_ref: None,
        spec_bundle: None,
        phase_plan: None,
        agent_binding: None,
        review_result: None,
        proof_of_work_bundle: None,
        result_contract: None,
        created_at: now_timestamp(),
        updated_at: now_timestamp(),
    })
}

/// A candidate's start window, given its identifiers and time.
pub open spec fn candidate_window_spec(
    managed_task_ref: Seq<char>,
    source_decision_ref: Option<Seq<char>>,
    supersedes: Option<Seq<char>>,
    window_id: Seq<char>,
    decision_token: Seq<char>,
    opened_at: Seq<char>,
) -> PendingDecisionWindowView {
    PendingDecisionWindowView {
        window_id,
        managed_task_ref,
        kind: PendingDecisionWindowKind::StartCandidate,
        decision_token,
        source_decision_ref,
        status: PendingDecisionWindowStatus::Open,
        allowed_actions: seq![
            ControlActionKind::ApproveStart,
            ControlActionKind::ModifyCandidate,
            ControlActionKind::CancelCandidate,
        ],
        opened_reason: "managed task candidate requires explicit start approval"@,
        opened_at,
        expires_at: None,
        supersedes,
    }
}

/// The start card that asks the user to approve, modify or cancel a
/// candidate.
pub open spec fn start_card_spec(task: ManagedTaskView, decision_token: Seq<char>) -> StartCardPayloadView {
    StartCardPayloadView {
        managed_task_ref: task.managed_task_ref,
        decision_token,
        managed_task_class: task.managed_task_class,
        work_horizon: task.work_horizon,
        task_activation_reason: task.activation_reason,
        title: task.title,
        summary: task.summary,
        expected_outcome: task.expected_outcome,
        recommended_pack_ref: Some(default_pack_ref()),
        allowed_actions: seq![
            StartCardAction::ApproveStart,
            StartCardAction::ModifyCandidate,
            StartCardAction::CancelCandidate,
        ],
        render_hint: default_render_hint(),
    }
}

/// A newly opened start window and the card that goes with it.
pub struct CandidateWindow {
    pub window: PendingDecisionWindow,
    pub card: StartCardPayload,
}

/// Opens a fresh start window for a candidate, resting on the judgment that
/// proposed it and superseding an earlier window if given; the task points
/// at the new window.
pub fn reopen_candidate_window(
    task: &mut ManagedTask,
    source_decision_ref: Option<String>,
    supersedes: Option<String>,
) -> (r: CandidateWindow)
    ensures
        r.window@ == candidate_window_spec(
            old(task)@.managed_task_ref,
            source_decision_ref.deep_view(),
            supersedes.deep_view(),
            r.window@.window_id,
            r.window@.decision_token,
            r.window@.opened_at,
        ),
        is_minted_id(r.window@.window_id, "window"@),
        is_minted_id(r.window@.decision_token, "decision"@),
        r.card@ == start_card_spec(old(task)@, r.window@.decision_token),
        final(task)@ == (ManagedTaskView {
            current_pending_window_ref: Some(r.window@.window_id),
            updated_at: final(task)@.updated_at,
            ..old(task)@
        }),
        is_millis_text(final(task)@.updated_at),
{
    let mut allowed: Vec<ControlActionKind> = Vec::new();
    allowed.push(ControlActionKind::ApproveStart);
    allowed.push(ControlActionKind::ModifyCandidate);
    allowed.push(ControlActionKind::CancelCandidate);
    let window = PendingDecisionWindow {
        window_id: new_id("window"),
        managed_task_ref: task.managed_task_ref.clone(),
        kind: PendingDecisionWindowKind::StartCandidate,
        decision_token: new_id("decision"),
        source_decision_ref,
        status: PendingDecisionWindowStatus::Open,
        allowed_actions: allowed,
        opened_reason: owned("managed task candidate requires explicit start approval"),
        opened_at: now_timestamp(),
        expires_at: None,
        supersedes,
    };
    assert(window@.allowed_actions =~= seq![
        ControlActionKind::ApproveStart,
        ControlActionKind::ModifyCandidate,
        ControlActionKind::CancelCandidate,
    ]);
    let mut actions: Vec<StartCardAction> = Vec::new();
    actions.push(StartCardAction::ApproveStart);
    actions.push(StartCardAction::ModifyCandidate);
    actions.push(StartCardAction::CancelCandidate);
    let card = StartCardPayload {
        managed_task_ref: task.managed_task_ref.clone(),
        decision_token: window.decision_token.clone(),
        managed_task_class: task.managed_task_class,
        work_horizon: task.work_horizon,
        task_activation_reason: task.activation_reason,
        title: task.title.clone(),
        summary: task.summary.clone(),
        expected_outcome: task.expected_outcome.clone(),
        recommended_pack_ref: Some(owned("coding_pack")),
        allowed_actions: actions,
        render_hint: RenderHint::default(),
    };
    proof {
        reveal_strlit("coding_pack");
    }
    assert(card@.allowed_actions =~= seq![
        StartCardAction::ApproveStart,
        StartCardAction::ModifyCandidate,
        StartCardAction::CancelCandidate,
    ]);
    task.current_pending_window_ref = Some(window.window_id.clone());
    task.updated_at = now_timestamp();
    CandidateWindow { window, card }
}

/// A candidate opened with its start window and card.
pub struct OpenedCandidate {
    pub task: ManagedTask,
    pub window: CandidateWindow,
}

/// Opens the candidate a decision stands for, with a start window resting on
/// that decision; a decision without its task class or work horizon is
/// refused.
pub fn open_candidate(decision: &LegacySemanticDecisionEnvelope) -> (r: Result<
    OpenedCandidate,
    LoomHarnessError,
>)
    ensures
        (decision@.managed_task_class is None || decision@.work_horizon is None) ==> (r matches Err(
            e,
        ) && e@ == LoomHarnessErrorView::MissingManagedTaskSemantics),
        (decision@.managed_task_class is Some && decision@.work_horizon is Some) ==> (r matches Ok(
            c,
        ) && {
            &&& candidate_task_spec(
                decision@,
                ManagedTaskView { current_pending_window_ref: None, ..c.task@ },
            )
            &&& c.task@.current_pending_window_ref == Some(c.window.window@.window_id)
            &&& c.window.window@ == candidate_window_spec(
                c.task@.managed_task_ref,
                Some(decision@.decision_id),
                None,
                c.window.window@.window_id,
                c.window.window@.decision_token,
                c.window.window@.opened_at,
            )
            &&& c.window.card@ == start_card_spec(c.task@, c.window.window@.decision_token)
        }),
{
    let mut task = match build_candidate_task(decision) {
        Err(e) => {
            return Err(e);
        },
        Ok(t) => t,
    };
    let window = reopen_candidate_window(&mut task, Some(decision.decision_id.clone()), None);
    Ok(OpenedCandidate { task, window })
}

/// Modifies a candidate through its start window: the requested changes are
/// applied as for a change request, and a fresh window resting on the same
/// judgment and superseding the consumed one is opened.
pub fn modify_candidate(
    task: &mut ManagedTask,
    payload: &ControlActionPayload,
    consumed: &PendingDecisionWindow,
) -> (r: CandidateWindow)
    ensures
        ({
            let changed = ManagedTaskView {
                current_pending_window_ref: old(task)@.current_pending_window_ref,
                updated_at: old(task)@.updated_at,
                ..final(task)@
            };
            &&& task_change_applied(old(task)@, payload@, changed)
            &&& final(task)@.current_pending_window_ref == Some(r.window@.window_id)
            &&& r.window@ == candidate_window_spec(
                old(task)@.managed_task_ref,
                consumed@.source_decision_ref,
                Some(consumed@.window_id),
                r.window@.window_id,
                r.window@.decision_token,
                r.window@.opened_at,
            )
            &&& r.card@ == start_card_spec(changed, r.window@.decision_token)
        }),
{
    apply_task_change_payload(task, payload);
    let ghost changed = task@;
    let source = match &consumed.source_decision_ref {
        Some(s) => Some(s.clone()),
        None => None,
    };
    let r = reopen_candidate_window(task, source, Some(consumed.window_id.clone()));
    assert(changed =~= ManagedTaskView {
        current_pending_window_ref: changed.current_pending_window_ref,
        updated_at: changed.updated_at,
        ..task@
    });
    r
}

/// Cancels a candidate: the task closes with no window pending.
pub fn cancel_candidate(task: &mut ManagedTask)
    ensures
        final(task)@ == (ManagedTaskView {
            workflow_stage: WorkflowStage::Closed,
            current_pending_window_ref: None,
            updated_at: final(task)@.updated_at,
            ..old(task)@
        }),
        is_millis_text(final(task)@.updated_at),
{
    task.workflow_stage = WorkflowStage::Closed;
    task.current_pending_window_ref = None;
    task.updated_at = now_timestamp();
}

/// The workspace a host turn is attributed to when it names none.
pub open spec fn default_workspace_ref() -> Seq<char> {
    "/Users/codez/.openclaw"@
}

/// A host turn for a session, under fresh ingress metadata and a fresh
/// message reference, attributed to the default workspace and repository.
pub fn build_current_turn(host_session_id: String, text: String) -> (r: CurrentTurnEnvelope)
    ensures
        r@.host_session_id == host_session_id@,
        r@.text == text@,
        r@.host_message_ref matches Some(m) && is_minted_id(m, "host-message"@),
        r@.workspace_ref == Some(default_workspace_ref()),
        r@.repo_ref == Some("openclaw"@),
        is_minted_id(r@.meta.ingress_id, "ingress"@),
        is_minted_id(r@.meta.correlation_id, "corr"@),
        r@.meta.causation_id is None,
        r@.meta.dedupe_window == "PT10M"@,
        is_millis_text(r@.meta.received_at),
{
    CurrentTurnEnvelope {
        meta: IngressMeta::default(),
        host_session_id,
        host_message_ref: Some(new_id("host-message")),
        text,
        workspace_ref: Some(owned("/Users/codez/.openclaw")),
        repo_ref: Some(owned("openclaw")),
    }
}

} // verus!
