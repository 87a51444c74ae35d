//! Reissuing a task's authorization: after the host's capabilities drift,
//! when the task is resumed, and when a proposed action narrows it.
use crate::approval::{authorization_spec, issue_execution_authorization};
use crate::harness::error::{FlowError, FlowErrorView};
use crate::model::authorization::{ExecutionAuthorization, ExecutionAuthorizationView};
use crate::model::ids::{is_millis_text, is_minted_id, new_id, now_timestamp};
use crate::model::ingress::{
    ControlAction, ControlActionKind, HostCapabilitySnapshot, HostCapabilitySnapshotView,
};
use crate::model::outbound::{
    ApprovalRequestAction, ApprovalRequestPayload, ApprovalRequestPayloadView, ApprovalScope,
    HostTextMode, RenderEmphasis, RenderHint, RenderHintView, RenderTone, ToolDecisionPayload,
    ToolDecisionPayloadView, ToolDecisionValue, default_render_hint,
};
use crate::model::risk::{ProposedAction, RiskAssessment, RiskAssessmentView, RiskBand, RiskConsequence};
use crate::model::task::{
    IsolatedTaskRun, ManagedTask, ManagedTaskView, PendingDecisionWindow, PendingDecisionWindowKind,
    PendingDecisionWindowStatus, PendingDecisionWindowView, TaskScopeSnapshot,
};
use crate::risk::{
    action_override_spec, any_sensitive, assess_action_override, assess_task_baseline, band_rank,
    law_override_consequences, law_override_critical_triggers, task_baseline_spec,
};
use crate::text::{owned, push_str, str_eq};
use vstd::prelude::*;

verus! {

// ---------------------------------------------------------------------------
// Capability drift
// ---------------------------------------------------------------------------

/// Two snapshots differ in what they let a task do: its tools, roots, secret
/// classes, budget, agents, or its spawn, pause, resume and interrupt
/// support.
pub open spec fn capabilities_differ(a: HostCapabilitySnapshotView, b: HostCapabilitySnapshotView) -> bool {
    ||| a.allowed_tools != b.allowed_tools
    ||| a.readable_roots != b.readable_roots
    ||| a.writable_roots != b.writable_roots
    ||| a.secret_classes != b.secret_classes
    ||| a.max_budget_band != b.max_budget_band
    ||| a.supports_spawn_agents != b.supports_spawn_agents
    ||| a.available_agent_ids != b.available_agent_ids
    ||| a.supports_pause != b.supports_pause
    ||| a.supports_resume != b.supports_resume
    ||| a.supports_interrupt != b.supports_interrupt
}

/// A new snapshot calls for a reissue only when an earlier one exists and
/// the two differ in what they let a task do.
pub open spec fn should_reissue_spec(
    before: Option<HostCapabilitySnapshotView>,
    snapshot: HostCapabilitySnapshotView,
) -> bool {
    match before {
        None => false,
        Some(b) => capabilities_differ(b, snapshot),
    }
}

/// Whether two lists of texts are the same.
pub fn texts_equal(a: &Vec<String>, b: &Vec<String>) -> (r: bool)
    ensures
        r == (a.deep_view() == b.deep_view()),
{
    let ghost av = a.deep_view();
    let ghost bv = b.deep_view();
    if a.len() != b.len() {
        return false;
    }
    let mut i: usize = 0;
    while i < a.len()
        invariant
            av == a.deep_view(),
            bv == b.deep_view(),
            av.len() == bv.len(),
            i <= av.len(),
            forall|k: int| 0 <= k < i ==> av[k] == bv[k],
        decreases a.len() - i,
    {
        assert(av[i as int] == a[i as int]@ && bv[i as int] == b[i as int]@);
        if !str_eq(a[i].as_str(), b[i].as_str()) {
            return false;
        }
        i += 1;
    }
    assert(av =~= bv);
    true
}

/// Whether a new snapshot calls for a reissue.
pub fn should_reissue(before: Option<&HostCapabilitySnapshot>, snapshot: &HostCapabilitySnapshot) -> (r:
    bool)
    ensures
        r == should_reissue_spec(
            match before {
                Some(b) => Some(b@),
                None => None,
            },
            snapshot@,
        ),
{
    match before {
        None => false,
        Some(b) => {
            !texts_equal(&b.allowed_tools, &snapshot.allowed_tools) || !texts_equal(
                &b.readable_roots,
                &snapshot.readable_roots,
            ) || !texts_equal(&b.writable_roots, &snapshot.writable_roots) || !texts_equal(
                &b.secret_classes,
                &snapshot.secret_classes,
            ) || b.max_budget_band != snapshot.max_budget_band || b.supports_spawn_agents
                != snapshot.supports_spawn_agents || !texts_equal(
                &b.available_agent_ids,
                &snapshot.available_agent_ids,
            ) || b.supports_pause != snapshot.supports_pause || b.supports_resume
                != snapshot.supports_resume || b.supports_interrupt != snapshot.supports_interrupt
        },
    }
}

/// What a reissue leaves: possibly a new baseline, the authorization it
/// supersedes, if any, the new authorization, and the task pointing at them.
pub struct Reissue {
    pub task: ManagedTask,
    pub baseline: Option<RiskAssessment>,
    pub superseded_authorization_id: Option<String>,
    pub authorization: ExecutionAuthorization,
}

/// The reference of an optional authorization.
pub open spec fn authorization_id_of(auth: Option<ExecutionAuthorizationView>) -> Option<Seq<char>> {
    match auth {
        Some(a) => Some(a.authorization_id),
        None => None,
    }
}

fn optional_authorization_id(auth: Option<&ExecutionAuthorization>) -> (r: Option<String>)
    ensures
        r.deep_view() == authorization_id_of(
            match auth {
                Some(a) => Some(a@),
                None => None,
            },
        ),
{
    match auth {
        Some(a) => Some(a.authorization_id.clone()),
        None => None,
    }
}

/// Answers a capability drift on an active task: the baseline is reassessed
/// under the new snapshot in place of the previous one, and the task's
/// authorization, if it still has one, is superseded by a reissued one.
pub fn plan_capability_reissue(
    task: ManagedTask,
    scope: &TaskScopeSnapshot,
    snapshot: &HostCapabilitySnapshot,
    run: &IsolatedTaskRun,
    previous_baseline: &RiskAssessment,
    previous_auth: Option<&ExecutionAuthorization>,
) -> (r: Reissue)
    ensures
        r.baseline matches Some(b) && {
            &&& b@ == task_baseline_spec(
                task@,
                scope@,
                snapshot@,
                "capability drift requires baseline refresh"@,
                Some(previous_baseline@.assessment_id),
                b@.assessment_id,
                b@.assessed_at,
            )
            &&& is_minted_id(b@.assessment_id, "risk"@)
            &&& r.authorization@ == authorization_spec(
                task@.managed_task_ref,
                run@,
                snapshot@,
                scope@,
                b@,
                "capability drift reissue"@,
                r.superseded_authorization_id.deep_view(),
                false,
                r.authorization@.authorization_id,
                r.authorization@.issued_at,
            )
            &&& r.task@ == (ManagedTaskView {
                current_baseline_risk_ref: Some(b@.assessment_id),
                current_execution_authorization_ref: Some(r.authorization@.authorization_id),
                updated_at: r.task@.updated_at,
                ..task@
            })
        },
        r.superseded_authorization_id.deep_view() == authorization_id_of(
            match previous_auth {
                Some(a) => Some(a@),
                None => None,
            },
        ),
        is_minted_id(r.authorization@.authorization_id, "auth"@),
        is_millis_text(r.task@.updated_at),
{
    let mut task = task;
    let baseline = assess_task_baseline(
        &task,
        scope,
        snapshot,
        owned("capability drift requires baseline refresh"),
        Some(previous_baseline.assessment_id.clone()),
    );
    let superseded = optional_authorization_id(previous_auth);
    let supersedes = match &superseded {
        Some(s) => Some(s.clone()),
        None => None,
    };
    let auth = issue_execution_authorization(
        task.managed_task_ref.clone(),
        run,
        snapshot,
        scope,
        &baseline,
        owned("capability drift reissue"),
        supersedes,
        false,
    );
    task.current_baseline_risk_ref = Some(baseline.assessment_id.clone());
    task.current_execution_authorization_ref = Some(auth.authorization_id.clone());
    task.updated_at = now_timestamp();
    Reissue { task, baseline: Some(baseline), superseded_authorization_id: superseded, authorization: auth }
}

// ---------------------------------------------------------------------------
// Resuming a task
// ---------------------------------------------------------------------------

/// The text of a resume request that names no task.
pub open spec fn resume_without_task_text() -> Seq<char> {
    "resume_task requires managed_task_ref"@
}

/// The task a resume request names.
pub fn resume_target(action: &ControlAction) -> (r: Result<String, FlowError>)
    ensures
        match action@.managed_task_ref {
            Some(t) => r matches Ok(x) && x@ == t,
            None => r matches Err(e) && e@ == FlowErrorView::Other(resume_without_task_text()),
        },
{
    match &action.managed_task_ref {
        Some(t) => Ok(t.clone()),
        None => Err(FlowError::Other(owned("resume_task requires managed_task_ref"))),
    }
}

/// Resumes a task: its authorization is reissued under the current scope,
/// baseline and capabilities, superseding the previous one if there is one.
/// The task itself is left as it is.
pub fn plan_resume(
    managed_task_ref: &str,
    task: ManagedTask,
    run: &IsolatedTaskRun,
    capability: &HostCapabilitySnapshot,
    scope: &TaskScopeSnapshot,
    baseline: &RiskAssessment,
    previous_auth: Option<&ExecutionAuthorization>,
) -> (r: Reissue)
    ensures
        r.baseline is None,
        r.task@ == task@,
        r.superseded_authorization_id.deep_view() == authorization_id_of(
            match previous_auth {
                Some(a) => Some(a@),
                None => None,
            },
        ),
        r.authorization@ == authorization_spec(
            managed_task_ref@,
            run@,
            capability@,
            scope@,
            baseline@,
            "resume_task reissue"@,
            r.superseded_authorization_id.deep_view(),
            false,
            r.authorization@.authorization_id,
            r.authorization@.issued_at,
        ),
        is_minted_id(r.authorization@.authorization_id, "auth"@),
{
    let superseded = optional_authorization_id(previous_auth);
    let supersedes = match &superseded {
        Some(s) => Some(s.clone()),
        None => None,
    };
    let auth = issue_execution_authorization(
        owned(managed_task_ref),
        run,
        capability,
        scope,
        baseline,
        owned("resume_task reissue"),
        supersedes,
        false,
    );
    Reissue { task, baseline: None, superseded_authorization_id: superseded, authorization: auth }
}

// ---------------------------------------------------------------------------
// Proposed actions
// ---------------------------------------------------------------------------

/// The reason an override assessment records.
pub open spec fn override_reason_spec(proposal_reason: Seq<char>) -> Seq<char> {
    "proposed action override: "@ + proposal_reason
}

/// The debug name of a risk band.
pub open spec fn band_name(band: RiskBand) -> Seq<char> {
    match band {
        RiskBand::Low => "Low"@,
        RiskBand::Medium => "Medium"@,
        RiskBand::High => "High"@,
        RiskBand::Critical => "Critical"@,
    }
}

fn band_name_text(band: RiskBand) -> (r: &'static str)
    ensures
        r@ == band_name(band),
{
    match band {
        RiskBand::Low => "Low",
        RiskBand::Medium => "Medium",
        RiskBand::High => "High",
        RiskBand::Critical => "Critical",
    }
}

/// The render hint of a request that blocks until the user answers.
pub open spec fn blocking_hint() -> RenderHintView {
    RenderHintView {
        tone: RenderTone::Blocking,
        emphasis: RenderEmphasis::Strong,
        host_text_mode: HostTextMode::StructuredText,
    }
}

/// The approval window a risky action opens, given its identifiers and time.
pub open spec fn approval_window_spec(
    managed_task_ref: Seq<char>,
    reason: Seq<char>,
    window_id: Seq<char>,
    decision_token: Seq<char>,
    opened_at: Seq<char>,
) -> PendingDecisionWindowView {
    PendingDecisionWindowView {
        window_id,
        managed_task_ref,
        kind: PendingDecisionWindowKind::ApprovalRequest,
        decision_token,
        source_decision_ref: None,
        status: PendingDecisionWindowStatus::Open,
        allowed_actions: seq![ControlActionKind::ApproveRequest, ControlActionKind::RejectRequest],
        opened_reason: reason,
        opened_at,
        expires_at: None,
        supersedes: None,
    }
}

/// The request put to the user for a risky action.
pub open spec fn approval_request_spec(
    managed_task_ref: Seq<char>,
    decision_token: Seq<char>,
    assessment: RiskAssessmentView,
) -> ApprovalRequestPayloadView {
    ApprovalRequestPayloadView {
        managed_task_ref,
        decision_token,
        approval_scope: ApprovalScope::ToolExecution,
        allowed_actions: seq![ApprovalRequestAction::ApproveRequest, ApprovalRequestAction::RejectRequest],
        why_now: assessment.trigger_reason,
        risk_summary: "overall_risk_band="@ + band_name(assessment.overall_risk_band),
        render_hint: blocking_hint(),
    }
}

/// How the host is answered about a proposed action: with a request for the
/// user's approval under a new window, or with an allowing decision.
pub enum ProposalResponse {
    Approval { window: PendingDecisionWindow, request: ApprovalRequestPayload },
    Allow(ToolDecisionPayload),
}

/// What evaluating a proposed action leaves.
pub struct ProposalPlan {
    pub assessment: RiskAssessment,
    pub task: ManagedTask,
    pub superseded_authorization_id: Option<String>,
    pub narrowed_authorization: Option<ExecutionAuthorization>,
    pub response: ProposalResponse,
}

fn contains_approval_window(consequences: &Vec<RiskConsequence>) -> (r: bool)
    ensures
        r == consequences.deep_view().contains(RiskConsequence::RequireApprovalWindow),
{
    assert(consequences.deep_view() =~= consequences@);
    let mut i: usize = 0;
    while i < consequences.len()
        invariant
            i <= consequences@.len(),
            consequences.deep_view() == consequences@,
            forall|k: int| 0 <= k < i ==> consequences@[k] != RiskConsequence::RequireApprovalWindow,
        decreases consequences.len() - i,
    {
        if consequences[i] == RiskConsequence::RequireApprovalWindow {
            assert(consequences.deep_view()[i as int] == RiskConsequence::RequireApprovalWindow);
            return true;
        }
        i += 1;
    }
    false
}

/// Evaluates an action the host proposes: it is assessed against the host's
/// capabilities; a current authorization is superseded by a narrowed one;
/// an assessment that requires an approval window opens one on the task and
/// asks the user, otherwise the action is allowed.
pub fn plan_proposed_action(
    proposal: &ProposedAction,
    task: ManagedTask,
    capability: &HostCapabilitySnapshot,
    scope: &TaskScopeSnapshot,
    run: &IsolatedTaskRun,
    current_auth: Option<&ExecutionAuthorization>,
) -> (r: ProposalPlan)
    ensures
        r.assessment@ == action_override_spec(
            proposal@,
            capability@,
            override_reason_spec(proposal@.reason),
            r.assessment@.assessment_id,
            r.assessment@.assessed_at,
        ),
        is_minted_id(r.assessment@.assessment_id, "risk"@),
        r.superseded_authorization_id.deep_view() == authorization_id_of(
            match current_auth {
                Some(a) => Some(a@),
                None => None,
            },
        ),
        match current_auth {
            None => r.narrowed_authorization is None,
            Some(a) => r.narrowed_authorization matches Some(n) && n@ == authorization_spec(
                proposal@.managed_task_ref,
                run@,
                capability@,
                scope@,
                r.assessment@,
                "action override narrowed authorization"@,
                Some(a@.authorization_id),
                true,
                n@.authorization_id,
                n@.issued_at,
            ),
        },
        r.task@.current_execution_authorization_ref == match r.narrowed_authorization {
            Some(n) => Some(n@.authorization_id),
            None => task@.current_execution_authorization_ref,
        },
        r.assessment@.derived_consequences.contains(RiskConsequence::RequireApprovalWindow) ==> (
        r.response matches ProposalResponse::Approval { window, request } && {
            &&& window@ == approval_window_spec(
                proposal@.managed_task_ref,
                r.assessment@.trigger_reason,
                window@.window_id,
                window@.decision_token,
                window@.opened_at,
            )
            &&& is_minted_id(window@.window_id, "window"@)
            &&& is_minted_id(window@.decision_token, "decision"@)
            &&& request@ == approval_request_spec(
                proposal@.managed_task_ref,
                window@.decision_token,
                r.assessment@,
            )
            &&& r.task@.current_pending_window_ref == Some(window@.window_id)
        }),
        !r.assessment@.derived_consequences.contains(RiskConsequence::RequireApprovalWindow) ==> (
        r.response matches ProposalResponse::Allow(d) && d@ == ToolDecisionPayloadView {
            managed_task_ref: proposal@.managed_task_ref,
            decision_value: ToolDecisionValue::Allow,
            decision_area: proposal@.decision_area,
            summary: r.assessment@.trigger_reason,
            render_hint: default_render_hint(),
        } && r.task@.current_pending_window_ref == task@.current_pending_window_ref),
        r.task@ == (ManagedTaskView {
            current_execution_authorization_ref: r.task@.current_execution_authorization_ref,
            current_pending_window_ref: r.task@.current_pending_window_ref,
            updated_at: r.task@.updated_at,
            ..task@
        }),
{
    let mut task = task;
    let mut reason = owned("proposed action override: ");
    push_str(&mut reason, proposal.reason.as_str());
    let assessment = assess_action_override(proposal, capability, reason);
    let superseded = optional_authorization_id(current_auth);
    let narrowed = match current_auth {
        None => None,
        Some(a) => {
            let n = issue_execution_authorization(
                proposal.managed_task_ref.clone(),
                run,
                capability,
                scope,
                &assessment,
                owned("action override narrowed authorization"),
                Some(a.authorization_id.clone()),
                true,
            );
            task.current_execution_authorization_ref = Some(n.authorization_id.clone());
            task.updated_at = now_timestamp();
            Some(n)
        },
    };
    if contains_approval_window(&assessment.derived_consequences) {
        let mut allowed: Vec<ControlActionKind> = Vec::new();
        allowed.push(ControlActionKind::ApproveRequest);
        allowed.push(ControlActionKind::RejectRequest);
        let window = PendingDecisionWindow {
            window_id: new_id("window"),
            managed_task_ref: proposal.managed_task_ref.clone(),
            kind: PendingDecisionWindowKind::ApprovalRequest,
            decision_token: new_id("decision"),
            source_decision_ref: None,
            status: PendingDecisionWindowStatus::Open,
            allowed_actions: allowed,
            opened_reason: assessment.trigger_reason.clone(),
            opened_at: now_timestamp(),
            expires_at: None,
            supersedes: None,
        };
        assert(window@.allowed_actions =~= seq![
            ControlActionKind::ApproveRequest,
            ControlActionKind::RejectRequest,
        ]);
        task.current_pending_window_ref = Some(window.window_id.clone());
        task.updated_at = now_timestamp();
        let mut actions: Vec<ApprovalRequestAction> = Vec::new();
        actions.push(ApprovalRequestAction::ApproveRequest);
        actions.push(ApprovalRequestAction::RejectRequest);
        let mut summary = owned("overall_risk_band=");
        push_str(&mut summary, band_name_text(assessment.overall_risk_band));
        let request = ApprovalRequestPayload {
            managed_task_ref: proposal.managed_task_ref.clone(),
            decision_token: window.decision_token.clone(),
            approval_scope: ApprovalScope::ToolExecution,
            allowed_actions: actions,
            why_now: assessment.trigger_reason.clone(),
            risk_summary: summary,
            render_hint: RenderHint {
                tone: RenderTone::Blocking,
                emphasis: RenderEmphasis::Strong,
                host_text_mode: HostTextMode::StructuredText,
            },
        };
        assert(request@.allowed_actions =~= seq![
            ApprovalRequestAction::ApproveRequest,
            ApprovalRequestAction::RejectRequest,
        ]);
        return ProposalPlan {
            assessment,
            task,
            superseded_authorization_id: superseded,
            narrowed_authorization: narrowed,
            response: ProposalResponse::Approval { window, request },
        };
    }
    let decision = ToolDecisionPayload {
        managed_task_ref: proposal.managed_task_ref.clone(),
        decision_value: ToolDecisionValue::Allow,
        decision_area: proposal.decision_area,
        summary: assessment.trigger_reason.clone(),
        render_hint: RenderHint::default(),
    };
    ProposalPlan {
        assessment,
        task,
        superseded_authorization_id: superseded,
        narrowed_authorization: narrowed,
        response: ProposalResponse::Allow(decision),
    }
}

/// A proposed action assessed High or Critical is never silently allowed:
/// its assessment requires an approval window, so evaluating it opens one
/// and asks the user. An irreversible action, one with an external side
/// effect, or one touching a sensitive secret class or writing under `/`, is
/// such an action.
pub proof fn law_risky_actions_wait_for_approval(
    proposal: crate::model::risk::ProposedActionView,
    capability: HostCapabilitySnapshotView,
    reason: Seq<char>,
    id: Seq<char>,
    at: Seq<char>,
)
    ensures
        ({
            let a = action_override_spec(proposal, capability, reason, id, at);
            &&& band_rank(a.overall_risk_band) >= 2 ==> a.derived_consequences.contains(
                RiskConsequence::RequireApprovalWindow,
            )
            &&& (proposal.irreversible || any_sensitive(proposal.secret_classes)
                || proposal.writable_roots.contains("/"@) || proposal.external_side_effect)
                ==> a.derived_consequences.contains(
                RiskConsequence::RequireApprovalWindow,
            )
        }),
{
    let a = action_override_spec(proposal, capability, reason, id, at);
    law_override_consequences(a.overall_risk_band);
    law_override_critical_triggers(proposal);
}

/// A first snapshot never calls for a reissue, nor does one that repeats the
/// earlier snapshot. A change in any of the tools, the readable or writable
/// roots, the secret classes, the budget band, the right to spawn agents, the
/// available agents or the pause, resume and interrupt support calls for one;
/// a snapshot that agrees with the earlier one in all of these does not,
/// whatever its reference, session or recording time.
pub proof fn law_capability_drift_triggers_reissue(
    before: HostCapabilitySnapshotView,
    snapshot: HostCapabilitySnapshotView,
)
    ensures
        !should_reissue_spec(None, snapshot),
        !should_reissue_spec(Some(snapshot), snapshot),
        before.allowed_tools != snapshot.allowed_tools ==> should_reissue_spec(
            Some(before),
            snapshot,
        ),
        before.readable_roots != snapshot.readable_roots ==> should_reissue_spec(
            Some(before),
            snapshot,
        ),
        before.writable_roots != snapshot.writable_roots ==> should_reissue_spec(
            Some(before),
            snapshot,
        ),
        before.secret_classes != snapshot.secret_classes ==> should_reissue_spec(
            Some(before),
            snapshot,
        ),
        before.max_budget_band != snapshot.max_budget_band ==> should_reissue_spec(
            Some(before),
            snapshot,
        ),
        before.supports_spawn_agents != snapshot.supports_spawn_agents ==> should_reissue_spec(
            Some(before),
            snapshot,
        ),
        before.available_agent_ids != snapshot.available_agent_ids ==> should_reissue_spec(
            Some(before),
            snapshot,
        ),
        before.supports_pause != snapshot.supports_pause ==> should_reissue_spec(
            Some(before),
            snapshot,
        ),
        before.supports_resume != snapshot.supports_resume ==> should_reissue_spec(
            Some(before),
            snapshot,
        ),
        before.supports_interrupt != snapshot.supports_interrupt ==> should_reissue_spec(
            Some(before),
            snapshot,
        ),
        (before.allowed_tools == snapshot.allowed_tools && before.readable_roots
            == snapshot.readable_roots && before.writable_roots == snapshot.writable_roots
            && before.secret_classes == snapshot.secret_classes && before.max_budget_band
            == snapshot.max_budget_band && before.supports_spawn_agents
            == snapshot.supports_spawn_agents && before.available_agent_ids
            == snapshot.available_agent_ids && before.supports_pause == snapshot.supports_pause
            && before.supports_resume == snapshot.supports_resume && before.supports_interrupt
            == snapshot.supports_interrupt) ==> !should_reissue_spec(Some(before), snapshot),
{
}

} // verus!
