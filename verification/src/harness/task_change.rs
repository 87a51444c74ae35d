//! Changing an approved task: the request's source judgment, the task's new
//! fields, the revised scope, and the reassessment and reissue that follow.
use crate::approval::{authorization_spec, issue_execution_authorization};
use crate::harness::error::{FlowError, FlowErrorView, LoomHarnessError, LoomHarnessErrorView};
use crate::harness::support::{
    accepts_drafts, build_status_notice, stage_package_for_workflow_stage, stage_package_spec,
    status_notice_spec, to_requirement_items,
};
use crate::model::outbound::{StatusNoticeKind, StatusNoticePayload, StatusNoticePayloadView};
use crate::model::authorization::{ExecutionAuthorization, ExecutionAuthorizationView};
use crate::model::ids::{is_millis_text, is_minted_id, new_id, now_timestamp};
use crate::model::ingress::{
    ControlAction, ControlActionPayload, ControlActionPayloadView, HostCapabilitySnapshot,
    SemanticDecisionEnvelope, SemanticDecisionEnvelopeView, SemanticDecisionKind,
    SemanticDecisionPayload,
};
use crate::model::risk::{RiskAssessment, RiskAssessmentView};
use crate::model::task::{
    IsolatedTaskRun, ManagedTask, ManagedTaskView, RequirementItem, RequirementOrigin,
    RequirementStatus, TaskScopeSnapshot, TaskScopeSnapshotView,
};
use crate::risk::{assess_task_baseline, task_baseline_spec};
use crate::text::{owned, push_str, str_eq};
use vstd::prelude::*;

verus! {

/// An optional value, or `default` when there is none.
pub open spec fn or_else<A>(value: Option<A>, default: A) -> A {
    match value {
        Some(v) => v,
        None => default,
    }
}

/// An optional value, or the fallback option when there is none.
pub open spec fn or_option<A>(value: Option<A>, fallback: Option<A>) -> Option<A> {
    match value {
        Some(v) => Some(v),
        None => fallback,
    }
}

/// A non-empty list replaces the current one; an empty one keeps it.
pub open spec fn replace_if_given(value: Seq<Seq<char>>, current: Seq<Seq<char>>) -> Seq<Seq<char>> {
    if value.len() > 0 {
        value
    } else {
        current
    }
}

/// `changed` is `task` with the requested changes: given texts and non-empty
/// lists replace the task's, given references replace the task's, and the
/// requested requirements are appended as freshly accepted task-change
/// requirements.
pub open spec fn task_change_applied(
    task: ManagedTaskView,
    p: ControlActionPayloadView,
    changed: ManagedTaskView,
) -> bool {
    let n = task.requirement_items.len();
    &&& n <= changed.requirement_items.len()
    &&& changed.requirement_items.subrange(0, n as int) == task.requirement_items
    &&& accepts_drafts(
        changed.requirement_items.subrange(n as int, changed.requirement_items.len() as int),
        p.requirement_items,
        RequirementOrigin::TaskChange,
    )
    &&& changed == ManagedTaskView {
        title: or_else(p.title, task.title),
        summary: or_else(p.summary, task.summary),
        expected_outcome: or_else(p.expected_outcome, task.expected_outcome),
        allowed_roots: replace_if_given(p.allowed_roots, task.allowed_roots),
        secret_classes: replace_if_given(p.secret_classes, task.secret_classes),
        requirement_items: changed.requirement_items,
        workspace_ref: or_option(p.workspace_ref, task.workspace_ref),
        repo_ref: or_option(p.repo_ref, task.repo_ref),
        ..task
    }
}

fn optional_copy(value: &Option<String>) -> (r: Option<String>)
    ensures
        r.deep_view() == value.deep_view(),
{
    match value {
        Some(v) => Some(v.clone()),
        None => None,
    }
}

/// Applies the requested changes of a control action to a task.
pub fn apply_task_change_payload(task: &mut ManagedTask, payload: &ControlActionPayload)
    ensures
        task_change_applied(old(task)@, payload@, final(task)@),
{
    let ghost before = task@;
    if let Some(title) = &payload.title {
        task.title = title.clone();
    }
    if let Some(summary) = &payload.summary {
        task.summary = summary.clone();
    }
    if let Some(expected) = &payload.expected_outcome {
        task.expected_outcome = expected.clone();
    }
    if payload.allowed_roots.len() > 0 {
        let roots = payload.allowed_roots.clone();
        assert(roots.deep_view() =~= payload.allowed_roots.deep_view());
        task.allowed_roots = roots;
    }
    if payload.secret_classes.len() > 0 {
        let classes = payload.secret_classes.clone();
        assert(classes.deep_view() =~= payload.secret_classes.deep_view());
        task.secret_classes = classes;
    }
    let mut added = to_requirement_items(&payload.requirement_items, RequirementOrigin::TaskChange);
    let ghost items_before = task.requirement_items.deep_view();
    let ghost added_view = added.deep_view();
    task.requirement_items.append(&mut added);
    proof {
        assert(task.requirement_items.deep_view() =~= items_before + added_view);
        let n = items_before.len();
        let all = task.requirement_items.deep_view();
        assert(all.subrange(0, n as int) =~= items_before);
        assert(all.subrange(n as int, all.len() as int) =~= added_view);
    }
    if let Some(w) = &payload.workspace_ref {
        task.workspace_ref = Some(w.clone());
    }
    if let Some(r) = &payload.repo_ref {
        task.repo_ref = Some(r.clone());
    }
    assert(task@ =~= ManagedTaskView {
        title: or_else(payload@.title, before.title),
        summary: or_else(payload@.summary, before.summary),
        expected_outcome: or_else(payload@.expected_outcome, before.expected_outcome),
        allowed_roots: replace_if_given(payload@.allowed_roots, before.allowed_roots),
        secret_classes: replace_if_given(payload@.secret_classes, before.secret_classes),
        requirement_items: task@.requirement_items,
        workspace_ref: or_option(payload@.workspace_ref, before.workspace_ref),
        repo_ref: or_option(payload@.repo_ref, before.repo_ref),
        ..before
    });
}

/// The source judgment a task-change request cites.
pub fn task_change_source_ref(action: &ControlAction) -> (r: Result<String, LoomHarnessError>)
    ensures
        match action@.source_decision_ref {
            Some(s) => r matches Ok(x) && x@ == s,
            None => r matches Err(e) && e@ == LoomHarnessErrorView::MissingTaskChangeSourceDecisionRef,
        },
{
    match &action.source_decision_ref {
        Some(s) => Ok(s.clone()),
        None => Err(LoomHarnessError::MissingTaskChangeSourceDecisionRef),
    }
}

/// The text of a task-change request that names no task.
pub open spec fn missing_target_text() -> Seq<char> {
    "request_task_change requires managed_task_ref"@
}

/// The task a change request applies to. A cited judgment that was never
/// stored leaves the request to name its task itself; one that is stored
/// must be a task-change judgment, the task is the one the request names,
/// else the one the judgment names, and the two may not differ.
pub open spec fn task_change_target_spec(
    action_task_ref: Option<Seq<char>>,
    source_ref: Seq<char>,
    source: Option<SemanticDecisionEnvelopeView>,
) -> Result<Seq<char>, FlowErrorView> {
    match source {
        None => match action_task_ref {
            Some(target) => Ok(target),
            None => Err(
                FlowErrorView::Harness(LoomHarnessErrorView::TaskChangeSourceDecisionNotFound(source_ref)),
            ),
        },
        Some(d) => if d.decision_kind != SemanticDecisionKind::TaskChange
            || !(d.decision_payload is TaskChange) {
            Err(FlowErrorView::Harness(LoomHarnessErrorView::InvalidTaskChangeSourceDecision))
        } else {
            match or_option(action_task_ref, d.managed_task_ref) {
                None => Err(FlowErrorView::Other(missing_target_text())),
                Some(target) => if d.managed_task_ref is Some && d.managed_task_ref != Some(target) {
                    Err(FlowErrorView::Harness(LoomHarnessErrorView::TaskChangeManagedTaskMismatch))
                } else {
                    Ok(target)
                },
            }
        },
    }
}

/// Resolves the task a change request applies to, given the judgment it
/// cites as found in the store.
pub fn resolve_task_change_target(
    action: &ControlAction,
    source_ref: &String,
    source: Option<&SemanticDecisionEnvelope>,
) -> (r: Result<String, FlowError>)
    ensures
        match task_change_target_spec(
            action@.managed_task_ref,
            source_ref@,
            match source {
                Some(d) => Some(d@),
                None => None,
            },
        ) {
            Ok(t) => r matches Ok(x) && x@ == t,
            Err(e) => r matches Err(x) && x@ == e,
        },
{
    let d = match source {
        None => {
            return match &action.managed_task_ref {
                Some(t) => Ok(t.clone()),
                None => Err(
                    FlowError::Harness(LoomHarnessError::TaskChangeSourceDecisionNotFound(source_ref.clone())),
                ),
            };
        },
        Some(d) => d,
    };
    let payload_is_change = match &d.decision_payload {
        SemanticDecisionPayload::TaskChange(_) => true,
        _ => false,
    };
    if d.decision_kind != SemanticDecisionKind::TaskChange || !payload_is_change {
        return Err(FlowError::Harness(LoomHarnessError::InvalidTaskChangeSourceDecision));
    }
    let target = match &action.managed_task_ref {
        Some(t) => t.clone(),
        None => match &d.managed_task_ref {
            Some(t) => t.clone(),
            None => {
                return Err(FlowError::Other(owned("request_task_change requires managed_task_ref")));
            },
        },
    };
    if let Some(s) = &d.managed_task_ref {
        if !str_eq(s.as_str(), target.as_str()) {
            return Err(FlowError::Harness(LoomHarnessError::TaskChangeManagedTaskMismatch));
        }
    }
    Ok(target)
}

/// Refusals of a change request that are answered by asking the user to
/// clarify the change.
pub open spec fn is_clarification_error_spec(e: FlowErrorView) -> bool {
    match e {
        FlowErrorView::Harness(h) => match h {
            LoomHarnessErrorView::MissingTaskChangeSourceDecisionRef => true,
            LoomHarnessErrorView::TaskChangeSourceDecisionNotFound(_) => true,
            LoomHarnessErrorView::InvalidTaskChangeSourceDecision => true,
            LoomHarnessErrorView::TaskChangeManagedTaskMismatch => true,
            _ => false,
        },
        FlowErrorView::Other(_) => false,
    }
}

/// Whether a refusal of a change request asks the user to clarify it.
pub fn is_task_change_clarification_error(e: &FlowError) -> (r: bool)
    ensures
        r == is_clarification_error_spec(e@),
{
    match e {
        FlowError::Harness(h) => match h {
            LoomHarnessError::MissingTaskChangeSourceDecisionRef => true,
            LoomHarnessError::TaskChangeSourceDecisionNotFound(_) => true,
            LoomHarnessError::InvalidTaskChangeSourceDecision => true,
            LoomHarnessError::TaskChangeManagedTaskMismatch => true,
            _ => false,
        },
        FlowError::Other(_) => false,
    }
}

/// The text of a failure for a task that lacks one of its records.
pub open spec fn record_missing_text(record: Seq<char>, task_ref: Seq<char>) -> Seq<char> {
    record + " missing for task "@ + task_ref
}

fn record_missing(record: &str, task_ref: &str) -> (e: FlowError)
    ensures
        e@ == FlowErrorView::Other(record_missing_text(record@, task_ref@)),
{
    let mut m = owned(record);
    push_str(&mut m, " missing for task ");
    push_str(&mut m, task_ref);
    FlowError::Other(m)
}

/// The authorization a task currently runs under.
pub fn current_authorization_ref(task: &ManagedTask) -> (r: Result<String, FlowError>)
    ensures
        match task@.current_execution_authorization_ref {
            Some(a) => r matches Ok(x) && x@ == a,
            None => r matches Err(e) && e@ == FlowErrorView::Other(
                record_missing_text("authorization"@, task@.managed_task_ref),
            ),
        },
{
    match &task.current_execution_authorization_ref {
        Some(a) => Ok(a.clone()),
        None => Err(record_missing("authorization", task.managed_task_ref.as_str())),
    }
}

/// The run a task is active in.
pub fn active_run_ref(task: &ManagedTask) -> (r: Result<String, FlowError>)
    ensures
        match task@.active_run_ref {
            Some(a) => r matches Ok(x) && x@ == a,
            None => r matches Err(e) && e@ == FlowErrorView::Other(
                record_missing_text("run"@, task@.managed_task_ref),
            ),
        },
{
    match &task.active_run_ref {
        Some(a) => Ok(a.clone()),
        None => Err(record_missing("run", task.managed_task_ref.as_str())),
    }
}

/// The scope revised by a change, given its identifier and time: the next
/// version, over the changed task, keeping the earlier scope's constraints
/// and assumptions.
pub open spec fn revised_scope_spec(
    managed_task_ref: Seq<char>,
    source_decision_ref: Seq<char>,
    task: ManagedTaskView,
    previous: TaskScopeSnapshotView,
    scope_id: Seq<char>,
    created_at: Seq<char>,
) -> TaskScopeSnapshotView {
    TaskScopeSnapshotView {
        scope_id,
        managed_task_ref,
        scope_version: (previous.scope_version + 1) as u32,
        scope_summary: task.summary,
        requirement_items: task.requirement_items,
        workspace_ref: task.workspace_ref,
        repo_ref: task.repo_ref,
        allowed_roots: task.allowed_roots,
        secret_classes: task.secret_classes,
        constraints: previous.constraints,
        assumptions: previous.assumptions,
        source_decision_ref,
        created_at,
    }
}

/// What an accepted change leaves: the changed task, its revised scope, the
/// new baseline, and the authorization reissued in place of the superseded
/// one.
pub struct TaskChangePlan {
    pub task: ManagedTask,
    pub scope: TaskScopeSnapshot,
    pub baseline: RiskAssessment,
    pub superseded_authorization_id: String,
    pub authorization: ExecutionAuthorization,
}

/// Applies an accepted change request to a task: the task takes the
/// requested changes, its scope is revised to the next version, its baseline
/// is reassessed in place of the previous one, and its authorization is
/// reissued in place of the previous one.
pub fn plan_task_change(
    managed_task_ref: &str,
    source_decision_ref: &str,
    payload: &ControlActionPayload,
    task: ManagedTask,
    capability: &HostCapabilitySnapshot,
    previous_scope: &TaskScopeSnapshot,
    previous_baseline: &RiskAssessment,
    previous_auth: &ExecutionAuthorization,
    run: &IsolatedTaskRun,
) -> (r: TaskChangePlan)
    requires
        previous_scope@.scope_version < u32::MAX,
    ensures
        task_change_applied(
            task@,
            payload@,
            ManagedTaskView {
                current_scope_ref: task@.current_scope_ref,
                current_scope_version: task@.current_scope_version,
                current_baseline_risk_ref: task@.current_baseline_risk_ref,
                current_execution_authorization_ref: task@.current_execution_authorization_ref,
                updated_at: task@.updated_at,
                ..r.task@
            },
        ),
        r.task@.current_scope_ref == Some(r.scope@.scope_id),
        r.task@.current_scope_version == Some(r.scope@.scope_version),
        r.task@.current_baseline_risk_ref == Some(r.baseline@.assessment_id),
        r.task@.current_execution_authorization_ref == Some(r.authorization@.authorization_id),
        is_millis_text(r.task@.updated_at),
        r.scope@ == revised_scope_spec(
            managed_task_ref@,
            source_decision_ref@,
            r.task@,
            previous_scope@,
            r.scope@.scope_id,
            r.scope@.created_at,
        ),
        is_minted_id(r.scope@.scope_id, "scope"@),
        is_millis_text(r.scope@.created_at),
        r.baseline@ == task_baseline_spec(
            r.task@,
            r.scope@,
            capability@,
            "request_task_change accepted"@,
            Some(previous_baseline@.assessment_id),
            r.baseline@.assessment_id,
            r.baseline@.assessed_at,
        ),
        is_minted_id(r.baseline@.assessment_id, "risk"@),
        r.superseded_authorization_id@ == previous_auth@.authorization_id,
        r.authorization@ == authorization_spec(
            managed_task_ref@,
            run@,
            capability@,
            r.scope@,
            r.baseline@,
            "scope change reissue"@,
            Some(previous_auth@.authorization_id),
            false,
            r.authorization@.authorization_id,
            r.authorization@.issued_at,
        ),
        is_minted_id(r.authorization@.authorization_id, "auth"@),
{
    let mut task = task;
    apply_task_change_payload(&mut task, payload);
    let items = task.requirement_items.clone();
    assert(items.deep_view() =~= task.requirement_items.deep_view());
    let roots = task.allowed_roots.clone();
    assert(roots.deep_view() =~= task.allowed_roots.deep_view());
    let classes = task.secret_classes.clone();
    assert(classes.deep_view() =~= task.secret_classes.deep_view());
    let constraints = previous_scope.constraints.clone();
    assert(constraints.deep_view() =~= previous_scope.constraints.deep_view());
    let assumptions = previous_scope.assumptions.clone();
    assert(assumptions.deep_view() =~= previous_scope.assumptions.deep_view());
    let scope = TaskScopeSnapshot {
        scope_id: new_id("scope"),
        managed_task_ref: owned(managed_task_ref),
        scope_version: previous_scope.scope_version + 1,
        scope_summary: task.summary.clone(),
        requirement_items: items,
        workspace_ref: optional_copy(&task.workspace_ref),
        repo_ref: optional_copy(&task.repo_ref),
        allowed_roots: roots,
        secret_classes: classes,
        constraints,
        assumptions,
        source_decision_ref: owned(source_decision_ref),
        created_at: now_timestamp(),
    };
    let baseline = assess_task_baseline(
        &task,
        &scope,
        capability,
        owned("request_task_change accepted"),
        Some(previous_baseline.assessment_id.clone()),
    );
    let auth = issue_execution_authorization(
        owned(managed_task_ref),
        run,
        capability,
        &scope,
        &baseline,
        owned("scope change reissue"),
        Some(previous_auth.authorization_id.clone()),
        false,
    );
    let ghost changed = task@;
    task.current_scope_ref = Some(scope.scope_id.clone());
    task.current_scope_version = Some(scope.scope_version);
    task.current_baseline_risk_ref = Some(baseline.assessment_id.clone());
    task.current_execution_authorization_ref = Some(auth.authorization_id.clone());
    task.updated_at = now_timestamp();
    assert(changed =~= ManagedTaskView {
        current_scope_ref: changed.current_scope_ref,
        current_scope_version: changed.current_scope_version,
        current_baseline_risk_ref: changed.current_baseline_risk_ref,
        current_execution_authorization_ref: changed.current_execution_authorization_ref,
        updated_at: changed.updated_at,
        ..task@
    });
    TaskChangePlan {
        task,
        scope,
        baseline,
        superseded_authorization_id: previous_auth.authorization_id.clone(),
        authorization: auth,
    }
}

/// The questions a clarification request puts to the user.
pub open spec fn clarification_detail() -> Seq<char> {
    "Please clarify what should change, why it should change, and whether current work should continue, pause, or rework."@
}

/// The notice asking the user to clarify a refused change: none for a task
/// without a plan or past its last stage; otherwise a blocked notice on the
/// plan entry of the task's current stage.
pub open spec fn clarification_notice_spec(task: ManagedTaskView) -> Result<
    Option<StatusNoticePayloadView>,
    FlowErrorView,
> {
    match task.phase_plan {
        None => Ok(None),
        Some(plan) => match stage_package_spec(task.workflow_stage) {
            None => Ok(None),
            Some(stage) => match status_notice_spec(
                task.managed_task_ref,
                plan,
                stage,
                StatusNoticeKind::Blocked,
                "Task change needs clarification"@,
                "Formal task change request is blocked until the requested modification is clarified."@,
                Some(clarification_detail()),
            ) {
                Ok(n) => Ok(Some(n)),
                Err(e) => Err(e),
            },
        },
    }
}

/// The notice asking the user to clarify a refused change.
pub fn clarification_notice(task: &ManagedTask) -> (r: Result<Option<StatusNoticePayload>, FlowError>)
    ensures
        match clarification_notice_spec(task@) {
            Ok(None) => r matches Ok(None),
            Ok(Some(n)) => r matches Ok(Some(x)) && x@ == n,
            Err(e) => r matches Err(x) && x@ == e,
        },
{
    let plan = match &task.phase_plan {
        None => {
            return Ok(None);
        },
        Some(p) => p,
    };
    let stage = match stage_package_for_workflow_stage(&task.workflow_stage) {
        None => {
            return Ok(None);
        },
        Some(s) => s,
    };
    match build_status_notice(
        task.managed_task_ref.as_str(),
        plan,
        stage,
        StatusNoticeKind::Blocked,
        "Task change needs clarification",
        "Formal task change request is blocked until the requested modification is clarified.",
        Some(
            "Please clarify what should change, why it should change, and whether current work should continue, pause, or rework.",
        ),
    ) {
        Ok(n) => Ok(Some(n)),
        Err(e) => Err(e),
    }
}

/// A change request's fields reach the task and its revised scope. Each
/// title, summary, expected outcome and reference it gives replaces the
/// task's, and each one it leaves out keeps the task's; non-empty lists of
/// roots and secret classes replace the task's, empty ones keep them; its
/// requirements are appended, accepted, as task-change requirements, after
/// the task's own, which stay; nothing else about the task changes. The
/// revised scope is the next version and carries the changed task's summary,
/// requirements, references, roots and secret classes, with the previous
/// scope's constraints and assumptions.
pub proof fn law_task_change_takes_requested_fields(
    task: ManagedTaskView,
    p: ControlActionPayloadView,
    changed: ManagedTaskView,
    managed_task_ref: Seq<char>,
    source_decision_ref: Seq<char>,
    previous: TaskScopeSnapshotView,
    scope_id: Seq<char>,
    created_at: Seq<char>,
)
    requires
        task_change_applied(task, p, changed),
        previous.scope_version < u32::MAX,
    ensures
        p.secret_classes.len() > 0 ==> changed.secret_classes == p.secret_classes,
        p.secret_classes.len() == 0 ==> changed.secret_classes == task.secret_classes,
        p.allowed_roots.len() > 0 ==> changed.allowed_roots == p.allowed_roots,
        p.allowed_roots.len() == 0 ==> changed.allowed_roots == task.allowed_roots,
        p.title matches Some(t) ==> changed.title == t,
        p.title is None ==> changed.title == task.title,
        p.summary matches Some(t) ==> changed.summary == t,
        p.summary is None ==> changed.summary == task.summary,
        p.expected_outcome matches Some(t) ==> changed.expected_outcome == t,
        p.expected_outcome is None ==> changed.expected_outcome == task.expected_outcome,
        p.workspace_ref is Some ==> changed.workspace_ref == p.workspace_ref,
        p.workspace_ref is None ==> changed.workspace_ref == task.workspace_ref,
        p.repo_ref is Some ==> changed.repo_ref == p.repo_ref,
        p.repo_ref is None ==> changed.repo_ref == task.repo_ref,
        changed.requirement_items.len() == task.requirement_items.len() + p.requirement_items.len(),
        forall|i: int|
            0 <= i < task.requirement_items.len() ==> changed.requirement_items[i]
                == task.requirement_items[i],
        forall|i: int|
            0 <= i < p.requirement_items.len() ==> {
                let item = #[trigger] changed.requirement_items[task.requirement_items.len() + i];
                &&& item.text == p.requirement_items[i].text
                &&& item.origin == RequirementOrigin::TaskChange
                &&& item.status == RequirementStatus::Accepted
            },
        changed.managed_task_ref == task.managed_task_ref,
        changed.host_session_id == task.host_session_id,
        changed.workflow_stage == task.workflow_stage,
        changed.managed_task_class == task.managed_task_class,
        changed.work_horizon == task.work_horizon,
        ({
            let s = revised_scope_spec(
                managed_task_ref,
                source_decision_ref,
                changed,
                previous,
                scope_id,
                created_at,
            );
            &&& s.scope_version == previous.scope_version + 1
            &&& s.secret_classes == changed.secret_classes
            &&& s.allowed_roots == changed.allowed_roots
            &&& s.scope_summary == changed.summary
            &&& s.requirement_items == changed.requirement_items
            &&& s.workspace_ref == changed.workspace_ref
            &&& s.repo_ref == changed.repo_ref
            &&& s.constraints == previous.constraints
            &&& s.assumptions == previous.assumptions
            &&& s.source_decision_ref == source_decision_ref
            &&& s.managed_task_ref == managed_task_ref
        }),
{
    let n = task.requirement_items.len();
    let added = changed.requirement_items.subrange(n as int, changed.requirement_items.len() as int);
    assert forall|i: int| 0 <= i < n implies changed.requirement_items[i] == task.requirement_items[i] by {
        assert(changed.requirement_items.subrange(0, n as int)[i] == changed.requirement_items[i]);
    }
    assert forall|i: int| 0 <= i < p.requirement_items.len() implies {
        let item = #[trigger] changed.requirement_items[n + i];
        &&& item.text == p.requirement_items[i].text
        &&& item.origin == RequirementOrigin::TaskChange
        &&& item.status == RequirementStatus::Accepted
    } by {
        assert(added[i] == changed.requirement_items[n + i]);
    }
}

} // verus!
