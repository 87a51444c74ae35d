//! Approving a candidate's start: the first scope, the run and its spec
//! bundle, the plan, the binding, the baseline and the authorization, then
//! either the worker's dispatch or a blocked result.
use crate::approval::{authorization_spec, issue_execution_authorization};
use crate::harness::error::{FlowError, FlowErrorView, LoomHarnessError, LoomHarnessErrorView};
use crate::harness::execution::{
    finalize_task_result, finished_task, proof_of_work_spec, result_contract_spec,
    result_summary_spec, TaskResult,
};
use crate::harness::lookup::action_task_ref_spec;
use crate::harness::support::{
    agent_binding_spec, build_agent_binding, build_default_phase_plan, build_spec_bundle,
    build_status_notice, build_worker_command, default_phase_plan_spec, entry_ids_of,
    first_entry_index, host_command_spec, spec_bundle_spec, status_notice_spec,
    system_review_group_ref, worker_prompt_spec,
};
use crate::model::authorization::ExecutionAuthorization;
use crate::model::bridge::HostExecutionCommand;
use crate::model::ids::{is_millis_text, is_minted_id, new_id, now_timestamp};
use crate::model::ingress::{ControlAction, HostCapabilitySnapshot, HostCapabilitySnapshotView};
use crate::model::outbound::{
    AcceptanceResult, ResultOutcome, StatusNoticeKind, StatusNoticePayload, StatusNoticePayloadView,
};
use crate::model::risk::RiskAssessment;
use crate::model::shared::WorkflowStage;
use crate::model::task::{
    AgentBinding, AgentRoleKind, IsolatedTaskRun, IsolatedTaskRunStatus, IsolatedTaskRunView,
    ManagedTask, ManagedTaskView, PendingDecisionWindow, PendingDecisionWindowKind,
    PendingDecisionWindowView, PhasePlan, PhasePlanView, ReviewResult, ReviewResultView,
    ReviewSummary, ReviewSummaryView, ReviewVerdict, SpecBundleView, TaskScopeSnapshot,
    TaskScopeSnapshotView,
};
use crate::risk::{assess_task_baseline, contains_text, task_baseline_spec};
use crate::text::{owned, push_str};
use vstd::prelude::*;

verus! {

/// The source recorded for the first scope of a candidate approved through
/// its start window without a judgment of its own.
pub open spec fn legacy_candidate_source_spec(window_id: Seq<char>) -> Seq<char> {
    "legacy-candidate-window:"@ + window_id
}

/// The source recorded for the first scope of a candidate approved through
/// its start window without a judgment of its own.
pub fn legacy_candidate_source_decision_ref(window_id: &str) -> (r: String)
    ensures
        r@ == legacy_candidate_source_spec(window_id@),
{
    let mut r = owned("legacy-candidate-window:");
    push_str(&mut r, window_id);
    r
}

/// The judgment the first scope rests on: the action's, else the window's;
/// a candidate still in its start window without a scope falls back to the
/// window itself; anything else is refused.
pub open spec fn initial_scope_source_spec(
    action: Option<Seq<char>>,
    window: PendingDecisionWindowView,
    task: ManagedTaskView,
) -> Result<Seq<char>, LoomHarnessErrorView> {
    match action {
        Some(s) => Ok(s),
        None => match window.source_decision_ref {
            Some(s) => Ok(s),
            None => if window.kind == PendingDecisionWindowKind::StartCandidate && task.workflow_stage
                == WorkflowStage::Candidate && task.current_scope_ref is None {
                Ok(legacy_candidate_source_spec(window.window_id))
            } else {
                Err(LoomHarnessErrorView::MissingScopeSourceDecisionRef)
            },
        },
    }
}

/// The judgment the first scope rests on.
pub fn resolve_initial_scope_source_decision_ref(
    action: &ControlAction,
    window: &PendingDecisionWindow,
    task: &ManagedTask,
) -> (r: Result<String, LoomHarnessError>)
    ensures
        match initial_scope_source_spec(action@.source_decision_ref, window@, task@) {
            Ok(s) => r matches Ok(x) && x@ == s,
            Err(e) => r matches Err(x) && x@ == e,
        },
{
    if let Some(s) = &action.source_decision_ref {
        return Ok(s.clone());
    }
    if let Some(s) = &window.source_decision_ref {
        return Ok(s.clone());
    }
    if window.kind == PendingDecisionWindowKind::StartCandidate && task.workflow_stage
        == WorkflowStage::Candidate && task.current_scope_ref.is_none() {
        return Ok(legacy_candidate_source_decision_ref(window.window_id.as_str()));
    }
    Err(LoomHarnessError::MissingScopeSourceDecisionRef)
}

/// The host can run the worker and recorder round trip: it spawns agents and
/// offers both the `coder` and the `product_analyst` agent.
pub open spec fn supports_worker_roundtrip_spec(capability: HostCapabilitySnapshotView) -> bool {
    &&& capability.supports_spawn_agents
    &&& capability.available_agent_ids.contains("coder"@)
    &&& capability.available_agent_ids.contains("product_analyst"@)
}

/// Whether the host can run the worker and recorder round trip.
pub fn capability_supports_worker_roundtrip(capability: &HostCapabilitySnapshot) -> (r: bool)
    ensures
        r == supports_worker_roundtrip_spec(capability@),
{
    capability.supports_spawn_agents && contains_text(&capability.available_agent_ids, "coder")
        && contains_text(&capability.available_agent_ids, "product_analyst")
}

/// The first scope of an approved task, given its identifier and time.
pub open spec fn initial_scope_spec(
    managed_task_ref: Seq<char>,
    task: ManagedTaskView,
    source_decision_ref: Seq<char>,
    scope_id: Seq<char>,
    created_at: Seq<char>,
) -> TaskScopeSnapshotView {
    TaskScopeSnapshotView {
        scope_id,
        managed_task_ref,
        scope_version: 1,
        scope_summary: task.summary,
        requirement_items: task.requirement_items,
        workspace_ref: task.workspace_ref,
        repo_ref: task.repo_ref,
        allowed_roots: task.allowed_roots,
        secret_classes: task.secret_classes,
        constraints: Seq::empty(),
        assumptions: Seq::empty(),
        source_decision_ref,
        created_at,
    }
}

/// The task once its start is approved, before the worker is dispatched.
pub open spec fn started_task(
    task: ManagedTaskView,
    scope: TaskScopeSnapshotView,
    baseline_id: Seq<char>,
    authorization_id: Seq<char>,
    run: IsolatedTaskRunView,
    plan: PhasePlanView,
    binding: crate::model::task::AgentBindingView,
    updated_at: Seq<char>,
) -> ManagedTaskView {
    ManagedTaskView {
        current_scope_ref: Some(scope.scope_id),
        current_scope_version: Some(scope.scope_version),
        current_baseline_risk_ref: Some(baseline_id),
        current_execution_authorization_ref: Some(authorization_id),
        current_pending_window_ref: None,
        active_run_ref: Some(run.run_ref),
        spec_bundle: Some(run.spec_bundle),
        phase_plan: Some(plan),
        agent_binding: Some(binding),
        updated_at,
        ..task
    }
}

/// The review recorded when the host cannot run the round trip.
pub open spec fn blocked_start_review(
    task: ManagedTaskView,
    run: IsolatedTaskRunView,
    review_result_id: Seq<char>,
    reviewed_at: Seq<char>,
) -> ReviewResultView {
    ReviewResultView {
        review_result_id,
        managed_task_ref: task.managed_task_ref,
        run_ref: run.run_ref,
        reviewer_group_ref: system_review_group_ref(),
        review_verdict: ReviewVerdict::Blocked,
        findings: seq!["host capability snapshot does not prove sessions_spawn plus required agents"@],
        review_artifacts: Seq::empty(),
        summary: ReviewSummaryView {
            review_verdict: ReviewVerdict::Blocked,
            summary: "Execution was blocked because the host bridge cannot spawn the required worker/recorder agents."@,
            key_findings: seq!["supports_spawn_agents=false or required host agents are unavailable"@],
            follow_up_required: true,
        },
        reviewed_at,
    }
}

/// How an approved start proceeds: the worker is dispatched with a notice
/// that execution began, or the task ends blocked with a notice saying why.
pub enum StartDispatch {
    Worker { command: HostExecutionCommand, notice: StatusNoticePayload },
    Blocked { notice: StatusNoticePayload, result: TaskResult },
}

/// What an approved start leaves for the caller to store and send.
pub struct StartPlan {
    pub task: ManagedTask,
    pub scope: TaskScopeSnapshot,
    pub run: IsolatedTaskRun,
    pub phase_plan: PhasePlan,
    pub binding: AgentBinding,
    pub baseline: RiskAssessment,
    pub authorization: ExecutionAuthorization,
    pub dispatch: StartDispatch,
}

proof fn lemma_default_plan_execute(
    managed_task_ref: Seq<char>,
    id: Seq<char>,
    ids: Seq<Seq<char>>,
    at: Seq<char>,
)
    requires
        ids.len() == 4,
    ensures
        first_entry_index(default_phase_plan_spec(managed_task_ref, id, ids, at).plan_entries, "execute"@)
            == Some(1int),
{
    reveal_strlit("clarify");
    reveal_strlit("execute");
    reveal_strlit("review");
    reveal_strlit("deliver");
    let entries = default_phase_plan_spec(managed_task_ref, id, ids, at).plan_entries;
    let e3 = entries.drop_last();
    let e2 = e3.drop_last();
    let e1 = e2.drop_last();
    let e0 = e1.drop_last();
    assert(e0.len() == 0);
    assert(first_entry_index(e0, "execute"@) is None);
    assert(e1.last() == entries[0]);
    assert(entries[0].stage_package_id != "execute"@) by {
        assert(entries[0].stage_package_id[0] != "execute"@[0]);
    }
    assert(first_entry_index(e1, "execute"@) is None);
    assert(e2.last() == entries[1]);
    assert(first_entry_index(e2, "execute"@) == Some(1int));
    assert(first_entry_index(e3, "execute"@) == Some(1int));
}

/// Approves a candidate's start through its window, with the task and the
/// session's latest capability snapshot as found. The first scope rests on
/// the judgment `initial_scope_source_spec` names, and is refused without
/// one. The task gets its scope, run, spec bundle, plan, binding, baseline
/// and authorization; a host that can run the round trip gets the worker's
/// command and the task enters execution; otherwise the task ends blocked.
pub fn plan_approve_start(
    action: &ControlAction,
    window: &PendingDecisionWindow,
    task: ManagedTask,
    capability: &HostCapabilitySnapshot,
) -> (r: Result<StartPlan, FlowError>)
    ensures
        match initial_scope_source_spec(action@.source_decision_ref, window@, task@) {
            Err(e) => r matches Err(x) && x@ == FlowErrorView::Harness(e),
            Ok(source) => r matches Ok(p) && {
                let managed_task_ref = action_task_ref_spec(
                    action@.managed_task_ref,
                    window@.managed_task_ref,
                );
                let scope = p.scope@;
                &&& scope == initial_scope_spec(
                    managed_task_ref,
                    task@,
                    source,
                    scope.scope_id,
                    scope.created_at,
                )
                &&& is_minted_id(scope.scope_id, "scope"@)
                &&& p.run@.run_ref.len() > 0
                &&& is_minted_id(p.run@.run_ref, "run"@)
                &&& p.run@.managed_task_ref == managed_task_ref
                &&& p.run@.spec_bundle == spec_bundle_spec(
                    task@,
                    scope,
                    p.run@.spec_bundle.spec_bundle_id,
                    p.run@.spec_bundle.created_at,
                )
                &&& p.phase_plan@ == default_phase_plan_spec(
                    managed_task_ref,
                    p.phase_plan@.phase_plan_id,
                    entry_ids_of(p.phase_plan@),
                    p.phase_plan@.created_at,
                )
                &&& is_minted_id(p.phase_plan@.phase_plan_id, "phase-plan"@)
                &&& forall|i: int|
                    0 <= i < 4 ==> is_minted_id(#[trigger] p.phase_plan@.plan_entries[i].entry_id, "phase-entry"@)
                &&& is_minted_id(p.run@.spec_bundle.spec_bundle_id, "spec"@)
                &&& is_minted_id(p.baseline@.assessment_id, "risk"@)
                &&& is_minted_id(p.binding@.binding_id, "binding"@)
                &&& is_minted_id(p.authorization@.authorization_id, "auth"@)
                &&& match p.dispatch {
                    StartDispatch::Worker { command, notice } => {
                        &&& is_minted_id(command@.command_id, "exec"@)
                        &&& notice@.stage_ref == p.phase_plan@.plan_entries[1].entry_id
                        &&& notice@.stage_ref.len() > 0
                    },
                    StartDispatch::Blocked { notice, .. } => {
                        &&& notice@.stage_ref == p.phase_plan@.plan_entries[1].entry_id
                        &&& notice@.stage_ref.len() > 0
                    },
                }
                &&& p.baseline@ == task_baseline_spec(
                    task@,
                    scope,
                    capability@,
                    "approve_start baseline issued"@,
                    None,
                    p.baseline@.assessment_id,
                    p.baseline@.assessed_at,
                )
                &&& p.binding@ == agent_binding_spec(
                    task@,
                    p.run@.run_ref,
                    capability@.capability_snapshot_ref,
                    p.binding@.binding_id,
                    p.binding@.issued_at,
                )
                &&& p.authorization@ == authorization_spec(
                    managed_task_ref,
                    p.run@,
                    capability@,
                    scope,
                    p.baseline@,
                    "approve_start execution authorization"@,
                    None,
                    false,
                    p.authorization@.authorization_id,
                    p.authorization@.issued_at,
                )
                &&& supports_worker_roundtrip_spec(capability@) ==> {
                    &&& p.run@.status == IsolatedTaskRunStatus::Active
                    &&& p.task@ == (ManagedTaskView {
                        workflow_stage: WorkflowStage::Execute,
                        ..started_task(
                            task@,
                            scope,
                            p.baseline@.assessment_id,
                            p.authorization@.authorization_id,
                            p.run@,
                            p.phase_plan@,
                            p.binding@,
                            p.task@.updated_at,
                        )
                    })
                    &&& p.dispatch matches StartDispatch::Worker { command, notice } && {
                        &&& command@ == host_command_spec(
                            task@,
                            p.run@.run_ref,
                            p.binding@,
                            AgentRoleKind::Worker,
                            worker_prompt_spec(task@, p.run@.spec_bundle),
                            "loom-worker-"@ + task@.managed_task_ref,
                            command@.command_id,
                            command@.issued_at,
                        )
                        &&& status_notice_spec(
                            managed_task_ref,
                            p.phase_plan@,
                            "execute"@,
                            StatusNoticeKind::StageEntered,
                            "Entered execute stage"@,
                            "Task entered execute and queued worker dispatch."@,
                            Some(
                                "Execution authorization is active and worker dispatch has been queued."@,
                            ),
                        ) == Ok::<StatusNoticePayloadView, FlowErrorView>(notice@)
                    }
                }
                &&& !supports_worker_roundtrip_spec(capability@) ==> {
                    p.dispatch matches StartDispatch::Blocked { notice, result } && {
                        let review = result.review@;
                        &&& review == blocked_start_review(
                            task@,
                            p.run@,
                            review.review_result_id,
                            review.reviewed_at,
                        )
                        &&& p.run@.status == IsolatedTaskRunStatus::Result
                        &&& result.proof@ == proof_of_work_spec(
                            ManagedTaskView {
                                current_scope_version: Some(1),
                                ..task@
                            },
                            p.run@,
                            review.summary.summary,
                            Seq::empty(),
                            review,
                            ResultOutcome::Blocked,
                            AcceptanceResult::EscalatedToUser,
                            result.proof@.proof_of_work_id,
                            result.proof@.accepted_at,
                        )
                        &&& result.contract@ == result_contract_spec(
                            ManagedTaskView {
                                current_scope_version: Some(1),
                                ..task@
                            },
                            review.summary.summary,
                            review,
                            ResultOutcome::Blocked,
                            AcceptanceResult::EscalatedToUser,
                            result.proof@,
                            result.contract@.result_contract_id,
                            result.contract@.created_at,
                        )
                        &&& result.summary@ == result_summary_spec(result.contract@)
                        &&& status_notice_spec(
                            task@.managed_task_ref,
                            p.phase_plan@,
                            "execute"@,
                            StatusNoticeKind::Blocked,
                            "Execute stage blocked"@,
                            "Task could not enter execute because the host bridge cannot spawn the required worker/recorder agents."@,
                            Some("supports_spawn_agents=false or required host agents are unavailable."@),
                        ) == Ok::<StatusNoticePayloadView, FlowErrorView>(notice@)
                        &&& p.task@ == finished_task(
                            started_task(
                                task@,
                                scope,
                                p.baseline@.assessment_id,
                                p.authorization@.authorization_id,
                                IsolatedTaskRunView { status: IsolatedTaskRunStatus::Active, ..p.run@ },
                                p.phase_plan@,
                                p.binding@,
                                p.task@.updated_at,
                            ),
                            p.binding@,
                            review,
                            result.proof@,
                            result.contract@,
                            p.task@.updated_at,
                        )
                    }
                }
            },
        },
{
    let managed_task_ref = match &action.managed_task_ref {
        Some(t) => t.clone(),
        None => window.managed_task_ref.clone(),
    };
    let source = match resolve_initial_scope_source_decision_ref(action, window, &task) {
        Err(e) => {
            return Err(FlowError::Harness(e));
        },
        Ok(s) => s,
    };
    let mut task = task;
    let ghost original = task@;
    let items = task.requirement_items.clone();
    assert(items.deep_view() =~= task.requirement_items.deep_view());
    let roots = task.allowed_roots.clone();
    assert(roots.deep_view() =~= task.allowed_roots.deep_view());
    let classes = task.secret_classes.clone();
    assert(classes.deep_view() =~= task.secret_classes.deep_view());
    let scope = TaskScopeSnapshot {
        scope_id: new_id("scope"),
        managed_task_ref: managed_task_ref.clone(),
        scope_version: 1,
        scope_summary: task.summary.clone(),
        requirement_items: items,
        workspace_ref: match &task.workspace_ref {
            Some(w) => Some(w.clone()),
            None => None,
        },
        repo_ref: match &task.repo_ref {
            Some(w) => Some(w.clone()),
            None => None,
        },
        allowed_roots: roots,
        secret_classes: classes,
        constraints: Vec::new(),
        assumptions: Vec::new(),
        source_decision_ref: source,
        created_at: now_timestamp(),
    };
    assert(scope@.constraints =~= Seq::empty());
    assert(scope@.assumptions =~= Seq::empty());
    let spec_bundle = build_spec_bundle(&task, &scope);
    let mut run = IsolatedTaskRun {
        run_ref: new_id("run"),
        managed_task_ref: managed_task_ref.clone(),
        status: IsolatedTaskRunStatus::Active,
        spec_bundle: spec_bundle.clone(),
        created_at: now_timestamp(),
        updated_at: now_timestamp(),
    };
    let phase_plan = build_default_phase_plan(managed_task_ref.as_str());
    let binding = build_agent_binding(&task, run.run_ref.as_str(), capability.capability_snapshot_ref.as_str());
    let baseline = assess_task_baseline(
        &task,
        &scope,
        capability,
        owned("approve_start baseline issued"),
        None,
    );
    let auth = issue_execution_authorization(
        managed_task_ref.clone(),
        &run,
        capability,
        &scope,
        &baseline,
        owned("approve_start execution authorization"),
        None,
        false,
    );
    task.current_scope_ref = Some(scope.scope_id.clone());
    task.current_scope_version = Some(scope.scope_version);
    task.current_baseline_risk_ref = Some(baseline.assessment_id.clone());
    task.current_execution_authorization_ref = Some(auth.authorization_id.clone());
    task.current_pending_window_ref = None;
    task.active_run_ref = Some(run.run_ref.clone());
    task.spec_bundle = Some(spec_bundle.clone());
    task.phase_plan = Some(phase_plan.clone());
    task.agent_binding = Some(binding.clone());
    task.updated_at = now_timestamp();
    proof {
        assert(phase_plan@.plan_entries.len() == 4);
        lemma_default_plan_execute(
            managed_task_ref@,
            phase_plan@.phase_plan_id,
            entry_ids_of(phase_plan@),
            phase_plan@.created_at,
        );
    }
    if capability_supports_worker_roundtrip(capability) {
        let command = build_worker_command(&task, run.run_ref.as_str(), &binding, &spec_bundle);
        task.workflow_stage = WorkflowStage::Execute;
        let notice = match build_status_notice(
            managed_task_ref.as_str(),
            &phase_plan,
            "execute",
            StatusNoticeKind::StageEntered,
            "Entered execute stage",
            "Task entered execute and queued worker dispatch.",
            Some("Execution authorization is active and worker dispatch has been queued."),
        ) {
            Ok(n) => n,
            Err(e) => {
                return Err(e);
            },
        };
        return Ok(StartPlan {
            task,
            scope,
            run,
            phase_plan,
            binding,
            baseline,
            authorization: auth,
            dispatch: StartDispatch::Worker { command, notice },
        });
    }
    let mut findings: Vec<String> = Vec::new();
    findings.push(owned("host capability snapshot does not prove sessions_spawn plus required agents"));
    let mut key_findings: Vec<String> = Vec::new();
    key_findings.push(owned("supports_spawn_agents=false or required host agents are unavailable"));
    let review = ReviewResult {
        review_result_id: new_id("review"),
        managed_task_ref: task.managed_task_ref.clone(),
        run_ref: run.run_ref.clone(),
        reviewer_group_ref: owned("system.review.v0"),
        review_verdict: ReviewVerdict::Blocked,
        findings,
        review_artifacts: Vec::new(),
        summary: ReviewSummary {
            review_verdict: ReviewVerdict::Blocked,
            summary: owned(
                "Execution was blocked because the host bridge cannot spawn the required worker/recorder agents.",
            ),
            key_findings,
            follow_up_required: true,
        },
        reviewed_at: now_timestamp(),
    };
    proof {
        reveal_strlit("system.review.v0");
        assert(review@.findings =~= seq!["host capability snapshot does not prove sessions_spawn plus required agents"@]);
        assert(review@.summary.key_findings =~= seq!["supports_spawn_agents=false or required host agents are unavailable"@]);
        assert(review@.review_artifacts =~= Seq::empty());
    }
    let notice = match build_status_notice(
        task.managed_task_ref.as_str(),
        &phase_plan,
        "execute",
        StatusNoticeKind::Blocked,
        "Execute stage blocked",
        "Task could not enter execute because the host bridge cannot spawn the required worker/recorder agents.",
        Some("supports_spawn_agents=false or required host agents are unavailable."),
    ) {
        Ok(n) => n,
        Err(e) => {
            return Err(e);
        },
    };
    let summary_text = review.summary.summary.clone();
    let no_refs: Vec<String> = Vec::new();
    assert(no_refs.deep_view() =~= Seq::<Seq<char>>::empty());
    let result = finalize_task_result(
        &mut task,
        &mut run,
        &binding,
        summary_text,
        no_refs,
        review,
        ResultOutcome::Blocked,
        AcceptanceResult::EscalatedToUser,
    );
    Ok(StartPlan {
        task,
        scope,
        run,
        phase_plan,
        binding,
        baseline,
        authorization: auth,
        dispatch: StartDispatch::Blocked { notice, result },
    })
}

} // verus!
