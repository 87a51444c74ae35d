use loom::harness::candidate::{
    build_current_turn, cancel_candidate, modify_candidate, open_candidate, route_semantic_decision,
    LaneRoute,
};
use loom::harness::control::{route_control_action, ControlRoute};
use loom::harness::error::{FlowError, LoomHarnessError};
use loom::harness::execution::{
    apply_spawned_event, build_key_outcomes, build_review_result, finish_recorder_execution, finish_worker_execution,
    next_actions_for_outcome, review_acceptance, review_outcome, WorkerFollowUp,
};
use loom::harness::lookup::{found_capability, found_task, required_decision_token, window_task_ref};
use loom::harness::reissue::{
    plan_capability_reissue, plan_proposed_action, plan_resume, resume_target, should_reissue,
    ProposalResponse,
};
use loom::harness::start::{
    capability_supports_worker_roundtrip, legacy_candidate_source_decision_ref, plan_approve_start,
    StartDispatch,
};
use loom::harness::task_change::{
    clarification_notice, is_task_change_clarification_error, plan_task_change, resolve_task_change_target,
    task_change_source_ref,
};
use loom::model::authorization::{AuthorizationBudgetBand, DecisionArea, ExecutionAuthorizationStatus};
use loom::model::bridge::HostExecutionCommandStatus;
use loom::store::host_execution::{acknowledge_command, select_next_command};
use loom::model::ids::now_timestamp;
use loom::model::ingress::{
    ControlAction, ControlActionKind, ControlActionPayload, ControlActorRef, DecisionSource,
    HostCapabilitySnapshot, HostSubagentStatus, LegacySemanticDecisionEnvelope,
    RequirementItemDraft, SemanticDecisionEnvelope, SemanticDecisionKind, SemanticDecisionPayload,
    SubagentEndedPayload, SubagentSpawnedPayload, TaskChangeClassification, TaskChangeDecisionPayload,
    ChangeExecutionSurface, BoundaryRecommendation,
};
use loom::model::outbound::{AcceptanceResult, ResultOutcome, StatusNoticeKind};
use loom::model::risk::{ProposedAction, RiskBand, RiskConsequence, RiskSubjectKind};
use loom::model::shared::{InteractionLane, ManagedTaskClass, TaskActivationReason, WorkHorizonKind, WorkflowStage};
use loom::model::task::{
    AgentRoleKind, IsolatedTaskRunStatus, ManagedTask, PendingDecisionWindow, PendingDecisionWindowStatus,
    RequirementOrigin, ReviewVerdict,
};

fn capability_snapshot(session: &str) -> HostCapabilitySnapshot {
    HostCapabilitySnapshot {
        capability_snapshot_ref: "cap-1".into(),
        host_session_id: session.to_string(),
        allowed_tools: vec!["read_file".into(), "write_file".into()],
        readable_roots: vec!["/Users/codez/.openclaw".into()],
        writable_roots: vec!["/Users/codez/.openclaw".into()],
        secret_classes: vec!["repo".into()],
        max_budget_band: AuthorizationBudgetBand::Standard,
        available_agent_ids: vec!["main".into(), "coder".into(), "product_analyst".into()],
        supports_spawn_agents: true,
        supports_pause: true,
        supports_resume: true,
        supports_interrupt: true,
        recorded_at: now_timestamp(),
    }
}

fn managed_candidate(session: &str) -> LegacySemanticDecisionEnvelope {
    LegacySemanticDecisionEnvelope {
        decision_id: "decision-candidate-1".into(),
        host_session_id: session.to_string(),
        host_message_ref: Some("host-message-1".into()),
        managed_task_ref: None,
        interaction_lane: InteractionLane::ManagedTaskCandidate,
        managed_task_class: Some(ManagedTaskClass::Complex),
        work_horizon: Some(WorkHorizonKind::Improvement),
        task_activation_reason: Some(TaskActivationReason::ExplicitStartTask),
        task_change_classification: None,
        task_change_execution_surface: None,
        task_change_boundary_recommendation: None,
        title: Some("Bridge task".into()),
        summary: Some("Create a managed task candidate.".into()),
        expected_outcome: Some("Task enters execute after approval.".into()),
        requirement_items: vec![RequirementItemDraft {
            text: "Start from current turn".into(),
            origin: RequirementOrigin::InitialDecision,
        }],
        workspace_ref: Some("/Users/codez/.openclaw".into()),
        repo_ref: Some("openclaw".into()),
        allowed_roots: vec!["/Users/codez/.openclaw".into()],
        secret_classes: vec!["repo".into()],
        confidence: Some(97),
        created_at: now_timestamp(),
    }
}

fn action(kind: ControlActionKind, task_ref: Option<&str>, token: Option<&str>, source: Option<&str>) -> ControlAction {
    ControlAction {
        action_id: "action-1".into(),
        managed_task_ref: task_ref.map(|s| s.to_string()),
        kind,
        actor: ControlActorRef::User,
        payload: ControlActionPayload::default(),
        source_decision_ref: source.map(|s| s.to_string()),
        decision_token: token.map(|s| s.to_string()),
    }
}

fn opened(session: &str) -> (ManagedTask, PendingDecisionWindow) {
    let c = open_candidate(&managed_candidate(session)).expect("candidate");
    (c.task, c.window.window)
}

#[test]
fn candidate_opens_with_start_window_resting_on_its_decision() {
    let c = open_candidate(&managed_candidate("s-1")).expect("candidate");
    assert!(c.task.managed_task_ref.starts_with("task-"));
    assert_eq!(c.task.workflow_stage, WorkflowStage::Candidate);
    assert_eq!(c.task.requirement_items.len(), 1);
    assert!(c.task.requirement_items[0].requirement_id.starts_with("req-"));
    assert_eq!(c.task.current_pending_window_ref.as_deref(), Some(c.window.window.window_id.as_str()));
    assert_eq!(c.window.window.source_decision_ref.as_deref(), Some("decision-candidate-1"));
    assert_eq!(c.window.card.decision_token, c.window.window.decision_token);
    assert_eq!(c.window.card.recommended_pack_ref.as_deref(), Some("coding_pack"));
    assert_eq!(c.window.window.status, PendingDecisionWindowStatus::Open);

    let mut bare = managed_candidate("s-1");
    bare.title = None;
    bare.summary = None;
    bare.expected_outcome = None;
    bare.task_activation_reason = None;
    let c = open_candidate(&bare).expect("candidate");
    assert_eq!(c.task.title, "Managed task");
    assert_eq!(c.task.summary, "Managed task");
    assert_eq!(c.task.expected_outcome, "Deliver the requested coding change");
    assert_eq!(c.task.activation_reason, TaskActivationReason::ExplicitStartTask);

    let mut missing = managed_candidate("s-1");
    missing.work_horizon = None;
    assert_eq!(open_candidate(&missing).err(), Some(LoomHarnessError::MissingManagedTaskSemantics));
}

#[test]
fn managed_task_active_lane_does_not_open_a_new_candidate() {
    let mut active = managed_candidate("session-active");
    active.interaction_lane = InteractionLane::ManagedTaskActive;
    active.managed_task_ref = Some("task-9".into());
    match route_semantic_decision(&active) {
        Ok(LaneRoute::CheckActiveTask(r)) => assert_eq!(r, "task-9"),
        _ => panic!("expected the active task to be checked"),
    }
    active.managed_task_ref = None;
    assert!(matches!(
        route_semantic_decision(&active),
        Err(LoomHarnessError::MissingManagedTaskRefForActiveLane)
    ));
    let mut chat = managed_candidate("s");
    chat.interaction_lane = InteractionLane::Chat;
    assert!(matches!(route_semantic_decision(&chat), Ok(LaneRoute::Chat)));
}

#[test]
fn approve_start_uses_candidate_window_source_decision_for_initial_scope() {
    let (task, window) = opened("session-start-source");
    let approve = action(ControlActionKind::ApproveStart, Some(&task.managed_task_ref), Some(&window.decision_token), None);
    let plan = plan_approve_start(&approve, &window, task, &capability_snapshot("session-start-source")).expect("plan");
    assert_eq!(plan.scope.source_decision_ref, "decision-candidate-1");
    assert_eq!(plan.scope.scope_version, 1);
    assert_eq!(plan.task.workflow_stage, WorkflowStage::Execute);
    assert_eq!(plan.task.current_scope_ref.as_deref(), Some(plan.scope.scope_id.as_str()));
    assert_eq!(plan.task.current_execution_authorization_ref.as_deref(), Some(plan.authorization.authorization_id.as_str()));
    assert_eq!(plan.task.current_pending_window_ref, None);
    assert_eq!(plan.authorization.status, ExecutionAuthorizationStatus::Active);
    assert_eq!(plan.run.status, IsolatedTaskRunStatus::Active);
    match plan.dispatch {
        StartDispatch::Worker { command, notice } => {
            assert_eq!(command.status, HostExecutionCommandStatus::Pending);
            assert_eq!(command.host_agent_id, "coder");
            assert!(command.prompt.starts_with("Role: worker"));
            assert_eq!(notice.notice_kind, StatusNoticeKind::StageEntered);
            assert_eq!(notice.headline, "Entered execute stage");
            assert_eq!(notice.stage_ref, plan.phase_plan.plan_entries[1].entry_id);
        },
        StartDispatch::Blocked { .. } => panic!("expected worker dispatch"),
    }
}

#[test]
fn approve_start_legacy_candidate_without_source_decision_ref_uses_compat_source_ref() {
    let (task, mut window) = opened("legacy-approve-session");
    window.source_decision_ref = None;
    let approve = action(ControlActionKind::ApproveStart, Some(&task.managed_task_ref), Some(&window.decision_token), None);
    let plan = plan_approve_start(&approve, &window, task.clone(), &capability_snapshot("legacy-approve-session")).expect("plan");
    assert_eq!(plan.scope.source_decision_ref, format!("legacy-candidate-window:{}", window.window_id));
    assert_eq!(legacy_candidate_source_decision_ref("w-1"), "legacy-candidate-window:w-1");

    let mut started = task;
    started.current_scope_ref = Some("scope-1".into());
    assert!(matches!(
        plan_approve_start(&approve, &window, started, &capability_snapshot("x")),
        Err(FlowError::Harness(LoomHarnessError::MissingScopeSourceDecisionRef))
    ));
}

#[test]
fn approve_start_blocks_when_capability_snapshot_lacks_required_recorder_roundtrip() {
    let (task, window) = opened("session-blocked");
    let mut capability = capability_snapshot("session-blocked");
    capability.available_agent_ids = vec!["coder".into()];
    assert!(!capability_supports_worker_roundtrip(&capability));
    let approve = action(ControlActionKind::ApproveStart, Some(&task.managed_task_ref), Some(&window.decision_token), Some("decision-ref"));
    let task_ref = task.managed_task_ref.clone();
    let plan = plan_approve_start(&approve, &window, task, &capability).expect("plan");
    assert_eq!(plan.scope.source_decision_ref, "decision-ref");
    assert_eq!(plan.task.workflow_stage, WorkflowStage::Result);
    assert_eq!(plan.run.status, IsolatedTaskRunStatus::Result);
    match plan.dispatch {
        StartDispatch::Blocked { notice, result } => {
            assert_eq!(notice.managed_task_ref, task_ref);
            assert_eq!(notice.notice_kind, StatusNoticeKind::Blocked);
            assert_eq!(notice.headline, "Execute stage blocked");
            assert!(notice.summary.contains("cannot spawn the required worker/recorder agents"));
            assert!(!notice.stage_ref.is_empty());
            assert_eq!(notice.stage_ref, plan.phase_plan.plan_entries[1].entry_id);
            assert!(notice.stage_ref.starts_with("phase-entry-"));
            assert!(plan.authorization.authorization_id.starts_with("auth-"));
            assert!(plan.baseline.assessment_id.starts_with("risk-"));
            assert_eq!(result.summary.managed_task_ref, task_ref);
            assert_eq!(result.summary.outcome, ResultOutcome::Blocked);
            assert_eq!(result.contract.outcome, ResultOutcome::Blocked);
            assert_eq!(result.contract.acceptance_verdict, AcceptanceResult::EscalatedToUser);
            assert_eq!(result.contract.scope_revision_summary.as_deref(), Some("scope_version=1"));
            assert_eq!(result.review.review_verdict, ReviewVerdict::Blocked);
        },
        StartDispatch::Worker { .. } => panic!("expected a blocked start"),
    }
}

fn active_task() -> (ManagedTask, loom::harness::start::StartPlan) {
    let (task, window) = opened("session-task-change");
    let approve = action(ControlActionKind::ApproveStart, Some(&task.managed_task_ref), Some(&window.decision_token), Some("decision-ref"));
    let plan = plan_approve_start(&approve, &window, task, &capability_snapshot("session-task-change")).expect("plan");
    (plan.task.clone(), plan)
}

fn task_change_decision(task_ref: Option<&str>) -> SemanticDecisionEnvelope {
    SemanticDecisionEnvelope {
        decision_ref: "decision-change-1".into(),
        host_session_id: "session-task-change".into(),
        host_message_ref: None,
        managed_task_ref: task_ref.map(|s| s.to_string()),
        decision_kind: SemanticDecisionKind::TaskChange,
        decision_source: DecisionSource::HostModel,
        rationale: "user asked".into(),
        confidence: 90,
        source_model_ref: "model".into(),
        issued_at: now_timestamp(),
        decision_payload: SemanticDecisionPayload::TaskChange(TaskChangeDecisionPayload {
            classification: TaskChangeClassification::SameTaskMinor,
            execution_surface: ChangeExecutionSurface::FutureOnly,
            boundary_recommendation: BoundaryRecommendation::AbsorbChange,
        }),
    }
}

#[test]
fn request_task_change_without_source_judgment_requests_clarification_without_mutating_scope() {
    let (task, _) = active_task();
    let request = action(ControlActionKind::RequestTaskChange, Some(&task.managed_task_ref), None, None);
    let e = task_change_source_ref(&request).unwrap_err();
    assert_eq!(e, LoomHarnessError::MissingTaskChangeSourceDecisionRef);
    assert!(is_task_change_clarification_error(&FlowError::Harness(e)));
    let cited = action(ControlActionKind::RequestTaskChange, Some(&task.managed_task_ref), None, Some("decision-change-1"));
    let src = task_change_source_ref(&cited).unwrap();
    assert_eq!(resolve_task_change_target(&cited, &src, None).unwrap(), task.managed_task_ref);
    let unnamed = action(ControlActionKind::RequestTaskChange, None, None, Some("decision-change-1"));
    let missing = resolve_task_change_target(&unnamed, &src, None).unwrap_err();
    assert!(is_task_change_clarification_error(&missing));
    assert_eq!(missing.message(), "request_task_change source decision not found: decision-change-1");
    let other = resolve_task_change_target(&cited, &src, Some(&task_change_decision(Some("task-other")))).unwrap_err();
    assert_eq!(other, FlowError::Harness(LoomHarnessError::TaskChangeManagedTaskMismatch));
    assert_eq!(
        resolve_task_change_target(&cited, &src, Some(&task_change_decision(None))).unwrap(),
        task.managed_task_ref
    );
    assert!(!is_task_change_clarification_error(&FlowError::Other("x".into())));
}

#[test]
fn task_change_revises_scope_and_reissues_authorization() {
    let (task, plan) = active_task();
    let mut payload = ControlActionPayload::default();
    payload.summary = Some("Also cover the docs".into());
    payload.requirement_items = vec![RequirementItemDraft { text: "Update docs".into(), origin: RequirementOrigin::TaskChange }];
    payload.allowed_roots = vec!["/Users/codez/.openclaw/docs".into()];
    let change = plan_task_change(
        &task.managed_task_ref,
        "decision-change-1",
        &payload,
        task.clone(),
        &capability_snapshot("session-task-change"),
        &plan.scope,
        &plan.baseline,
        &plan.authorization,
        &plan.run,
    );
    assert_eq!(change.scope.scope_version, 2);
    assert_eq!(change.scope.source_decision_ref, "decision-change-1");
    assert_eq!(change.task.summary, "Also cover the docs");
    assert_eq!(change.task.title, task.title);
    assert_eq!(change.task.requirement_items.len(), 2);
    assert_eq!(change.task.requirement_items[1].origin, RequirementOrigin::TaskChange);
    assert_eq!(change.task.allowed_roots, vec!["/Users/codez/.openclaw/docs".to_string()]);
    assert_eq!(change.baseline.supersedes.as_deref(), Some(plan.baseline.assessment_id.as_str()));
    assert_eq!(change.authorization.supersedes.as_deref(), Some(plan.authorization.authorization_id.as_str()));
    assert_eq!(change.superseded_authorization_id, plan.authorization.authorization_id);
    assert_eq!(change.task.current_scope_version, Some(2));
    // The scope's roots do not meet the capability's, so nothing stays writable.
    assert!(change.authorization.granted_areas[0].writable_roots.is_empty());
}

#[test]
fn candidate_is_modified_or_cancelled_through_its_window() {
    let (mut task, window) = opened("s-2");
    let mut payload = ControlActionPayload::default();
    payload.title = Some("Renamed".into());
    payload.repo_ref = Some("other-repo".into());
    let reopened = modify_candidate(&mut task, &payload, &window);
    assert_eq!(task.title, "Renamed");
    assert_eq!(task.repo_ref.as_deref(), Some("other-repo"));
    assert_eq!(task.workspace_ref.as_deref(), Some("/Users/codez/.openclaw"));
    assert_eq!(reopened.window.supersedes.as_deref(), Some(window.window_id.as_str()));
    assert_eq!(reopened.window.source_decision_ref, window.source_decision_ref);
    assert_eq!(reopened.card.title, "Renamed");
    assert_ne!(reopened.window.decision_token, window.decision_token);
    cancel_candidate(&mut task);
    assert_eq!(task.workflow_stage, WorkflowStage::Closed);
    assert_eq!(task.current_pending_window_ref, None);
}

#[test]
fn bridge_contract_missing_decision_token_fails_closed() {
    let a = action(ControlActionKind::ApproveStart, Some("task-1"), None, None);
    assert_eq!(route_control_action(&a), Err(LoomHarnessError::MissingDecisionToken));
    assert_eq!(required_decision_token(&a), Err(LoomHarnessError::MissingDecisionToken));
    let a = action(ControlActionKind::ApproveStart, Some("task-1"), Some("decision-1"), None);
    assert_eq!(route_control_action(&a), Ok(ControlRoute::ApproveStart));
    let a = action(ControlActionKind::RequestTaskChange, Some("task-1"), None, None);
    assert_eq!(route_control_action(&a), Ok(ControlRoute::RequestTaskChange));
    let a = action(ControlActionKind::PauseTask, None, None, None);
    assert_eq!(route_control_action(&a), Ok(ControlRoute::Nothing));
    assert_eq!(
        LoomHarnessError::MissingDecisionToken.message(),
        "missing decision_token for window-consuming control action"
    );
}

#[test]
fn lookups_name_what_is_missing() {
    let a = action(ControlActionKind::ApproveStart, None, Some("t"), None);
    assert_eq!(window_task_ref(&a, None), Err(LoomHarnessError::StaleDecisionToken));
    let (task, window) = opened("s-3");
    assert_eq!(window_task_ref(&a, Some(&window)).unwrap(), task.managed_task_ref);
    assert_eq!(found_task(None, "task-x").err(), Some(LoomHarnessError::ManagedTaskNotFound("task-x".into())));
    assert_eq!(
        found_capability(None, "s-3").err().map(|e| e.message()),
        Some("host capability snapshot missing for session: s-3".to_string())
    );
    assert_eq!(resume_target(&a).unwrap_err(), FlowError::Other("resume_task requires managed_task_ref".into()));
}

fn ended(status: HostSubagentStatus, output: &str, artifacts: Vec<&str>) -> SubagentEndedPayload {
    SubagentEndedPayload {
        host_child_execution_ref: "agent:coder:child-1".into(),
        host_child_run_ref: Some("run-child-1".into()),
        host_agent_id: "coder".into(),
        status,
        output_summary: output.into(),
        artifact_refs: artifacts.into_iter().map(|s| s.to_string()).collect(),
        observed_at: now_timestamp(),
    }
}

#[test]
fn r04_worker_and_recorder_lifecycle_create_review_and_result_chain() {
    let (_, plan) = active_task();
    let StartDispatch::Worker { command, .. } = &plan.dispatch else { panic!("worker") };
    let mut task = plan.task.clone();
    let mut run = plan.run.clone();
    let mut worker = command.clone();
    let payload = ended(
        HostSubagentStatus::Completed,
        "Summary: done\nVerification: cargo test",
        vec!["/Users/codez/.openclaw/src/lib.rs"],
    );
    loom::harness::execution::apply_ended_event(&mut worker, &payload);
    let finish = finish_worker_execution(&mut task, &mut run, &worker, &payload, &plan.binding, &plan.authorization).expect("finish");
    assert_eq!(finish.review.review_verdict, ReviewVerdict::Approved);
    assert!(finish.review.findings.is_empty());
    assert_eq!(task.workflow_stage, WorkflowStage::Review);
    assert_eq!(run.status, IsolatedTaskRunStatus::Review);
    let WorkerFollowUp::Recorder(recorder) = finish.follow_up else { panic!("recorder") };
    assert_eq!(recorder.host_agent_id, "product_analyst");
    assert!(recorder.prompt.contains("Summary: done"));

    let recorder_payload = ended(HostSubagentStatus::Completed, "  \n Delivered the change\nmore", vec![]);
    let mut recorder_done = recorder.clone();
    loom::harness::execution::apply_ended_event(&mut recorder_done, &recorder_payload);
    let result = finish_recorder_execution(&mut task, &mut run, &recorder_done, &recorder_payload, &plan.binding, None).expect("result");
    assert_eq!(result.contract.outcome, ResultOutcome::Completed);
    assert_eq!(result.contract.acceptance_verdict, AcceptanceResult::Accepted);
    assert_eq!(result.contract.key_outcomes[0], "Delivered the change");
    assert_eq!(result.contract.key_outcomes[1], task.expected_outcome);
    assert_eq!(result.proof.evidence_refs[0].reference, run.run_ref);
    assert_eq!(result.proof.acceptance_basis.len(), 3);
    assert_eq!(task.workflow_stage, WorkflowStage::Result);
    assert_eq!(run.status, IsolatedTaskRunStatus::Result);
    assert_eq!(task.agent_binding.as_ref().map(|b| b.status), Some(loom::model::task::AgentBindingStatus::Closed));
    assert_eq!(result.summary.proof_of_work_excerpt.run_summary, result.contract.summary);
}

#[test]
fn review_findings_decide_the_verdict() {
    let (_, plan) = active_task();
    let StartDispatch::Worker { command, .. } = &plan.dispatch else { panic!("worker") };
    let task = plan.task.clone();
    let run = plan.run.clone();
    let rework = ended(HostSubagentStatus::Completed, "did things", vec![]);
    let review = build_review_result(&task, &run, command, &rework, &plan.authorization).expect("review");
    assert_eq!(review.review_verdict, ReviewVerdict::ReworkRequired);
    assert_eq!(review.findings, vec!["worker output is missing the required Verification section".to_string()]);
    assert!(review.summary.follow_up_required);

    let escaped = ended(HostSubagentStatus::Completed, "VERIFICATION: ok", vec!["/etc/passwd"]);
    let review = build_review_result(&task, &run, command, &escaped, &plan.authorization).expect("review");
    assert_eq!(review.review_verdict, ReviewVerdict::Blocked);
    assert_eq!(review.findings, vec!["worker artifacts escaped authorized roots".to_string()]);

    let failed = ended(HostSubagentStatus::Failed, "", vec![]);
    let review = build_review_result(&task, &run, command, &failed, &plan.authorization).expect("review");
    assert_eq!(review.review_verdict, ReviewVerdict::Blocked);
    assert_eq!(review.findings.len(), 2);
    assert_eq!(review.findings[0], "worker returned empty output");

    let mut no_spec = task.clone();
    no_spec.spec_bundle = None;
    let e = build_review_result(&no_spec, &run, command, &failed, &plan.authorization).unwrap_err();
    assert_eq!(e.message(), format!("spec bundle missing for task {}", task.managed_task_ref));

    assert_eq!(review_outcome(ReviewVerdict::ReworkRequired), ResultOutcome::ReworkRequired);
    assert_eq!(review_acceptance(ReviewVerdict::Blocked), AcceptanceResult::EscalatedToUser);
    let actions = next_actions_for_outcome(ResultOutcome::Blocked, &review);
    assert_eq!(actions[0].title, "Inspect blocked execution");
    assert_eq!(actions[0].details, "worker returned empty output");
    assert_eq!(build_key_outcomes("\n\n", &task)[0], "");
}

#[test]
fn r04_critical_risk_stops_silent_execution_and_opens_approval_window() {
    let (task, plan) = active_task();
    let proposal = ProposedAction {
        proposal_id: "proposal-1".into(),
        managed_task_ref: task.managed_task_ref.clone(),
        stage_run_ref: None,
        decision_area: DecisionArea::ToolExecution,
        tool_name: Some("rm".into()),
        readable_roots: vec![],
        writable_roots: vec!["/".into()],
        secret_classes: vec![],
        external_side_effect: false,
        irreversible: true,
        estimated_budget_band: AuthorizationBudgetBand::Standard,
        preview_available: false,
        reason: "clean up".into(),
    };
    let p = plan_proposed_action(&proposal, task.clone(), &capability_snapshot("s"), &plan.scope, &plan.run, Some(&plan.authorization));
    assert_eq!(p.assessment.overall_risk_band, RiskBand::Critical);
    assert_eq!(p.assessment.trigger_reason, "proposed action override: clean up");
    let narrowed = p.narrowed_authorization.expect("narrowed");
    assert_eq!(narrowed.status, ExecutionAuthorizationStatus::Narrowed);
    assert_eq!(p.task.current_execution_authorization_ref.as_deref(), Some(narrowed.authorization_id.as_str()));
    assert_eq!(p.task.current_baseline_risk_ref, task.current_baseline_risk_ref);
    match p.response {
        ProposalResponse::Approval { window, request } => {
            assert_eq!(request.risk_summary, "overall_risk_band=Critical");
            assert_eq!(request.decision_token, window.decision_token);
            assert_eq!(p.task.current_pending_window_ref.as_deref(), Some(window.window_id.as_str()));
        },
        ProposalResponse::Allow(_) => panic!("a critical action must wait for approval"),
    }

    let harmless = ProposedAction {
        writable_roots: vec![],
        irreversible: false,
        preview_available: true,
        tool_name: Some("read_file".into()),
        ..proposal
    };
    let p = plan_proposed_action(&harmless, task.clone(), &capability_snapshot("s"), &plan.scope, &plan.run, None);
    assert!(p.narrowed_authorization.is_none());
    assert!(matches!(p.response, ProposalResponse::Allow(_)));
}

#[test]
fn r05_capability_drift_reissues_authorization_against_new_snapshot() {
    let (task, plan) = active_task();
    let before = capability_snapshot("s");
    let mut after = capability_snapshot("s");
    assert!(!should_reissue(Some(&before), &after));
    assert!(!should_reissue(None, &after));
    after.writable_roots = vec![];
    after.capability_snapshot_ref = "cap-2".into();
    assert!(should_reissue(Some(&before), &after));
    let r = plan_capability_reissue(task.clone(), &plan.scope, &after, &plan.run, &plan.baseline, Some(&plan.authorization));
    assert_eq!(r.authorization.capability_snapshot_ref, "cap-2");
    assert_eq!(r.authorization.supersedes.as_deref(), Some(plan.authorization.authorization_id.as_str()));
    assert!(r.authorization.granted_areas[0].writable_roots.is_empty());
    let baseline = r.baseline.expect("baseline");
    assert_eq!(baseline.supersedes.as_deref(), Some(plan.baseline.assessment_id.as_str()));
    assert_eq!(r.task.current_baseline_risk_ref.as_deref(), Some(baseline.assessment_id.as_str()));

    let resumed = plan_resume(&task.managed_task_ref, task.clone(), &plan.run, &before, &plan.scope, &plan.baseline, None);
    assert_eq!(resumed.superseded_authorization_id, None);
    assert_eq!(resumed.authorization.issued_reason, "resume_task reissue");
}

#[test]
fn current_turn_carries_fresh_ingress_metadata() {
    let turn = build_current_turn("session-1".into(), "hello".into());
    assert!(turn.meta.ingress_id.starts_with("ingress-"));
    assert!(turn.meta.correlation_id.starts_with("corr-"));
    assert_eq!(turn.meta.dedupe_window, "PT10M");
    assert_eq!(turn.workspace_ref.as_deref(), Some("/Users/codez/.openclaw"));
    assert_eq!(turn.repo_ref.as_deref(), Some("openclaw"));
    assert!(turn.host_message_ref.unwrap().starts_with("host-message-"));
}

fn risk_chain_capability(session: &str) -> HostCapabilitySnapshot {
    HostCapabilitySnapshot {
        allowed_tools: vec!["read_file".into(), "write_file".into(), "git_push".into()],
        readable_roots: vec!["/Users/codez/.openclaw".into(), "/tmp".into()],
        secret_classes: vec!["repo".into(), "dev".into()],
        ..capability_snapshot(session)
    }
}

fn approved(session: &str) -> (ManagedTask, loom::harness::start::StartPlan) {
    let (task, window) = opened(session);
    let approve = action(ControlActionKind::ApproveStart, Some(&task.managed_task_ref), Some(&window.decision_token), Some("decision-ref"));
    let plan = plan_approve_start(&approve, &window, task, &risk_chain_capability(session)).expect("approve_start");
    (plan.task.clone(), plan)
}

#[test]
fn r01_baseline_is_issued_before_first_authorization_after_approve_start() {
    let (task, plan) = approved("session-r01");
    assert_eq!(task.workflow_stage, WorkflowStage::Execute);
    assert_eq!(task.current_scope_version, Some(1));
    assert_eq!(plan.baseline.subject_kind, RiskSubjectKind::TaskBaseline);
    assert_eq!(task.current_baseline_risk_ref.as_deref(), Some(plan.baseline.assessment_id.as_str()));
    assert_eq!(Some(plan.authorization.task_scope_ref.clone()), task.current_scope_ref);
    let task_execution = plan
        .authorization
        .granted_areas
        .iter()
        .find(|area| area.decision_area == DecisionArea::TaskExecution)
        .expect("task execution area");
    assert!(task_execution.spawn_agent_allowed);
    assert!(task.phase_plan.is_some());
    assert!(task.agent_binding.is_some());
    match plan.dispatch {
        StartDispatch::Worker { command, .. } => assert_eq!(command.role_kind, AgentRoleKind::Worker),
        StartDispatch::Blocked { .. } => panic!("the worker must be dispatched"),
    }
}

#[test]
fn r02_scope_version_change_supersedes_baseline_and_reissues_authorization() {
    let (task, plan) = approved("session-r02");
    let mut request = action(
        ControlActionKind::RequestTaskChange,
        Some(&task.managed_task_ref),
        None,
        Some("decision-ref-never-stored"),
    );
    request.payload = ControlActionPayload {
        summary: Some("Implement first-layer chain and expand writable scope.".into()),
        expected_outcome: Some("Scope version increments and auth reissues.".into()),
        requirement_items: vec![RequirementItemDraft {
            text: "Add scope change supersede handling".into(),
            origin: RequirementOrigin::TaskChange,
        }],
        allowed_roots: vec!["/Users/codez/.openclaw".into(), "/tmp".into()],
        secret_classes: vec!["repo".into(), "dev".into()],
        ..ControlActionPayload::default()
    };
    assert!(matches!(route_control_action(&request), Ok(ControlRoute::RequestTaskChange)));
    let source_ref = task_change_source_ref(&request).expect("source judgment cited");
    // The cited judgment was never stored: the request's own task is changed.
    let task_ref = resolve_task_change_target(&request, &source_ref, None).expect("accepted");
    assert_eq!(task_ref, task.managed_task_ref);
    let change = plan_task_change(
        &task_ref,
        &source_ref,
        &request.payload,
        task.clone(),
        &risk_chain_capability("session-r02"),
        &plan.scope,
        &plan.baseline,
        &plan.authorization,
        &plan.run,
    );
    assert_eq!(plan.scope.scope_version, 1);
    assert_eq!(change.scope.scope_version, 2);
    assert_eq!(change.baseline.supersedes, Some(plan.baseline.assessment_id.clone()));
    assert_eq!(change.authorization.supersedes, Some(plan.authorization.authorization_id.clone()));
}

#[test]
fn r03_risky_action_creates_action_override_without_replacing_baseline() {
    let (task, plan) = approved("session-r03");
    let proposal = ProposedAction {
        proposal_id: "proposal-r03".into(),
        managed_task_ref: task.managed_task_ref.clone(),
        stage_run_ref: None,
        decision_area: DecisionArea::ToolExecution,
        tool_name: Some("git_push".into()),
        readable_roots: vec!["/Users/codez/.openclaw".into()],
        writable_roots: vec!["/Users/codez/.openclaw".into()],
        secret_classes: vec!["repo".into()],
        external_side_effect: true,
        irreversible: false,
        estimated_budget_band: AuthorizationBudgetBand::Standard,
        preview_available: false,
        reason: "Push changes to remote".into(),
    };
    let p = plan_proposed_action(
        &proposal,
        task.clone(),
        &risk_chain_capability("session-r03"),
        &plan.scope,
        &plan.run,
        Some(&plan.authorization),
    );
    assert_eq!(p.assessment.subject_kind, RiskSubjectKind::ActionOverride);
    assert!(p.assessment.derived_consequences.contains(&RiskConsequence::NarrowExecutionAuthorization));
    assert_eq!(p.task.current_baseline_risk_ref, task.current_baseline_risk_ref);
    assert_eq!(p.task.current_baseline_risk_ref.as_deref(), Some(plan.baseline.assessment_id.as_str()));
}

#[test]
fn semantic_decision_ingress_accepts_task_change_governance_fields_for_active_task() {
    let (task, _) = approved("bridge-session");
    let decision = LegacySemanticDecisionEnvelope {
        managed_task_ref: Some(task.managed_task_ref.clone()),
        interaction_lane: InteractionLane::ManagedTaskActive,
        task_change_classification: Some(TaskChangeClassification::SameTaskMinor),
        task_change_execution_surface: Some(ChangeExecutionSurface::FutureOnly),
        task_change_boundary_recommendation: Some(BoundaryRecommendation::AbsorbChange),
        title: None,
        summary: Some("Update the active task.".into()),
        expected_outcome: None,
        requirement_items: Vec::new(),
        ..managed_candidate("bridge-session")
    };
    match route_semantic_decision(&decision).expect("accepted") {
        LaneRoute::CheckActiveTask(task_ref) => {
            assert_eq!(task_ref, task.managed_task_ref);
            let found = found_task(Some(task.clone()), &task_ref).expect("known task");
            assert_eq!(found.workflow_stage, WorkflowStage::Execute);
        },
        _ => panic!("an active-lane decision is checked against its task"),
    }
}

#[test]
fn control_action_missing_decision_token_returns_bad_request_after_auth() {
    let control = action(ControlActionKind::ApproveStart, Some("task-unknown"), None, None);
    let refusal = route_control_action(&control).unwrap_err();
    assert_eq!(refusal, LoomHarnessError::MissingDecisionToken);
    assert_eq!(refusal.message(), "missing decision_token for window-consuming control action");
}

#[test]
fn legacy_request_task_change_without_source_judgment_returns_bad_request_after_auth() {
    let (task, _) = approved("bridge-legacy-task-change");
    let mut control = action(ControlActionKind::RequestTaskChange, Some(&task.managed_task_ref), None, None);
    control.payload.summary = Some("Expand the active task.".into());
    control.payload.workspace_ref = Some("/Users/codez/.openclaw/notifier".into());
    assert!(matches!(route_control_action(&control), Ok(ControlRoute::RequestTaskChange)));
    let refusal = task_change_source_ref(&control).unwrap_err();
    assert!(is_task_change_clarification_error(&FlowError::Harness(refusal)));
    let notice = clarification_notice(&task).expect("notice").expect("task has a plan");
    assert_eq!(notice.headline, "Task change needs clarification");
    assert_eq!(notice.notice_kind, StatusNoticeKind::Blocked);
}

#[test]
fn host_execution_routes_require_auth_and_accept_lifecycle_ingress() {
    let (_, plan) = approved("bridge-session");
    let StartDispatch::Worker { command, .. } = plan.dispatch else {
        panic!("the worker must be dispatched");
    };
    let mut queue = vec![command];
    let k = select_next_command(&queue, "bridge-session").expect("worker command");
    assert!(acknowledge_command(&mut queue[k]));
    assert_eq!(queue[k].status, HostExecutionCommandStatus::Dispatched);
    apply_spawned_event(&mut queue[k], &SubagentSpawnedPayload {
        host_child_execution_ref: "agent:coder:child-1".into(),
        host_child_run_ref: Some("run-child-1".into()),
        host_agent_id: "coder".into(),
        observed_at: now_timestamp(),
    });
    assert_eq!(queue[k].status, HostExecutionCommandStatus::Running);
    assert_eq!(queue[k].host_child_execution_ref.as_deref(), Some("agent:coder:child-1"));
}
