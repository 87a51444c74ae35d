use loom::harness::error::{FlowError, LoomHarnessError};
use loom::harness::semantic_bundle::{
    admit_semantic_bundle, any_inserted, build_legacy_decision, bundle_effects, ensure_supported_candidate,
    known_task_ref_for_clarification, merge_managed_task_ref, validate_request_task_change_batch,
    BundleAdmission,
};
use loom::model::ingress::{
    BoundaryRecommendation, ChangeExecutionSurface, ControlAction, ControlActionEnvelope,
    ControlActionKind, ControlActionPayload, ControlActorRef, DecisionSource, IngressMeta,
    InteractionLaneDecisionPayload, ManagedTaskClassDecisionPayload, SemanticDecisionBatchEnvelope,
    SemanticDecisionEnvelope, SemanticDecisionKind, SemanticDecisionPayload,
    TaskChangeClassification, TaskChangeDecisionPayload, WorkHorizonDecisionPayload,
};
use loom::model::shared::{InteractionLane, ManagedTaskClass, WorkHorizonKind};
use loom::store::persist::{persist_outcome, PersistOutcome};

fn judgment(r: &str, task: Option<&str>, kind: SemanticDecisionKind, payload: SemanticDecisionPayload) -> SemanticDecisionEnvelope {
    SemanticDecisionEnvelope {
        decision_ref: r.into(),
        host_session_id: "session-1".into(),
        host_message_ref: Some("host-message-1".into()),
        managed_task_ref: task.map(|s| s.to_string()),
        decision_kind: kind,
        decision_source: DecisionSource::HostModel,
        rationale: "because".into(),
        confidence: 88,
        source_model_ref: "model-1".into(),
        issued_at: "1700000000000".into(),
        decision_payload: payload,
    }
}

fn lane(r: &str, lane: InteractionLane, task: Option<&str>) -> SemanticDecisionEnvelope {
    judgment(
        r,
        None,
        SemanticDecisionKind::InteractionLane,
        SemanticDecisionPayload::InteractionLane(InteractionLaneDecisionPayload {
            interaction_lane: lane,
            managed_task_ref: task.map(|s| s.to_string()),
            title: Some("Bridge task".into()),
            summary: None,
            expected_outcome: None,
            requirement_items: Vec::new(),
            workspace_ref: None,
            repo_ref: None,
            allowed_roots: vec!["/work".into()],
            secret_classes: Vec::new(),
        }),
    )
}

fn change(r: &str, task: Option<&str>) -> SemanticDecisionEnvelope {
    judgment(
        r,
        task,
        SemanticDecisionKind::TaskChange,
        SemanticDecisionPayload::TaskChange(TaskChangeDecisionPayload {
            classification: TaskChangeClassification::SameTaskMaterial,
            execution_surface: ChangeExecutionSurface::ActiveStage,
            boundary_recommendation: BoundaryRecommendation::RequireConfirmation,
        }),
    )
}

fn batch(decisions: Vec<SemanticDecisionEnvelope>, control: Option<ControlActionEnvelope>) -> SemanticDecisionBatchEnvelope {
    SemanticDecisionBatchEnvelope {
        meta: IngressMeta {
            ingress_id: "ingress-1".into(),
            received_at: "1".into(),
            causation_id: None,
            correlation_id: "corr-1".into(),
            dedupe_window: "PT10M".into(),
        },
        host_session_id: "session-1".into(),
        host_message_ref: None,
        input_ref: "input-1".into(),
        source_model_ref: "model-1".into(),
        issued_at: "1".into(),
        rationale_summary: None,
        semantic_decisions: decisions,
        control_action: control,
    }
}

fn request_change(decision_ref: &str, task: Option<&str>, source: Option<&str>) -> ControlActionEnvelope {
    ControlActionEnvelope {
        decision_ref: decision_ref.into(),
        decision_source: DecisionSource::HostModel,
        rationale: "user asked".into(),
        confidence: 90,
        source_model_ref: "model-1".into(),
        issued_at: "1".into(),
        action: ControlAction {
            action_id: "action-1".into(),
            managed_task_ref: task.map(|s| s.to_string()),
            kind: ControlActionKind::RequestTaskChange,
            actor: ControlActorRef::User,
            payload: ControlActionPayload::default(),
            source_decision_ref: source.map(|s| s.to_string()),
            decision_token: None,
        },
    }
}

#[test]
fn judgments_fold_into_one_legacy_decision() {
    let b = batch(
        vec![
            lane("d-lane", InteractionLane::ManagedTaskActive, Some("task-1")),
            change("d-change", Some("task-1")),
            judgment(
                "d-class",
                None,
                SemanticDecisionKind::ManagedTaskClass,
                SemanticDecisionPayload::ManagedTaskClass(ManagedTaskClassDecisionPayload { managed_task_class: ManagedTaskClass::Huge }),
            ),
        ],
        None,
    );
    let legacy = build_legacy_decision(&b).expect("fold").expect("decision");
    assert_eq!(legacy.decision_id, "d-lane");
    assert_eq!(legacy.managed_task_ref.as_deref(), Some("task-1"));
    assert_eq!(legacy.interaction_lane, InteractionLane::ManagedTaskActive);
    assert_eq!(legacy.managed_task_class, Some(ManagedTaskClass::Huge));
    assert_eq!(legacy.task_change_classification, Some(TaskChangeClassification::SameTaskMaterial));
    assert_eq!(legacy.title.as_deref(), Some("Bridge task"));
    assert_eq!(legacy.allowed_roots, vec!["/work".to_string()]);
    assert_eq!(legacy.confidence, Some(88));
    assert_eq!(legacy.work_horizon, None);
    assert!(build_legacy_decision(&batch(Vec::new(), None)).expect("empty").is_none());
}

#[test]
fn inconsistent_batches_are_refused() {
    let dup_ref = batch(vec![lane("d", InteractionLane::Chat, None), change("d", None)], None);
    assert_eq!(
        build_legacy_decision(&dup_ref).unwrap_err(),
        FlowError::Harness(LoomHarnessError::DuplicateDecisionRef("d".into()))
    );
    let dup_kind = batch(vec![change("d1", None), change("d2", None)], None);
    let e = build_legacy_decision(&dup_kind).unwrap_err();
    assert_eq!(e, FlowError::Harness(LoomHarnessError::DuplicateSemanticDecisionKind("taskchange".into())));
    assert_eq!(e.message(), "semantic bundle has duplicate semantic decision kind: taskchange");
    let mismatch = batch(vec![change("d1", Some("task-1")), lane("d2", InteractionLane::ManagedTaskActive, Some("task-2"))], None);
    assert_eq!(
        build_legacy_decision(&mismatch).unwrap_err(),
        FlowError::Other("semantic bundle managed_task_ref mismatch".into())
    );
    let no_lane = batch(vec![change("d1", None)], None);
    assert_eq!(
        build_legacy_decision(&no_lane).unwrap_err(),
        FlowError::Harness(LoomHarnessError::MissingInteractionLaneDecision)
    );
    let wrong_payload = batch(
        vec![judgment(
            "d1",
            None,
            SemanticDecisionKind::WorkHorizon,
            SemanticDecisionPayload::ManagedTaskClass(ManagedTaskClassDecisionPayload { managed_task_class: ManagedTaskClass::Max }),
        )],
        None,
    );
    assert_eq!(
        build_legacy_decision(&wrong_payload).unwrap_err(),
        FlowError::Other("semantic decision_kind does not match decision_payload".into())
    );
    let reused = batch(vec![lane("d1", InteractionLane::Chat, None)], Some(request_change("d1", None, None)));
    assert_eq!(
        build_legacy_decision(&reused).unwrap_err(),
        FlowError::Harness(LoomHarnessError::DuplicateDecisionRef("d1".into()))
    );
}

#[test]
fn semantic_bundle_ingress_accepts_paired_request_task_change_and_persists_judgment_fact() {
    let b = batch(
        vec![lane("d-lane", InteractionLane::ManagedTaskActive, Some("task-1")), change("d-change", Some("task-1"))],
        Some(request_change("d-control", Some("task-1"), Some("d-change"))),
    );
    let outcomes = vec![PersistOutcome::Inserted, PersistOutcome::Inserted];
    match admit_semantic_bundle(&b, &outcomes, Some(PersistOutcome::Inserted)) {
        BundleAdmission::Admitted(Some(legacy)) => assert_eq!(legacy.managed_task_ref.as_deref(), Some("task-1")),
        _ => panic!("expected the batch to be admitted"),
    }
    assert!(any_inserted(&outcomes));
    assert!(!any_inserted(&vec![PersistOutcome::DuplicateSame]));
}

#[test]
fn semantic_bundle_ingress_rejects_unpaired_request_task_change_and_keeps_only_rejected_batch() {
    let b = batch(
        vec![lane("d-lane", InteractionLane::ManagedTaskActive, Some("task-1"))],
        Some(request_change("d-control", Some("task-1"), Some("d-missing"))),
    );
    let legacy = build_legacy_decision(&b).unwrap().unwrap();
    assert_eq!(
        validate_request_task_change_batch(&b, Some(&legacy)),
        Err(LoomHarnessError::MissingPairedTaskChangeJudgment)
    );
    match admit_semantic_bundle(&b, &vec![PersistOutcome::Inserted], None) {
        BundleAdmission::Rejected(e, clarify) => {
            assert_eq!(e, FlowError::Harness(LoomHarnessError::MissingPairedTaskChangeJudgment));
            assert_eq!(clarify.as_deref(), Some("task-1"));
        },
        _ => panic!("expected a rejection"),
    }
    let unsourced = batch(Vec::new(), Some(request_change("d-control", None, None)));
    assert_eq!(
        validate_request_task_change_batch(&unsourced, None),
        Err(LoomHarnessError::MissingTaskChangeSourceDecisionRef)
    );
    assert_eq!(known_task_ref_for_clarification(&unsourced, None), None);
    let wrong_task = batch(
        vec![lane("d-lane", InteractionLane::ManagedTaskActive, Some("task-1")), change("d-change", None)],
        Some(request_change("d-control", Some("task-2"), Some("d-change"))),
    );
    let legacy = build_legacy_decision(&wrong_task).unwrap().unwrap();
    assert_eq!(
        validate_request_task_change_batch(&wrong_task, Some(&legacy)),
        Err(LoomHarnessError::TaskChangeManagedTaskMismatch)
    );
}

#[test]
fn conflicting_records_reject_the_batch() {
    let b = batch(vec![lane("d-lane", InteractionLane::Chat, None)], Some(request_change("d-control", None, Some("x"))));
    match admit_semantic_bundle(&b, &vec![PersistOutcome::Conflict], None) {
        BundleAdmission::Rejected(e, None) => {
            // The request is unpaired, and that is checked first.
            assert_eq!(e, FlowError::Harness(LoomHarnessError::MissingPairedTaskChangeJudgment));
        },
        _ => panic!("expected a rejection"),
    }
    let plain = batch(vec![lane("d-lane", InteractionLane::Chat, None)], None);
    match admit_semantic_bundle(&plain, &vec![PersistOutcome::Conflict], None) {
        BundleAdmission::Rejected(e, None) => {
            assert_eq!(e.message(), "host decision_ref conflicts with different payload: d-lane");
        },
        _ => panic!("expected a rejection"),
    }
    assert_eq!(persist_outcome(&None, "{}"), PersistOutcome::Inserted);
    assert_eq!(persist_outcome(&Some("{}".into()), "{}"), PersistOutcome::DuplicateSame);
    assert_eq!(persist_outcome(&Some("{}".into()), "{\"a\":1}"), PersistOutcome::Conflict);
}

#[test]
fn candidate_decisions_need_class_and_horizon() {
    let b = batch(
        vec![
            lane("d-lane", InteractionLane::ManagedTaskCandidate, None),
            judgment(
                "d-h",
                None,
                SemanticDecisionKind::WorkHorizon,
                SemanticDecisionPayload::WorkHorizon(WorkHorizonDecisionPayload { work_horizon: WorkHorizonKind::Extension }),
            ),
        ],
        None,
    );
    let legacy = build_legacy_decision(&b).unwrap().unwrap();
    assert_eq!(ensure_supported_candidate(&legacy), Err(LoomHarnessError::MissingManagedTaskSemantics));
    let mut current = Some("task-1".to_string());
    assert!(merge_managed_task_ref(&mut current, Some("task-1".into())).is_ok());
    assert!(merge_managed_task_ref(&mut current, Some("task-2".into())).is_err());
    let mut empty: Option<String> = None;
    assert!(merge_managed_task_ref(&mut empty, Some("task-3".into())).is_ok());
    assert_eq!(empty.as_deref(), Some("task-3"));
}

#[test]
fn replayed_records_apply_nothing_again() {
    let replay = bundle_effects(&vec![PersistOutcome::DuplicateSame, PersistOutcome::DuplicateSame], Some(PersistOutcome::DuplicateSame));
    assert!(!replay.apply_decision && !replay.apply_control_action);
    let first = bundle_effects(&vec![PersistOutcome::DuplicateSame, PersistOutcome::Inserted], Some(PersistOutcome::Inserted));
    assert!(first.apply_decision && first.apply_control_action);
    let none = bundle_effects(&Vec::new(), None);
    assert!(!none.apply_decision && !none.apply_control_action);
}
