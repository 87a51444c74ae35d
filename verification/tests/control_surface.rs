use loom::harness::candidate::open_candidate;
use loom::model::bridge::ControlSurfaceType;
use loom::model::ids::now_timestamp;
use loom::model::ingress::{ControlActionKind, LegacySemanticDecisionEnvelope};
use loom::model::shared::{InteractionLane, ManagedTaskClass, WorkHorizonKind};
use loom::model::task::{ManagedTask, PendingDecisionWindow, PendingDecisionWindowKind, PendingDecisionWindowStatus};
use loom::store::control_surface::{map_surface_type, resolve_control_surface};

fn candidate(session: &str) -> (ManagedTask, PendingDecisionWindow) {
    let decision = LegacySemanticDecisionEnvelope {
        decision_id: "decision-1".into(),
        host_session_id: session.into(),
        host_message_ref: None,
        managed_task_ref: None,
        interaction_lane: InteractionLane::ManagedTaskCandidate,
        managed_task_class: Some(ManagedTaskClass::Complex),
        work_horizon: Some(WorkHorizonKind::Maintenance),
        task_activation_reason: None,
        task_change_classification: None,
        task_change_execution_surface: None,
        task_change_boundary_recommendation: None,
        title: Some("Task".into()),
        summary: None,
        expected_outcome: None,
        requirement_items: Vec::new(),
        workspace_ref: None,
        repo_ref: None,
        allowed_roots: Vec::new(),
        secret_classes: Vec::new(),
        confidence: None,
        created_at: now_timestamp(),
    };
    let c = open_candidate(&decision).expect("candidate");
    (c.task, c.window.window)
}

#[test]
fn current_control_surface_query_reads_authoritative_open_window_for_session() {
    let (task, window) = candidate("session-1");
    let surface = resolve_control_surface("session-1", &vec![task.clone()], &vec![Some(window.clone())])
        .expect("surface")
        .expect("open window");
    assert_eq!(surface.surface_type, ControlSurfaceType::StartCard);
    assert_eq!(surface.managed_task_ref, task.managed_task_ref);
    assert_eq!(surface.decision_token, window.decision_token);
    assert_eq!(
        surface.allowed_actions,
        vec![ControlActionKind::ApproveStart, ControlActionKind::ModifyCandidate, ControlActionKind::CancelCandidate]
    );
    assert!(resolve_control_surface("session-1", &Vec::new(), &Vec::new()).expect("none").is_none());
    assert_eq!(map_surface_type(PendingDecisionWindowKind::ApprovalRequest), ControlSurfaceType::ApprovalRequest);
    assert_eq!(map_surface_type(PendingDecisionWindowKind::BoundaryConfirmation), ControlSurfaceType::BoundaryCard);
}

#[test]
fn current_control_surface_query_fails_closed_when_session_has_multiple_open_windows() {
    let (t1, w1) = candidate("session-1");
    let (t2, w2) = candidate("session-1");
    let e = resolve_control_surface("session-1", &vec![t1.clone(), t2], &vec![Some(w1.clone()), Some(w2)]).unwrap_err();
    assert_eq!(e.message(), "control surface query conflict: host_session_id=session-1 has 2 open windows");

    let mut consumed = w1.clone();
    consumed.status = PendingDecisionWindowStatus::Consumed;
    let e = resolve_control_surface("session-1", &vec![t1.clone()], &vec![Some(consumed)]).unwrap_err();
    assert_eq!(
        e.message(),
        format!(
            "control surface query conflict: managed_task_ref={} points to non-open pending decision window {} with status Consumed",
            t1.managed_task_ref, w1.window_id
        )
    );
    let e = resolve_control_surface("session-1", &vec![t1.clone()], &vec![None]).unwrap_err();
    assert_eq!(
        e.message(),
        format!(
            "control surface query conflict: managed_task_ref={} points to missing pending decision window {}",
            t1.managed_task_ref, w1.window_id
        )
    );
}
