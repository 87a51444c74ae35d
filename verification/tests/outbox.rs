use loom::model::ids::now_timestamp;
use loom::model::outbound::{
    DeliveryStatus, KernelOutboundPayload, RenderEmphasis, RenderHint, RenderTone, StartCardAction,
    StartCardPayload, StatusNoticeKind, StatusNoticePayload, SuppressHostMessagePayload,
    SuppressionReason,
};
use loom::model::shared::{ManagedTaskClass, TaskActivationReason, WorkHorizonKind};
use loom::store::outbound::{
    acknowledge_delivery, managed_task_ref_from_payload, mark_delivering, new_outbound_delivery,
    schedule_retry, select_next_outbound, sql_integer_value, DEFAULT_OUTBOUND_MAX_ATTEMPTS,
};
use loom::model::outbound::OutboundDelivery;

fn start_card() -> KernelOutboundPayload {
    KernelOutboundPayload::StartCard(StartCardPayload {
        managed_task_ref: "task-1".into(),
        decision_token: "decision-1".into(),
        managed_task_class: ManagedTaskClass::Complex,
        work_horizon: WorkHorizonKind::Maintenance,
        task_activation_reason: TaskActivationReason::ExplicitStartTask,
        title: "Managed task".into(),
        summary: "Retry delivery".into(),
        expected_outcome: "Visible start card".into(),
        recommended_pack_ref: Some("coding_pack".into()),
        allowed_actions: vec![
            StartCardAction::ApproveStart,
            StartCardAction::ModifyCandidate,
            StartCardAction::CancelCandidate,
        ],
        render_hint: Default::default(),
    })
}

fn status_notice() -> KernelOutboundPayload {
    KernelOutboundPayload::StatusNotice(StatusNoticePayload {
        managed_task_ref: "task-1".into(),
        notice_kind: StatusNoticeKind::StageEntered,
        stage_ref: "phase-entry-execute".into(),
        headline: "Entered execute stage".into(),
        summary: "Task entered execute and queued worker dispatch.".into(),
        detail: Some("Worker dispatch has been queued through host execution.".into()),
        render_hint: RenderHint {
            tone: RenderTone::Neutral,
            emphasis: RenderEmphasis::Minimal,
            ..RenderHint::default()
        },
    })
}

/// Takes the next due delivery of a session, as the store hands it out.
fn next(queue: &mut Vec<OutboundDelivery>, session: &str) -> Option<OutboundDelivery> {
    let now = now_timestamp();
    let k = select_next_outbound(queue, session, &now)?;
    mark_delivering(&mut queue[k]);
    Some(queue[k].clone())
}

#[test]
fn status_notice_delivery_keeps_managed_task_ref_for_outbox_queries() {
    let delivery = new_outbound_delivery("session-1".into(), status_notice());
    assert_eq!(delivery.managed_task_ref.as_deref(), Some("task-1"));
    let KernelOutboundPayload::StatusNotice(notice) = delivery.payload else {
        panic!("expected status notice payload");
    };
    assert_eq!(notice.stage_ref, "phase-entry-execute");
}

#[test]
fn retry_scheduled_delivery_waits_until_next_attempt_at() {
    let mut queue = vec![new_outbound_delivery("session-1".into(), start_card())];
    let delivery_id = queue[0].delivery_id.clone();
    let fetched = next(&mut queue, "session-1").expect("delivery");
    assert_eq!(fetched.delivery_id, delivery_id);
    assert_eq!(fetched.attempts, 1);

    let future_attempt_at = (now_timestamp().parse::<u128>().expect("millis") + 60_000).to_string();
    schedule_retry(&mut queue[0], future_attempt_at.clone(), "transcript file not found".into());
    assert_eq!(queue[0].delivery_status, DeliveryStatus::RetryScheduled);
    assert_eq!(queue[0].next_attempt_at.as_deref(), Some(future_attempt_at.as_str()));
    assert_eq!(queue[0].last_error.as_deref(), Some("transcript file not found"));
    assert!(next(&mut queue, "session-1").is_none());
}

#[test]
fn retry_scheduled_delivery_redelivers_when_due_and_ends_terminally_at_max_attempts() {
    let mut queue = vec![new_outbound_delivery("session-1".into(), start_card())];
    let max_attempts = queue[0].max_attempts;
    assert_eq!(max_attempts, DEFAULT_OUTBOUND_MAX_ATTEMPTS);
    for attempt in 1..max_attempts {
        let outbound = next(&mut queue, "session-1").expect("delivery");
        assert_eq!(outbound.attempts, attempt);
        assert_eq!(outbound.delivery_status, DeliveryStatus::Delivering);
        schedule_retry(&mut queue[0], "0".into(), format!("failure-{attempt}"));
        assert_eq!(
            queue[0].delivery_status,
            if attempt < max_attempts {
                DeliveryStatus::RetryScheduled
            } else {
                DeliveryStatus::TerminalFailed
            }
        );
    }
    let final_attempt = next(&mut queue, "session-1").expect("final delivery");
    assert_eq!(final_attempt.attempts, max_attempts);
    assert_eq!(final_attempt.delivery_status, DeliveryStatus::Delivering);
    schedule_retry(&mut queue[0], "0".into(), "final failure".into());
    assert_eq!(queue[0].delivery_status, DeliveryStatus::TerminalFailed);
    assert_eq!(queue[0].next_attempt_at, None);
    assert_eq!(queue[0].last_error.as_deref(), Some("final failure"));
    assert!(next(&mut queue, "session-1").is_none());
}

#[test]
fn deliveries_are_handed_out_in_queue_order_per_session() {
    let mut queue = vec![
        new_outbound_delivery("session-2".into(), start_card()),
        new_outbound_delivery("session-1".into(), start_card()),
        new_outbound_delivery("session-1".into(), status_notice()),
    ];
    let first = next(&mut queue, "session-1").expect("first");
    assert_eq!(first.delivery_id, queue[1].delivery_id);
    let second = next(&mut queue, "session-1").expect("second");
    assert_eq!(second.delivery_id, queue[2].delivery_id);
    assert!(next(&mut queue, "session-1").is_none());
    assert!(next(&mut queue, "session-3").is_none());
}

#[test]
fn acknowledgement_is_idempotent_and_refused_after_terminal_failure() {
    let mut queue = vec![new_outbound_delivery("session-1".into(), start_card())];
    next(&mut queue, "session-1").expect("delivery");
    assert!(acknowledge_delivery(&mut queue[0]));
    assert_eq!(queue[0].delivery_status, DeliveryStatus::Acked);
    let acked_at = queue[0].acked_at.clone();
    assert!(acked_at.is_some());
    assert!(acknowledge_delivery(&mut queue[0]));
    assert_eq!(queue[0].acked_at, acked_at);
    assert!(next(&mut queue, "session-1").is_none());

    let mut failed = new_outbound_delivery("session-1".into(), start_card());
    failed.attempts = failed.max_attempts;
    schedule_retry(&mut failed, "0".into(), "gone".into());
    assert_eq!(failed.delivery_status, DeliveryStatus::TerminalFailed);
    assert!(!acknowledge_delivery(&mut failed));
    assert_eq!(failed.delivery_status, DeliveryStatus::TerminalFailed);
    assert_eq!(failed.acked_at, None);
}

#[test]
fn suppressed_host_messages_concern_no_task() {
    let payload = KernelOutboundPayload::SuppressHostMessage(SuppressHostMessagePayload {
        host_message_ref: Some("m-1".into()),
        reason: SuppressionReason::ToolNoise,
    });
    assert_eq!(managed_task_ref_from_payload(&payload), None);
    assert_eq!(managed_task_ref_from_payload(&start_card()), Some("task-1".to_string()));
    let d = new_outbound_delivery("s".into(), payload);
    assert_eq!(d.managed_task_ref, None);
    assert_eq!(d.attempts, 0);
    assert_eq!(d.delivery_status, DeliveryStatus::Pending);
    assert!(d.delivery_id.starts_with("delivery-"));
}

#[test]
fn outbound_retry_route_schedules_backoff_before_redelivery() {
    let mut queue = vec![new_outbound_delivery("bridge-session".into(), start_card())];
    let first = next(&mut queue, "bridge-session").expect("start card");
    assert_eq!(first.delivery_status, DeliveryStatus::Delivering);
    let future_attempt_at = (now_timestamp().parse::<u128>().expect("millis") + 60_000).to_string();
    schedule_retry(&mut queue[0], future_attempt_at.clone(), "transcript file not found".into());
    assert_eq!(queue[0].delivery_status, DeliveryStatus::RetryScheduled);
    assert_eq!(queue[0].next_attempt_at.as_deref(), Some(future_attempt_at.as_str()));
    assert_eq!(queue[0].last_error.as_deref(), Some("transcript file not found"));
    assert!(next(&mut queue, "bridge-session").is_none());
}

#[test]
fn retry_times_are_compared_as_sqlite_reads_them() {
    assert_eq!(sql_integer_value(" 42x"), 42);
    assert_eq!(sql_integer_value("\t-7"), -7);
    assert_eq!(sql_integer_value("+9"), 9);
    assert_eq!(sql_integer_value("abc"), 0);
    assert_eq!(sql_integer_value("-"), 0);
    assert_eq!(sql_integer_value("99999999999999999999999"), i64::MAX);
    assert_eq!(sql_integer_value("-99999999999999999999999"), i64::MIN);
    let mut queue = vec![new_outbound_delivery("s".into(), start_card())];
    assert!(next(&mut queue, "s").is_some());
    schedule_retry(&mut queue[0], " 99999999999999".into(), "later".into());
    assert!(next(&mut queue, "s").is_none());
}
