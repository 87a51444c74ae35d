use loom::harness::execution::{apply_ended_event, apply_spawned_event, ended_event};
use loom::model::bridge::{HostExecutionCommand, HostExecutionCommandStatus};
use loom::model::ids::now_timestamp;
use loom::model::ingress::{HostSubagentStatus, SubagentEndedPayload, SubagentSpawnedPayload};
use loom::model::task::AgentRoleKind;
use loom::store::host_execution::{acknowledge_command, select_next_command};

fn command(id: &str, session: &str, status: HostExecutionCommandStatus) -> HostExecutionCommand {
    HostExecutionCommand {
        command_id: id.into(),
        managed_task_ref: "task-1".into(),
        run_ref: "run-1".into(),
        binding_id: "binding-1".into(),
        role_kind: AgentRoleKind::Worker,
        host_session_id: session.into(),
        host_agent_id: "coder".into(),
        prompt: "Implement the task".into(),
        label: "loom-worker-task-1".into(),
        status,
        host_child_execution_ref: None,
        host_child_run_ref: None,
        output_summary: None,
        artifact_refs: Vec::new(),
        issued_at: now_timestamp(),
        acked_at: None,
        completed_at: None,
    }
}

#[test]
fn host_execution_late_ack_backfills_timestamp_without_downgrading_status() {
    let mut c = command("exec-late-ack", "agent:main:main", HostExecutionCommandStatus::Running);
    c.host_child_execution_ref = Some("agent:coder:child-1".into());
    c.host_child_run_ref = Some("run-child-1".into());
    let dispatched = acknowledge_command(&mut c);
    assert!(!dispatched);
    assert_eq!(c.status, HostExecutionCommandStatus::Running);
    assert!(c.acked_at.is_some());
}

#[test]
fn host_execution_queue_ack_and_lifecycle_are_durable() {
    let mut queue = vec![
        command("exec-1", "agent:main:main", HostExecutionCommandStatus::Pending),
        command("exec-2", "agent:main:main", HostExecutionCommandStatus::Pending),
    ];
    let k = select_next_command(&queue, "agent:main:main").expect("pending command");
    assert_eq!(queue[k].command_id, "exec-1");
    assert!(acknowledge_command(&mut queue[k]));
    assert_eq!(queue[k].status, HostExecutionCommandStatus::Dispatched);
    let acked_at = queue[k].acked_at.clone();
    assert!(!acknowledge_command(&mut queue[k]));
    assert_eq!(queue[k].acked_at, acked_at);
    let k2 = select_next_command(&queue, "agent:main:main").expect("second command");
    assert_eq!(queue[k2].command_id, "exec-2");
    assert_eq!(select_next_command(&queue, "other"), None);

    let spawned = SubagentSpawnedPayload {
        host_child_execution_ref: "agent:coder:child-1".into(),
        host_child_run_ref: Some("run-child-1".into()),
        host_agent_id: "coder".into(),
        observed_at: "1700000000000".into(),
    };
    apply_spawned_event(&mut queue[0], &spawned);
    assert_eq!(queue[0].status, HostExecutionCommandStatus::Running);
    assert_eq!(queue[0].host_child_execution_ref.as_deref(), Some("agent:coder:child-1"));

    let ended = SubagentEndedPayload {
        host_child_execution_ref: "agent:coder:child-1".into(),
        host_child_run_ref: None,
        host_agent_id: "coder".into(),
        status: HostSubagentStatus::TimedOut,
        output_summary: "partial".into(),
        artifact_refs: vec!["src/lib.rs".into()],
        observed_at: "1700000000500".into(),
    };
    apply_ended_event(&mut queue[0], &ended);
    assert_eq!(queue[0].status, HostExecutionCommandStatus::Failed);
    assert_eq!(queue[0].host_child_run_ref, None);
    assert_eq!(queue[0].output_summary.as_deref(), Some("partial"));
    assert_eq!(queue[0].artifact_refs, vec!["src/lib.rs".to_string()]);
    assert_eq!(queue[0].completed_at.as_deref(), Some("1700000000500"));
    assert_eq!(ended_event(HostSubagentStatus::TimedOut), "host_execution_failed");
    assert_eq!(ended_event(HostSubagentStatus::Completed), "host_execution_completed");
}
