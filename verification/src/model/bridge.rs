use vstd::prelude::*;
use crate::model::ids::AdapterId;
use crate::model::ids::AgentBindingId;
use crate::model::task::AgentRoleKind;
use crate::model::ids::BridgeBootstrapSecret;
use crate::model::ids::BridgeBootstrapTicketId;
use crate::model::ids::BridgeCredentialId;
use crate::model::ids::BridgeInstanceId;
use crate::model::ids::BridgeNonce;
use crate::model::ids::BridgeSecretRef;
use crate::model::ids::BridgeSessionSecret;
use crate::model::ids::BridgeSignature;
use crate::model::ingress::ControlActionKind;
use crate::model::ids::DecisionToken;
use crate::model::ids::HostExecutionCommandId;
use crate::model::ids::HostSessionId;
use crate::model::ids::IsolatedTaskRunRef;
use crate::model::ids::ManagedTaskRef;
use crate::model::ids::Timestamp;

verus! {

#[derive(Clone, Copy, Debug, PartialEq, Eq, Structural)]
pub enum BridgeCredentialStatus {
    PendingBootstrap,
    Active,
    Rotating,
    Revoked,
    Expired,
    Consumed,
}

impl View for BridgeCredentialStatus {
    type V = BridgeCredentialStatus;

    open spec fn view(&self) -> BridgeCredentialStatus {
        *self
    }
}

impl DeepView for BridgeCredentialStatus {
    type V = BridgeCredentialStatus;

    open spec fn deep_view(&self) -> BridgeCredentialStatus {
        *self
    }
}

#[derive(Debug, PartialEq, Eq)]
pub struct BridgeBootstrapTicket {
    pub ticket_id: BridgeBootstrapTicketId,
    pub bridge_instance_id: BridgeInstanceId,
    pub adapter_id: AdapterId,
    pub issued_at: Timestamp,
    pub expires_at: Timestamp,
    pub ticket_secret_hash: String,
    pub status: BridgeCredentialStatus,
}

pub struct BridgeBootstrapTicketView {
    pub ticket_id: Seq<char>,
    pub bridge_instance_id: Seq<char>,
    pub adapter_id: Seq<char>,
    pub issued_at: Seq<char>,
    pub expires_at: Seq<char>,
    pub ticket_secret_hash: Seq<char>,
    pub status: BridgeCredentialStatus,
}

impl View for BridgeBootstrapTicket {
    type V = BridgeBootstrapTicketView;

    open spec fn view(&self) -> BridgeBootstrapTicketView {
        BridgeBootstrapTicketView {
            ticket_id: self.ticket_id@,
            bridge_instance_id: self.bridge_instance_id@,
            adapter_id: self.adapter_id@,
            issued_at: self.issued_at@,
            expires_at: self.expires_at@,
            ticket_secret_hash: self.ticket_secret_hash@,
            status: self.status,
        }
    }
}

impl DeepView for BridgeBootstrapTicket {
    type V = BridgeBootstrapTicketView;

    open spec fn deep_view(&self) -> BridgeBootstrapTicketView {
        self.view()
    }
}

#[derive(Debug, PartialEq, Eq)]
pub struct BridgeBootstrapMaterial {
    pub bridge_instance_id: BridgeInstanceId,
    pub adapter_id: AdapterId,
    pub ticket_id: BridgeBootstrapTicketId,
    pub ticket_secret: BridgeBootstrapSecret,
    pub issued_at: Timestamp,
    pub expires_at: Timestamp,
}

pub struct BridgeBootstrapMaterialView {
    pub bridge_instance_id: Seq<char>,
    pub adapter_id: Seq<char>,
    pub ticket_id: Seq<char>,
    pub ticket_secret: Seq<char>,
    pub issued_at: Seq<char>,
    pub expires_at: Seq<char>,
}

impl View for BridgeBootstrapMaterial {
    type V = BridgeBootstrapMaterialView;

    open spec fn view(&self) -> BridgeBootstrapMaterialView {
        BridgeBootstrapMaterialView {
            bridge_instance_id: self.bridge_instance_id@,
            adapter_id: self.adapter_id@,
            ticket_id: self.ticket_id@,
            ticket_secret: self.ticket_secret@,
            issued_at: self.issued_at@,
            expires_at: self.expires_at@,
        }
    }
}

impl DeepView for BridgeBootstrapMaterial {
    type V = BridgeBootstrapMaterialView;

    open spec fn deep_view(&self) -> BridgeBootstrapMaterialView {
        self.view()
    }
}

#[derive(Debug, PartialEq, Eq)]
pub struct BridgeSessionCredential {
    pub credential_id: BridgeCredentialId,
    pub bridge_instance_id: BridgeInstanceId,
    pub adapter_id: AdapterId,
    pub secret_ref: BridgeSecretRef,
    pub secret_hash: String,
    pub rotation_epoch: u32,
    pub issued_at: Timestamp,
    pub expires_at: Option<Timestamp>,
    pub status: BridgeCredentialStatus,
}

pub struct BridgeSessionCredentialView {
    pub credential_id: Seq<char>,
    pub bridge_instance_id: Seq<char>,
    pub adapter_id: Seq<char>,
    pub secret_ref: Seq<char>,
    pub secret_hash: Seq<char>,
    pub rotation_epoch: u32,
    pub issued_at: Seq<char>,
    pub expires_at: Option<Seq<char>>,
    pub status: BridgeCredentialStatus,
}

impl View for BridgeSessionCredential {
    type V = BridgeSessionCredentialView;

    open spec fn view(&self) -> BridgeSessionCredentialView {
        BridgeSessionCredentialView {
            credential_id: self.credential_id@,
            bridge_instance_id: self.bridge_instance_id@,
            adapter_id: self.adapter_id@,
            secret_ref: self.secret_ref@,
            secret_hash: self.secret_hash@,
            rotation_epoch: self.rotation_epoch,
            issued_at: self.issued_at@,
            expires_at: self.expires_at.deep_view(),
            status: self.status,
        }
    }
}

impl DeepView for BridgeSessionCredential {
    type V = BridgeSessionCredentialView;

    open spec fn deep_view(&self) -> BridgeSessionCredentialView {
        self.view()
    }
}

#[derive(Debug, PartialEq, Eq)]
pub struct BridgeAuthEnvelope {
    pub bridge_instance_id: BridgeInstanceId,
    pub adapter_id: AdapterId,
    pub secret_ref: BridgeSecretRef,
    pub rotation_epoch: u32,
    pub signed_at: Timestamp,
    pub nonce: BridgeNonce,
    pub signature: BridgeSignature,
}

pub struct BridgeAuthEnvelopeView {
    pub bridge_instance_id: Seq<char>,
    pub adapter_id: Seq<char>,
    pub secret_ref: Seq<char>,
    pub rotation_epoch: u32,
    pub signed_at: Seq<char>,
    pub nonce: Seq<char>,
    pub signature: Seq<char>,
}

impl View for BridgeAuthEnvelope {
    type V = BridgeAuthEnvelopeView;

    open spec fn view(&self) -> BridgeAuthEnvelopeView {
        BridgeAuthEnvelopeView {
            bridge_instance_id: self.bridge_instance_id@,
            adapter_id: self.adapter_id@,
            secret_ref: self.secret_ref@,
            rotation_epoch: self.rotation_epoch,
            signed_at: self.signed_at@,
            nonce: self.nonce@,
            signature: self.signature@,
        }
    }
}

impl DeepView for BridgeAuthEnvelope {
    type V = BridgeAuthEnvelopeView;

    open spec fn deep_view(&self) -> BridgeAuthEnvelopeView {
        self.view()
    }
}

#[derive(Debug, PartialEq, Eq)]
pub struct BridgeBootstrapRequest {
    pub bridge_instance_id: BridgeInstanceId,
    pub adapter_id: AdapterId,
    pub ticket_id: BridgeBootstrapTicketId,
    pub ticket_secret: BridgeBootstrapSecret,
    pub requested_at: Timestamp,
}

pub struct BridgeBootstrapRequestView {
    pub bridge_instance_id: Seq<char>,
    pub adapter_id: Seq<char>,
    pub ticket_id: Seq<char>,
    pub ticket_secret: Seq<char>,
    pub requested_at: Seq<char>,
}

impl View for BridgeBootstrapRequest {
    type V = BridgeBootstrapRequestView;

    open spec fn view(&self) -> BridgeBootstrapRequestView {
        BridgeBootstrapRequestView {
            bridge_instance_id: self.bridge_instance_id@,
            adapter_id: self.adapter_id@,
            ticket_id: self.ticket_id@,
            ticket_secret: self.ticket_secret@,
            requested_at: self.requested_at@,
        }
    }
}

impl DeepView for BridgeBootstrapRequest {
    type V = BridgeBootstrapRequestView;

    open spec fn deep_view(&self) -> BridgeBootstrapRequestView {
        self.view()
    }
}

#[derive(Debug, PartialEq, Eq)]
pub struct BridgeBootstrapAck {
    pub bridge_instance_id: BridgeInstanceId,
    pub credential_id: BridgeCredentialId,
    pub secret_ref: BridgeSecretRef,
    pub rotation_epoch: u32,
    pub session_secret: BridgeSessionSecret,
    pub issued_at: Timestamp,
    pub expires_at: Option<Timestamp>,
}

pub struct BridgeBootstrapAckView {
    pub bridge_instance_id: Seq<char>,
    pub credential_id: Seq<char>,
    pub secret_ref: Seq<char>,
    pub rotation_epoch: u32,
    pub session_secret: Seq<char>,
    pub issued_at: Seq<char>,
    pub expires_at: Option<Seq<char>>,
}

impl View for BridgeBootstrapAck {
    type V = BridgeBootstrapAckView;

    open spec fn view(&self) -> BridgeBootstrapAckView {
        BridgeBootstrapAckView {
            bridge_instance_id: self.bridge_instance_id@,
            credential_id: self.credential_id@,
            secret_ref: self.secret_ref@,
            rotation_epoch: self.rotation_epoch,
            session_secret: self.session_secret@,
            issued_at: self.issued_at@,
            expires_at: self.expires_at.deep_view(),
        }
    }
}

impl DeepView for BridgeBootstrapAck {
    type V = BridgeBootstrapAckView;

    open spec fn deep_view(&self) -> BridgeBootstrapAckView {
        self.view()
    }
}

#[derive(Debug, PartialEq, Eq)]
pub struct BridgeHealthResponse {
    pub bridge_instance_id: BridgeInstanceId,
    pub status: String,
}

pub struct BridgeHealthResponseView {
    pub bridge_instance_id: Seq<char>,
    pub status: Seq<char>,
}

impl View for BridgeHealthResponse {
    type V = BridgeHealthResponseView;

    open spec fn view(&self) -> BridgeHealthResponseView {
        BridgeHealthResponseView {
            bridge_instance_id: self.bridge_instance_id@,
            status: self.status@,
        }
    }
}

impl DeepView for BridgeHealthResponse {
    type V = BridgeHealthResponseView;

    open spec fn deep_view(&self) -> BridgeHealthResponseView {
        self.view()
    }
}

#[derive(Clone, Copy, Debug, PartialEq, Eq, Structural)]
pub enum ControlSurfaceType {
    StartCard,
    BoundaryCard,
    ApprovalRequest,
}

impl View for ControlSurfaceType {
    type V = ControlSurfaceType;

    open spec fn view(&self) -> ControlSurfaceType {
        *self
    }
}

impl DeepView for ControlSurfaceType {
    type V = ControlSurfaceType;

    open spec fn deep_view(&self) -> ControlSurfaceType {
        *self
    }
}

#[derive(Debug, PartialEq, Eq)]
pub struct CurrentControlSurfaceProjection {
    pub host_session_id: HostSessionId,
    pub surface_type: ControlSurfaceType,
    pub managed_task_ref: ManagedTaskRef,
    pub decision_token: DecisionToken,
    pub allowed_actions: Vec<ControlActionKind>,
}

pub struct CurrentControlSurfaceProjectionView {
    pub host_session_id: Seq<char>,
    pub surface_type: ControlSurfaceType,
    pub managed_task_ref: Seq<char>,
    pub decision_token: Seq<char>,
    pub allowed_actions: Seq<ControlActionKind>,
}

impl View for CurrentControlSurfaceProjection {
    type V = CurrentControlSurfaceProjectionView;

    open spec fn view(&self) -> CurrentControlSurfaceProjectionView {
        CurrentControlSurfaceProjectionView {
            host_session_id: self.host_session_id@,
            surface_type: self.surface_type,
            managed_task_ref: self.managed_task_ref@,
            decision_token: self.decision_token@,
            allowed_actions: self.allowed_actions.deep_view(),
        }
    }
}

impl DeepView for CurrentControlSurfaceProjection {
    type V = CurrentControlSurfaceProjectionView;

    open spec fn deep_view(&self) -> CurrentControlSurfaceProjectionView {
        self.view()
    }
}

#[derive(Debug, PartialEq, Eq)]
pub struct HostExecutionCommand {
    pub command_id: HostExecutionCommandId,
    pub managed_task_ref: ManagedTaskRef,
    pub run_ref: IsolatedTaskRunRef,
    pub binding_id: AgentBindingId,
    pub role_kind: AgentRoleKind,
    pub host_session_id: HostSessionId,
    pub host_agent_id: String,
    pub prompt: String,
    pub label: String,
    pub status: HostExecutionCommandStatus,
    pub host_child_execution_ref: Option<String>,
    pub host_child_run_ref: Option<String>,
    pub output_summary: Option<String>,
    pub artifact_refs: Vec<String>,
    pub issued_at: Timestamp,
    pub acked_at: Option<Timestamp>,
    pub completed_at: Option<Timestamp>,
}

pub struct HostExecutionCommandView {
    pub command_id: Seq<char>,
    pub managed_task_ref: Seq<char>,
    pub run_ref: Seq<char>,
    pub binding_id: Seq<char>,
    pub role_kind: AgentRoleKind,
    pub host_session_id: Seq<char>,
    pub host_agent_id: Seq<char>,
    pub prompt: Seq<char>,
    pub label: Seq<char>,
    pub status: HostExecutionCommandStatus,
    pub host_child_execution_ref: Option<Seq<char>>,
    pub host_child_run_ref: Option<Seq<char>>,
    pub output_summary: Option<Seq<char>>,
    pub artifact_refs: Seq<Seq<char>>,
    pub issued_at: Seq<char>,
    pub acked_at: Option<Seq<char>>,
    pub completed_at: Option<Seq<char>>,
}

impl View for HostExecutionCommand {
    type V = HostExecutionCommandView;

    open spec fn view(&self) -> HostExecutionCommandView {
        HostExecutionCommandView {
            command_id: self.command_id@,
            managed_task_ref: self.managed_task_ref@,
            run_ref: self.run_ref@,
            binding_id: self.binding_id@,
            role_kind: self.role_kind,
            host_session_id: self.host_session_id@,
            host_agent_id: self.host_agent_id@,
            prompt: self.prompt@,
            label: self.label@,
            status: self.status,
            host_child_execution_ref: self.host_child_execution_ref.deep_view(),
            host_child_run_ref: self.host_child_run_ref.deep_view(),
            output_summary: self.output_summary.deep_view(),
            artifact_refs: self.artifact_refs.deep_view(),
            issued_at: self.issued_at@,
            acked_at: self.acked_at.deep_view(),
            completed_at: self.completed_at.deep_view(),
        }
    }
}

impl DeepView for HostExecutionCommand {
    type V = HostExecutionCommandView;

    open spec fn deep_view(&self) -> HostExecutionCommandView {
        self.view()
    }
}

#[derive(Clone, Copy, Debug, PartialEq, Eq, Structural)]
pub enum HostExecutionCommandStatus {
    Pending,
    Dispatched,
    Running,
    Completed,
    Failed,
}

impl View for HostExecutionCommandStatus {
    type V = HostExecutionCommandStatus;

    open spec fn view(&self) -> HostExecutionCommandStatus {
        *self
    }
}

impl DeepView for HostExecutionCommandStatus {
    type V = HostExecutionCommandStatus;

    open spec fn deep_view(&self) -> HostExecutionCommandStatus {
        *self
    }
}

} // verus!
