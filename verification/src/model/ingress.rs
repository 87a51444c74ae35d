use vstd::prelude::*;
use crate::model::ids::{is_millis_text, is_minted_id, new_id, now_timestamp};
use crate::text::owned;
use crate::model::task::AgentRoleKind;
use crate::model::authorization::AuthorizationBudgetBand;
use crate::model::ids::ControlActionId;
use crate::model::ids::DecisionToken;
use crate::model::ids::HostCapabilitySnapshotRef;
use crate::model::ids::HostExecutionCommandId;
use crate::model::ids::HostMessageRef;
use crate::model::ids::HostSessionId;
use crate::model::shared::InteractionLane;
use crate::model::ids::IsolatedTaskRunRef;
use crate::model::shared::ManagedTaskClass;
use crate::model::ids::ManagedTaskRef;
use crate::model::task::RequirementOrigin;
use crate::model::ids::SemanticDecisionEnvelopeId;
use crate::model::shared::TaskActivationReason;
use crate::model::ids::Timestamp;
use crate::model::shared::WorkHorizonKind;

verus! {

#[derive(Debug, PartialEq, Eq)]
pub struct IngressMeta {
    pub ingress_id: String,
    pub received_at: Timestamp,
    pub causation_id: Option<String>,
    pub correlation_id: String,
    pub dedupe_window: String,
}

pub struct IngressMetaView {
    pub ingress_id: Seq<char>,
    pub received_at: Seq<char>,
    pub causation_id: Option<Seq<char>>,
    pub correlation_id: Seq<char>,
    pub dedupe_window: Seq<char>,
}

impl View for IngressMeta {
    type V = IngressMetaView;

    open spec fn view(&self) -> IngressMetaView {
        IngressMetaView {
            ingress_id: self.ingress_id@,
            received_at: self.received_at@,
            causation_id: self.causation_id.deep_view(),
            correlation_id: self.correlation_id@,
            dedupe_window: self.dedupe_window@,
        }
    }
}

impl DeepView for IngressMeta {
    type V = IngressMetaView;

    open spec fn deep_view(&self) -> IngressMetaView {
        self.view()
    }
}

#[derive(Debug, PartialEq, Eq)]
pub struct CurrentTurnEnvelope {
    pub meta: IngressMeta,
    pub host_session_id: HostSessionId,
    pub host_message_ref: Option<HostMessageRef>,
    pub text: String,
    pub workspace_ref: Option<String>,
    pub repo_ref: Option<String>,
}

pub struct CurrentTurnEnvelopeView {
    pub meta: IngressMetaView,
    pub host_session_id: Seq<char>,
    pub host_message_ref: Option<Seq<char>>,
    pub text: Seq<char>,
    pub workspace_ref: Option<Seq<char>>,
    pub repo_ref: Option<Seq<char>>,
}

impl View for CurrentTurnEnvelope {
    type V = CurrentTurnEnvelopeView;

    open spec fn view(&self) -> CurrentTurnEnvelopeView {
        CurrentTurnEnvelopeView {
            meta: self.meta@,
            host_session_id: self.host_session_id@,
            host_message_ref: self.host_message_ref.deep_view(),
            text: self.text@,
            workspace_ref: self.workspace_ref.deep_view(),
            repo_ref: self.repo_ref.deep_view(),
        }
    }
}

impl DeepView for CurrentTurnEnvelope {
    type V = CurrentTurnEnvelopeView;

    open spec fn deep_view(&self) -> CurrentTurnEnvelopeView {
        self.view()
    }
}

#[derive(Debug, PartialEq, Eq)]
pub struct HostCapabilitySnapshot {
    pub capability_snapshot_ref: HostCapabilitySnapshotRef,
    pub host_session_id: HostSessionId,
    pub allowed_tools: Vec<String>,
    pub readable_roots: Vec<String>,
    pub writable_roots: Vec<String>,
    pub secret_classes: Vec<String>,
    pub max_budget_band: AuthorizationBudgetBand,
    pub available_agent_ids: Vec<String>,
    pub supports_spawn_agents: bool,
    pub supports_pause: bool,
    pub supports_resume: bool,
    pub supports_interrupt: bool,
    pub recorded_at: Timestamp,
}

pub struct HostCapabilitySnapshotView {
    pub capability_snapshot_ref: Seq<char>,
    pub host_session_id: Seq<char>,
    pub allowed_tools: Seq<Seq<char>>,
    pub readable_roots: Seq<Seq<char>>,
    pub writable_roots: Seq<Seq<char>>,
    pub secret_classes: Seq<Seq<char>>,
    pub max_budget_band: AuthorizationBudgetBand,
    pub available_agent_ids: Seq<Seq<char>>,
    pub supports_spawn_agents: bool,
    pub supports_pause: bool,
    pub supports_resume: bool,
    pub supports_interrupt: bool,
    pub recorded_at: Seq<char>,
}

impl View for HostCapabilitySnapshot {
    type V = HostCapabilitySnapshotView;

    open spec fn view(&self) -> HostCapabilitySnapshotView {
        HostCapabilitySnapshotView {
            capability_snapshot_ref: self.capability_snapshot_ref@,
            host_session_id: self.host_session_id@,
            allowed_tools: self.allowed_tools.deep_view(),
            readable_roots: self.readable_roots.deep_view(),
            writable_roots: self.writable_roots.deep_view(),
            secret_classes: self.secret_classes.deep_view(),
            max_budget_band: self.max_budget_band,
            available_agent_ids: self.available_agent_ids.deep_view(),
            supports_spawn_agents: self.supports_spawn_agents,
            supports_pause: self.supports_pause,
            supports_resume: self.supports_resume,
            supports_interrupt: self.supports_interrupt,
            recorded_at: self.recorded_at@,
        }
    }
}

impl DeepView for HostCapabilitySnapshot {
    type V = HostCapabilitySnapshotView;

    open spec fn deep_view(&self) -> HostCapabilitySnapshotView {
        self.view()
    }
}

#[derive(Debug, PartialEq, Eq)]
pub struct RequirementItemDraft {
    pub text: String,
    pub origin: RequirementOrigin,
}

pub struct RequirementItemDraftView {
    pub text: Seq<char>,
    pub origin: RequirementOrigin,
}

impl View for RequirementItemDraft {
    type V = RequirementItemDraftView;

    open spec fn view(&self) -> RequirementItemDraftView {
        RequirementItemDraftView {
            text: self.text@,
            origin: self.origin,
        }
    }
}

impl DeepView for RequirementItemDraft {
    type V = RequirementItemDraftView;

    open spec fn deep_view(&self) -> RequirementItemDraftView {
        self.view()
    }
}

#[derive(Clone, Copy, Debug, PartialEq, Eq, Structural)]
pub enum TaskChangeClassification {
    SameTaskMinor,
    SameTaskMaterial,
    SameTaskStructural,
    BoundaryConflictCandidate,
}

impl View for TaskChangeClassification {
    type V = TaskChangeClassification;

    open spec fn view(&self) -> TaskChangeClassification {
        *self
    }
}

impl DeepView for TaskChangeClassification {
    type V = TaskChangeClassification;

    open spec fn deep_view(&self) -> TaskChangeClassification {
        *self
    }
}

#[derive(Clone, Copy, Debug, PartialEq, Eq, Structural)]
pub enum ChangeExecutionSurface {
    FutureOnly,
    ActiveStage,
    CompletedScope,
}

impl View for ChangeExecutionSurface {
    type V = ChangeExecutionSurface;

    open spec fn view(&self) -> ChangeExecutionSurface {
        *self
    }
}

impl DeepView for ChangeExecutionSurface {
    type V = ChangeExecutionSurface;

    open spec fn deep_view(&self) -> ChangeExecutionSurface {
        *self
    }
}

#[derive(Clone, Copy, Debug, PartialEq, Eq, Structural)]
pub enum BoundaryRecommendation {
    AbsorbChange,
    RequireConfirmation,
    OpenBoundaryConfirmation,
}

impl View for BoundaryRecommendation {
    type V = BoundaryRecommendation;

    open spec fn view(&self) -> BoundaryRecommendation {
        *self
    }
}

impl DeepView for BoundaryRecommendation {
    type V = BoundaryRecommendation;

    open spec fn deep_view(&self) -> BoundaryRecommendation {
        *self
    }
}

#[derive(Clone, Copy, Debug, PartialEq, Eq, Structural)]
pub enum DecisionSource {
    HostModel,
    PackDefault,
    SystemReconsideration,
    UserControlAction,
    AdapterFallback,
}

impl View for DecisionSource {
    type V = DecisionSource;

    open spec fn view(&self) -> DecisionSource {
        *self
    }
}

impl DeepView for DecisionSource {
    type V = DecisionSource;

    open spec fn deep_view(&self) -> DecisionSource {
        *self
    }
}

#[derive(Clone, Copy, Debug, PartialEq, Eq, Structural, Hash)]
pub enum SemanticDecisionKind {
    InteractionLane,
    TaskActivationReason,
    ManagedTaskClass,
    WorkHorizon,
    TaskChange,
}

impl View for SemanticDecisionKind {
    type V = SemanticDecisionKind;

    open spec fn view(&self) -> SemanticDecisionKind {
        *self
    }
}

impl DeepView for SemanticDecisionKind {
    type V = SemanticDecisionKind;

    open spec fn deep_view(&self) -> SemanticDecisionKind {
        *self
    }
}

#[derive(Debug, PartialEq, Eq)]
pub struct InteractionLaneDecisionPayload {
    pub interaction_lane: InteractionLane,
    pub managed_task_ref: Option<ManagedTaskRef>,
    pub title: Option<String>,
    pub summary: Option<String>,
    pub expected_outcome: Option<String>,
    pub requirement_items: Vec<RequirementItemDraft>,
    pub workspace_ref: Option<String>,
    pub repo_ref: Option<String>,
    pub allowed_roots: Vec<String>,
    pub secret_classes: Vec<String>,
}

pub struct InteractionLaneDecisionPayloadView {
    pub interaction_lane: InteractionLane,
    pub managed_task_ref: Option<Seq<char>>,
    pub title: Option<Seq<char>>,
    pub summary: Option<Seq<char>>,
    pub expected_outcome: Option<Seq<char>>,
    pub requirement_items: Seq<RequirementItemDraftView>,
    pub workspace_ref: Option<Seq<char>>,
    pub repo_ref: Option<Seq<char>>,
    pub allowed_roots: Seq<Seq<char>>,
    pub secret_classes: Seq<Seq<char>>,
}

impl View for InteractionLaneDecisionPayload {
    type V = InteractionLaneDecisionPayloadView;

    open spec fn view(&self) -> InteractionLaneDecisionPayloadView {
        InteractionLaneDecisionPayloadView {
            interaction_lane: self.interaction_lane,
            managed_task_ref: self.managed_task_ref.deep_view(),
            title: self.title.deep_view(),
            summary: self.summary.deep_view(),
            expected_outcome: self.expected_outcome.deep_view(),
            requirement_items: self.requirement_items.deep_view(),
            workspace_ref: self.workspace_ref.deep_view(),
            repo_ref: self.repo_ref.deep_view(),
            allowed_roots: self.allowed_roots.deep_view(),
            secret_classes: self.secret_classes.deep_view(),
        }
    }
}

impl DeepView for InteractionLaneDecisionPayload {
    type V = InteractionLaneDecisionPayloadView;

    open spec fn deep_view(&self) -> InteractionLaneDecisionPayloadView {
        self.view()
    }
}

#[derive(Debug, PartialEq, Eq)]
pub struct TaskActivationReasonDecisionPayload {
    pub task_activation_reason: TaskActivationReason,
}

pub struct TaskActivationReasonDecisionPayloadView {
    pub task_activation_reason: TaskActivationReason,
}

impl View for TaskActivationReasonDecisionPayload {
    type V = TaskActivationReasonDecisionPayloadView;

    open spec fn view(&self) -> TaskActivationReasonDecisionPayloadView {
        TaskActivationReasonDecisionPayloadView {
            task_activation_reason: self.task_activation_reason,
        }
    }
}

impl DeepView for TaskActivationReasonDecisionPayload {
    type V = TaskActivationReasonDecisionPayloadView;

    open spec fn deep_view(&self) -> TaskActivationReasonDecisionPayloadView {
        self.view()
    }
}

#[derive(Debug, PartialEq, Eq)]
pub struct ManagedTaskClassDecisionPayload {
    pub managed_task_class: ManagedTaskClass,
}

pub struct ManagedTaskClassDecisionPayloadView {
    pub managed_task_class: ManagedTaskClass,
}

impl View for ManagedTaskClassDecisionPayload {
    type V = ManagedTaskClassDecisionPayloadView;

    open spec fn view(&self) -> ManagedTaskClassDecisionPayloadView {
        ManagedTaskClassDecisionPayloadView {
            managed_task_class: self.managed_task_class,
        }
    }
}

impl DeepView for ManagedTaskClassDecisionPayload {
    type V = ManagedTaskClassDecisionPayloadView;

    open spec fn deep_view(&self) -> ManagedTaskClassDecisionPayloadView {
        self.view()
    }
}

#[derive(Debug, PartialEq, Eq)]
pub struct WorkHorizonDecisionPayload {
    pub work_horizon: WorkHorizonKind,
}

pub struct WorkHorizonDecisionPayloadView {
    pub work_horizon: WorkHorizonKind,
}

impl View for WorkHorizonDecisionPayload {
    type V = WorkHorizonDecisionPayloadView;

    open spec fn view(&self) -> WorkHorizonDecisionPayloadView {
        WorkHorizonDecisionPayloadView {
            work_horizon: self.work_horizon,
        }
    }
}

impl DeepView for WorkHorizonDecisionPayload {
    type V = WorkHorizonDecisionPayloadView;

    open spec fn deep_view(&self) -> WorkHorizonDecisionPayloadView {
        self.view()
    }
}

#[derive(Debug, PartialEq, Eq)]
pub struct TaskChangeDecisionPayload {
    pub classification: TaskChangeClassification,
    pub execution_surface: ChangeExecutionSurface,
    pub boundary_recommendation: BoundaryRecommendation,
}

pub struct TaskChangeDecisionPayloadView {
    pub classification: TaskChangeClassification,
    pub execution_surface: ChangeExecutionSurface,
    pub boundary_recommendation: BoundaryRecommendation,
}

impl View for TaskChangeDecisionPayload {
    type V = TaskChangeDecisionPayloadView;

    open spec fn view(&self) -> TaskChangeDecisionPayloadView {
        TaskChangeDecisionPayloadView {
            classification: self.classification,
            execution_surface: self.execution_surface,
            boundary_recommendation: self.boundary_recommendation,
        }
    }
}

impl DeepView for TaskChangeDecisionPayload {
    type V = TaskChangeDecisionPayloadView;

    open spec fn deep_view(&self) -> TaskChangeDecisionPayloadView {
        self.view()
    }
}

#[derive(Debug, PartialEq, Eq)]
pub enum SemanticDecisionPayload {
    InteractionLane(InteractionLaneDecisionPayload),
    TaskActivationReason(TaskActivationReasonDecisionPayload),
    ManagedTaskClass(ManagedTaskClassDecisionPayload),
    WorkHorizon(WorkHorizonDecisionPayload),
    TaskChange(TaskChangeDecisionPayload),
}

pub enum SemanticDecisionPayloadView {
    InteractionLane(InteractionLaneDecisionPayloadView),
    TaskActivationReason(TaskActivationReasonDecisionPayloadView),
    ManagedTaskClass(ManagedTaskClassDecisionPayloadView),
    WorkHorizon(WorkHorizonDecisionPayloadView),
    TaskChange(TaskChangeDecisionPayloadView),
}

impl View for SemanticDecisionPayload {
    type V = SemanticDecisionPayloadView;

    open spec fn view(&self) -> SemanticDecisionPayloadView {
        match self {
            SemanticDecisionPayload::InteractionLane(payload) => SemanticDecisionPayloadView::InteractionLane(payload@),
            SemanticDecisionPayload::TaskActivationReason(payload) => SemanticDecisionPayloadView::TaskActivationReason(payload@),
            SemanticDecisionPayload::ManagedTaskClass(payload) => SemanticDecisionPayloadView::ManagedTaskClass(payload@),
            SemanticDecisionPayload::WorkHorizon(payload) => SemanticDecisionPayloadView::WorkHorizon(payload@),
            SemanticDecisionPayload::TaskChange(payload) => SemanticDecisionPayloadView::TaskChange(payload@),
        }
    }
}

impl DeepView for SemanticDecisionPayload {
    type V = SemanticDecisionPayloadView;

    open spec fn deep_view(&self) -> SemanticDecisionPayloadView {
        self.view()
    }
}

#[derive(Debug, PartialEq, Eq)]
pub struct SemanticDecisionEnvelope {
    pub decision_ref: SemanticDecisionEnvelopeId,
    pub host_session_id: HostSessionId,
    pub host_message_ref: Option<HostMessageRef>,
    pub managed_task_ref: Option<ManagedTaskRef>,
    pub decision_kind: SemanticDecisionKind,
    pub decision_source: DecisionSource,
    pub rationale: String,
    pub confidence: u8,
    pub source_model_ref: String,
    pub issued_at: Timestamp,
    pub decision_payload: SemanticDecisionPayload,
}

pub struct SemanticDecisionEnvelopeView {
    pub decision_ref: Seq<char>,
    pub host_session_id: Seq<char>,
    pub host_message_ref: Option<Seq<char>>,
    pub managed_task_ref: Option<Seq<char>>,
    pub decision_kind: SemanticDecisionKind,
    pub decision_source: DecisionSource,
    pub rationale: Seq<char>,
    pub confidence: u8,
    pub source_model_ref: Seq<char>,
    pub issued_at: Seq<char>,
    pub decision_payload: SemanticDecisionPayloadView,
}

impl View for SemanticDecisionEnvelope {
    type V = SemanticDecisionEnvelopeView;

    open spec fn view(&self) -> SemanticDecisionEnvelopeView {
        SemanticDecisionEnvelopeView {
            decision_ref: self.decision_ref@,
            host_session_id: self.host_session_id@,
            host_message_ref: self.host_message_ref.deep_view(),
            managed_task_ref: self.managed_task_ref.deep_view(),
            decision_kind: self.decision_kind,
            decision_source: self.decision_source,
            rationale: self.rationale@,
            confidence: self.confidence,
            source_model_ref: self.source_model_ref@,
            issued_at: self.issued_at@,
            decision_payload: self.decision_payload@,
        }
    }
}

impl DeepView for SemanticDecisionEnvelope {
    type V = SemanticDecisionEnvelopeView;

    open spec fn deep_view(&self) -> SemanticDecisionEnvelopeView {
        self.view()
    }
}

#[derive(Debug, PartialEq, Eq)]
pub struct LegacySemanticDecisionEnvelope {
    pub decision_id: SemanticDecisionEnvelopeId,
    pub host_session_id: HostSessionId,
    pub host_message_ref: Option<HostMessageRef>,
    pub managed_task_ref: Option<ManagedTaskRef>,
    pub interaction_lane: InteractionLane,
    pub managed_task_class: Option<ManagedTaskClass>,
    pub work_horizon: Option<WorkHorizonKind>,
    pub task_activation_reason: Option<TaskActivationReason>,
    pub task_change_classification: Option<TaskChangeClassification>,
    pub task_change_execution_surface: Option<ChangeExecutionSurface>,
    pub task_change_boundary_recommendation: Option<BoundaryRecommendation>,
    pub title: Option<String>,
    pub summary: Option<String>,
    pub expected_outcome: Option<String>,
    pub requirement_items: Vec<RequirementItemDraft>,
    pub workspace_ref: Option<String>,
    pub repo_ref: Option<String>,
    pub allowed_roots: Vec<String>,
    pub secret_classes: Vec<String>,
    pub confidence: Option<u8>,
    pub created_at: Timestamp,
}

pub struct LegacySemanticDecisionEnvelopeView {
    pub decision_id: Seq<char>,
    pub host_session_id: Seq<char>,
    pub host_message_ref: Option<Seq<char>>,
    pub managed_task_ref: Option<Seq<char>>,
    pub interaction_lane: InteractionLane,
    pub managed_task_class: Option<ManagedTaskClass>,
    pub work_horizon: Option<WorkHorizonKind>,
    pub task_activation_reason: Option<TaskActivationReason>,
    pub task_change_classification: Option<TaskChangeClassification>,
    pub task_change_execution_surface: Option<ChangeExecutionSurface>,
    pub task_change_boundary_recommendation: Option<BoundaryRecommendation>,
    pub title: Option<Seq<char>>,
    pub summary: Option<Seq<char>>,
    pub expected_outcome: Option<Seq<char>>,
    pub requirement_items: Seq<RequirementItemDraftView>,
    pub workspace_ref: Option<Seq<char>>,
    pub repo_ref: Option<Seq<char>>,
    pub allowed_roots: Seq<Seq<char>>,
    pub secret_classes: Seq<Seq<char>>,
    pub confidence: Option<u8>,
    pub created_at: Seq<char>,
}

impl View for LegacySemanticDecisionEnvelope {
    type V = LegacySemanticDecisionEnvelopeView;

    open spec fn view(&self) -> LegacySemanticDecisionEnvelopeView {
        LegacySemanticDecisionEnvelopeView {
            decision_id: self.decision_id@,
            host_session_id: self.host_session_id@,
            host_message_ref: self.host_message_ref.deep_view(),
            managed_task_ref: self.managed_task_ref.deep_view(),
            interaction_lane: self.interaction_lane,
            managed_task_class: self.managed_task_class.deep_view(),
            work_horizon: self.work_horizon.deep_view(),
            task_activation_reason: self.task_activation_reason.deep_view(),
            task_change_classification: self.task_change_classification.deep_view(),
            task_change_execution_surface: self.task_change_execution_surface.deep_view(),
            task_change_boundary_recommendation: self.task_change_boundary_recommendation.deep_view(),
            title: self.title.deep_view(),
            summary: self.summary.deep_view(),
            expected_outcome: self.expected_outcome.deep_view(),
            requirement_items: self.requirement_items.deep_view(),
            workspace_ref: self.workspace_ref.deep_view(),
            repo_ref: self.repo_ref.deep_view(),
            allowed_roots: self.allowed_roots.deep_view(),
            secret_classes: self.secret_classes.deep_view(),
            confidence: self.confidence.deep_view(),
            created_at: self.created_at@,
        }
    }
}

impl DeepView for LegacySemanticDecisionEnvelope {
    type V = LegacySemanticDecisionEnvelopeView;

    open spec fn deep_view(&self) -> LegacySemanticDecisionEnvelopeView {
        self.view()
    }
}

#[derive(Clone, Copy, Debug, PartialEq, Eq, Structural)]
pub enum ControlActionKind {
    ApproveStart,
    ModifyCandidate,
    CancelCandidate,
    KeepCurrentTask,
    ReplaceActive,
    ApproveRequest,
    RejectRequest,
    PauseTask,
    ResumeTask,
    CancelTask,
    RequestReview,
    RequestHorizonReconsideration,
    RequestTaskChange,
}

impl View for ControlActionKind {
    type V = ControlActionKind;

    open spec fn view(&self) -> ControlActionKind {
        *self
    }
}

impl DeepView for ControlActionKind {
    type V = ControlActionKind;

    open spec fn deep_view(&self) -> ControlActionKind {
        *self
    }
}

#[derive(Clone, Copy, Debug, PartialEq, Eq, Structural)]
pub enum ControlActorRef {
    User,
    System,
}

impl View for ControlActorRef {
    type V = ControlActorRef;

    open spec fn view(&self) -> ControlActorRef {
        *self
    }
}

impl DeepView for ControlActorRef {
    type V = ControlActorRef;

    open spec fn deep_view(&self) -> ControlActorRef {
        *self
    }
}

#[derive(Debug, PartialEq, Eq, Default)]
pub struct ControlActionPayload {
    pub title: Option<String>,
    pub summary: Option<String>,
    pub expected_outcome: Option<String>,
    pub requirement_items: Vec<RequirementItemDraft>,
    pub allowed_roots: Vec<String>,
    pub secret_classes: Vec<String>,
    pub workspace_ref: Option<String>,
    pub repo_ref: Option<String>,
    pub rationale: Option<String>,
}

pub struct ControlActionPayloadView {
    pub title: Option<Seq<char>>,
    pub summary: Option<Seq<char>>,
    pub expected_outcome: Option<Seq<char>>,
    pub requirement_items: Seq<RequirementItemDraftView>,
    pub allowed_roots: Seq<Seq<char>>,
    pub secret_classes: Seq<Seq<char>>,
    pub workspace_ref: Option<Seq<char>>,
    pub repo_ref: Option<Seq<char>>,
    pub rationale: Option<Seq<char>>,
}

impl View for ControlActionPayload {
    type V = ControlActionPayloadView;

    open spec fn view(&self) -> ControlActionPayloadView {
        ControlActionPayloadView {
            title: self.title.deep_view(),
            summary: self.summary.deep_view(),
            expected_outcome: self.expected_outcome.deep_view(),
            requirement_items: self.requirement_items.deep_view(),
            allowed_roots: self.allowed_roots.deep_view(),
            secret_classes: self.secret_classes.deep_view(),
            workspace_ref: self.workspace_ref.deep_view(),
            repo_ref: self.repo_ref.deep_view(),
            rationale: self.rationale.deep_view(),
        }
    }
}

impl DeepView for ControlActionPayload {
    type V = ControlActionPayloadView;

    open spec fn deep_view(&self) -> ControlActionPayloadView {
        self.view()
    }
}

#[derive(Debug, PartialEq, Eq)]
pub struct ControlAction {
    pub action_id: ControlActionId,
    pub managed_task_ref: Option<ManagedTaskRef>,
    pub kind: ControlActionKind,
    pub actor: ControlActorRef,
    pub payload: ControlActionPayload,
    pub source_decision_ref: Option<SemanticDecisionEnvelopeId>,
    pub decision_token: Option<DecisionToken>,
}

pub struct ControlActionView {
    pub action_id: Seq<char>,
    pub managed_task_ref: Option<Seq<char>>,
    pub kind: ControlActionKind,
    pub actor: ControlActorRef,
    pub payload: ControlActionPayloadView,
    pub source_decision_ref: Option<Seq<char>>,
    pub decision_token: Option<Seq<char>>,
}

impl View for ControlAction {
    type V = ControlActionView;

    open spec fn view(&self) -> ControlActionView {
        ControlActionView {
            action_id: self.action_id@,
            managed_task_ref: self.managed_task_ref.deep_view(),
            kind: self.kind,
            actor: self.actor,
            payload: self.payload@,
            source_decision_ref: self.source_decision_ref.deep_view(),
            decision_token: self.decision_token.deep_view(),
        }
    }
}

impl DeepView for ControlAction {
    type V = ControlActionView;

    open spec fn deep_view(&self) -> ControlActionView {
        self.view()
    }
}

#[derive(Debug, PartialEq, Eq)]
pub struct ControlActionEnvelope {
    pub decision_ref: SemanticDecisionEnvelopeId,
    pub decision_source: DecisionSource,
    pub rationale: String,
    pub confidence: u8,
    pub source_model_ref: String,
    pub issued_at: Timestamp,
    pub action: ControlAction,
}

pub struct ControlActionEnvelopeView {
    pub decision_ref: Seq<char>,
    pub decision_source: DecisionSource,
    pub rationale: Seq<char>,
    pub confidence: u8,
    pub source_model_ref: Seq<char>,
    pub issued_at: Seq<char>,
    pub action: ControlActionView,
}

impl View for ControlActionEnvelope {
    type V = ControlActionEnvelopeView;

    open spec fn view(&self) -> ControlActionEnvelopeView {
        ControlActionEnvelopeView {
            decision_ref: self.decision_ref@,
            decision_source: self.decision_source,
            rationale: self.rationale@,
            confidence: self.confidence,
            source_model_ref: self.source_model_ref@,
            issued_at: self.issued_at@,
            action: self.action@,
        }
    }
}

impl DeepView for ControlActionEnvelope {
    type V = ControlActionEnvelopeView;

    open spec fn deep_view(&self) -> ControlActionEnvelopeView {
        self.view()
    }
}

#[derive(Debug, PartialEq, Eq)]
pub struct SemanticDecisionBatchEnvelope {
    pub meta: IngressMeta,
    pub host_session_id: HostSessionId,
    pub host_message_ref: Option<HostMessageRef>,
    pub input_ref: String,
    pub source_model_ref: String,
    pub issued_at: Timestamp,
    pub rationale_summary: Option<String>,
    pub semantic_decisions: Vec<SemanticDecisionEnvelope>,
    pub control_action: Option<ControlActionEnvelope>,
}

pub struct SemanticDecisionBatchEnvelopeView {
    pub meta: IngressMetaView,
    pub host_session_id: Seq<char>,
    pub host_message_ref: Option<Seq<char>>,
    pub input_ref: Seq<char>,
    pub source_model_ref: Seq<char>,
    pub issued_at: Seq<char>,
    pub rationale_summary: Option<Seq<char>>,
    pub semantic_decisions: Seq<SemanticDecisionEnvelopeView>,
    pub control_action: Option<ControlActionEnvelopeView>,
}

impl View for SemanticDecisionBatchEnvelope {
    type V = SemanticDecisionBatchEnvelopeView;

    open spec fn view(&self) -> SemanticDecisionBatchEnvelopeView {
        SemanticDecisionBatchEnvelopeView {
            meta: self.meta@,
            host_session_id: self.host_session_id@,
            host_message_ref: self.host_message_ref.deep_view(),
            input_ref: self.input_ref@,
            source_model_ref: self.source_model_ref@,
            issued_at: self.issued_at@,
            rationale_summary: self.rationale_summary.deep_view(),
            semantic_decisions: self.semantic_decisions.deep_view(),
            control_action: self.control_action.deep_view(),
        }
    }
}

impl DeepView for SemanticDecisionBatchEnvelope {
    type V = SemanticDecisionBatchEnvelopeView;

    open spec fn deep_view(&self) -> SemanticDecisionBatchEnvelopeView {
        self.view()
    }
}

#[derive(Debug, PartialEq, Eq)]
pub struct HostSubagentLifecycleEnvelope {
    pub meta: IngressMeta,
    pub command_id: HostExecutionCommandId,
    pub managed_task_ref: ManagedTaskRef,
    pub run_ref: IsolatedTaskRunRef,
    pub role_kind: AgentRoleKind,
    pub event: HostSubagentLifecycleEvent,
}

pub struct HostSubagentLifecycleEnvelopeView {
    pub meta: IngressMetaView,
    pub command_id: Seq<char>,
    pub managed_task_ref: Seq<char>,
    pub run_ref: Seq<char>,
    pub role_kind: AgentRoleKind,
    pub event: HostSubagentLifecycleEventView,
}

impl View for HostSubagentLifecycleEnvelope {
    type V = HostSubagentLifecycleEnvelopeView;

    open spec fn view(&self) -> HostSubagentLifecycleEnvelopeView {
        HostSubagentLifecycleEnvelopeView {
            meta: self.meta@,
            command_id: self.command_id@,
            managed_task_ref: self.managed_task_ref@,
            run_ref: self.run_ref@,
            role_kind: self.role_kind,
            event: self.event@,
        }
    }
}

impl DeepView for HostSubagentLifecycleEnvelope {
    type V = HostSubagentLifecycleEnvelopeView;

    open spec fn deep_view(&self) -> HostSubagentLifecycleEnvelopeView {
        self.view()
    }
}

#[derive(Debug, PartialEq, Eq)]
pub enum HostSubagentLifecycleEvent {
    Spawned(SubagentSpawnedPayload),
    Ended(SubagentEndedPayload),
}

pub enum HostSubagentLifecycleEventView {
    Spawned(SubagentSpawnedPayloadView),
    Ended(SubagentEndedPayloadView),
}

impl View for HostSubagentLifecycleEvent {
    type V = HostSubagentLifecycleEventView;

    open spec fn view(&self) -> HostSubagentLifecycleEventView {
        match self {
            HostSubagentLifecycleEvent::Spawned(payload) => HostSubagentLifecycleEventView::Spawned(payload@),
            HostSubagentLifecycleEvent::Ended(payload) => HostSubagentLifecycleEventView::Ended(payload@),
        }
    }
}

impl DeepView for HostSubagentLifecycleEvent {
    type V = HostSubagentLifecycleEventView;

    open spec fn deep_view(&self) -> HostSubagentLifecycleEventView {
        self.view()
    }
}

#[derive(Debug, PartialEq, Eq)]
pub struct SubagentSpawnedPayload {
    pub host_child_execution_ref: String,
    pub host_child_run_ref: Option<String>,
    pub host_agent_id: String,
    pub observed_at: Timestamp,
}

pub struct SubagentSpawnedPayloadView {
    pub host_child_execution_ref: Seq<char>,
    pub host_child_run_ref: Option<Seq<char>>,
    pub host_agent_id: Seq<char>,
    pub observed_at: Seq<char>,
}

impl View for SubagentSpawnedPayload {
    type V = SubagentSpawnedPayloadView;

    open spec fn view(&self) -> SubagentSpawnedPayloadView {
        SubagentSpawnedPayloadView {
            host_child_execution_ref: self.host_child_execution_ref@,
            host_child_run_ref: self.host_child_run_ref.deep_view(),
            host_agent_id: self.host_agent_id@,
            observed_at: self.observed_at@,
        }
    }
}

impl DeepView for SubagentSpawnedPayload {
    type V = SubagentSpawnedPayloadView;

    open spec fn deep_view(&self) -> SubagentSpawnedPayloadView {
        self.view()
    }
}

#[derive(Debug, PartialEq, Eq)]
pub struct SubagentEndedPayload {
    pub host_child_execution_ref: String,
    pub host_child_run_ref: Option<String>,
    pub host_agent_id: String,
    pub status: HostSubagentStatus,
    pub output_summary: String,
    pub artifact_refs: Vec<String>,
    pub observed_at: Timestamp,
}

pub struct SubagentEndedPayloadView {
    pub host_child_execution_ref: Seq<char>,
    pub host_child_run_ref: Option<Seq<char>>,
    pub host_agent_id: Seq<char>,
    pub status: HostSubagentStatus,
    pub output_summary: Seq<char>,
    pub artifact_refs: Seq<Seq<char>>,
    pub observed_at: Seq<char>,
}

impl View for SubagentEndedPayload {
    type V = SubagentEndedPayloadView;

    open spec fn view(&self) -> SubagentEndedPayloadView {
        SubagentEndedPayloadView {
            host_child_execution_ref: self.host_child_execution_ref@,
            host_child_run_ref: self.host_child_run_ref.deep_view(),
            host_agent_id: self.host_agent_id@,
            status: self.status,
            output_summary: self.output_summary@,
            artifact_refs: self.artifact_refs.deep_view(),
            observed_at: self.observed_at@,
        }
    }
}

impl DeepView for SubagentEndedPayload {
    type V = SubagentEndedPayloadView;

    open spec fn deep_view(&self) -> SubagentEndedPayloadView {
        self.view()
    }
}

#[derive(Clone, Copy, Debug, PartialEq, Eq, Structural)]
pub enum HostSubagentStatus {
    Completed,
    Failed,
    TimedOut,
    Cancelled,
}

impl View for HostSubagentStatus {
    type V = HostSubagentStatus;

    open spec fn view(&self) -> HostSubagentStatus {
        *self
    }
}

impl DeepView for HostSubagentStatus {
    type V = HostSubagentStatus;

    open spec fn deep_view(&self) -> HostSubagentStatus {
        *self
    }
}

/// Fresh ingress metadata: new ingress and correlation identifiers, received
/// now, with no cause and a ten-minute deduplication window.
impl Default for IngressMeta {
    fn default() -> (r: Self)
        ensures
            is_minted_id(r@.ingress_id, "ingress"@),
            is_millis_text(r@.received_at),
            r@.causation_id is None,
            is_minted_id(r@.correlation_id, "corr"@),
            r@.dedupe_window == "PT10M"@,
    {
        IngressMeta {
            ingress_id: new_id("ingress"),
            received_at: now_timestamp(),
            causation_id: None,
            correlation_id: new_id("corr"),
            dedupe_window: owned("PT10M"),
        }
    }
}

} // verus!
