use vstd::prelude::*;
use crate::model::task::ArtifactManifestItem;
use crate::model::task::ArtifactManifestItemView;
use crate::model::task::BoundaryReason;
use crate::model::authorization::DecisionArea;
use crate::model::ids::DecisionToken;
use crate::model::ids::HostMessageRef;
use crate::model::ids::HostSessionId;
use crate::model::shared::ManagedTaskClass;
use crate::model::ids::ManagedTaskRef;
use crate::model::task::NextActionItem;
use crate::model::task::NextActionItemView;
use crate::model::ids::OutboundDeliveryId;
use crate::model::ids::PackRef;
use crate::model::task::ProofEvidenceRef;
use crate::model::task::ProofEvidenceRefView;
use crate::model::task::ReviewSummary;
use crate::model::task::ReviewSummaryView;
use crate::model::shared::TaskActivationReason;
use crate::model::ids::Timestamp;
use crate::model::shared::WorkHorizonKind;

verus! {

#[derive(Debug, PartialEq, Eq)]
pub enum KernelOutboundPayload {
    StartCard(StartCardPayload),
    BoundaryCard(BoundaryCardPayload),
    ResultSummary(ResultSummaryPayload),
    ApprovalRequest(ApprovalRequestPayload),
    SuppressHostMessage(SuppressHostMessagePayload),
    ToolDecision(ToolDecisionPayload),
    StatusNotice(StatusNoticePayload),
}

pub enum KernelOutboundPayloadView {
    StartCard(StartCardPayloadView),
    BoundaryCard(BoundaryCardPayloadView),
    ResultSummary(ResultSummaryPayloadView),
    ApprovalRequest(ApprovalRequestPayloadView),
    SuppressHostMessage(SuppressHostMessagePayloadView),
    ToolDecision(ToolDecisionPayloadView),
    StatusNotice(StatusNoticePayloadView),
}

impl View for KernelOutboundPayload {
    type V = KernelOutboundPayloadView;

    open spec fn view(&self) -> KernelOutboundPayloadView {
        match self {
            KernelOutboundPayload::StartCard(payload) => KernelOutboundPayloadView::StartCard(payload@),
            KernelOutboundPayload::BoundaryCard(payload) => KernelOutboundPayloadView::BoundaryCard(payload@),
            KernelOutboundPayload::ResultSummary(payload) => KernelOutboundPayloadView::ResultSummary(payload@),
            KernelOutboundPayload::ApprovalRequest(payload) => KernelOutboundPayloadView::ApprovalRequest(payload@),
            KernelOutboundPayload::SuppressHostMessage(payload) => KernelOutboundPayloadView::SuppressHostMessage(payload@),
            KernelOutboundPayload::ToolDecision(payload) => KernelOutboundPayloadView::ToolDecision(payload@),
            KernelOutboundPayload::StatusNotice(payload) => KernelOutboundPayloadView::StatusNotice(payload@),
        }
    }
}

impl DeepView for KernelOutboundPayload {
    type V = KernelOutboundPayloadView;

    open spec fn deep_view(&self) -> KernelOutboundPayloadView {
        self.view()
    }
}

#[derive(Debug, PartialEq, Eq)]
pub struct StatusNoticePayload {
    pub managed_task_ref: ManagedTaskRef,
    pub notice_kind: StatusNoticeKind,
    pub stage_ref: String,
    pub headline: String,
    pub summary: String,
    pub detail: Option<String>,
    pub render_hint: RenderHint,
}

pub struct StatusNoticePayloadView {
    pub managed_task_ref: Seq<char>,
    pub notice_kind: StatusNoticeKind,
    pub stage_ref: Seq<char>,
    pub headline: Seq<char>,
    pub summary: Seq<char>,
    pub detail: Option<Seq<char>>,
    pub render_hint: RenderHintView,
}

impl View for StatusNoticePayload {
    type V = StatusNoticePayloadView;

    open spec fn view(&self) -> StatusNoticePayloadView {
        StatusNoticePayloadView {
            managed_task_ref: self.managed_task_ref@,
            notice_kind: self.notice_kind,
            stage_ref: self.stage_ref@,
            headline: self.headline@,
            summary: self.summary@,
            detail: self.detail.deep_view(),
            render_hint: self.render_hint@,
        }
    }
}

impl DeepView for StatusNoticePayload {
    type V = StatusNoticePayloadView;

    open spec fn deep_view(&self) -> StatusNoticePayloadView {
        self.view()
    }
}

#[derive(Clone, Copy, Debug, PartialEq, Eq, Structural)]
pub enum StatusNoticeKind {
    StageEntered,
    Blocked,
}

impl View for StatusNoticeKind {
    type V = StatusNoticeKind;

    open spec fn view(&self) -> StatusNoticeKind {
        *self
    }
}

impl DeepView for StatusNoticeKind {
    type V = StatusNoticeKind;

    open spec fn deep_view(&self) -> StatusNoticeKind {
        *self
    }
}

#[derive(Debug, PartialEq, Eq)]
pub struct RenderHint {
    pub tone: RenderTone,
    pub emphasis: RenderEmphasis,
    pub host_text_mode: HostTextMode,
}

pub struct RenderHintView {
    pub tone: RenderTone,
    pub emphasis: RenderEmphasis,
    pub host_text_mode: HostTextMode,
}

impl View for RenderHint {
    type V = RenderHintView;

    open spec fn view(&self) -> RenderHintView {
        RenderHintView {
            tone: self.tone,
            emphasis: self.emphasis,
            host_text_mode: self.host_text_mode,
        }
    }
}

impl DeepView for RenderHint {
    type V = RenderHintView;

    open spec fn deep_view(&self) -> RenderHintView {
        self.view()
    }
}

#[derive(Clone, Copy, Debug, PartialEq, Eq, Structural)]
pub enum RenderTone {
    Neutral,
    Cautionary,
    Blocking,
}

impl View for RenderTone {
    type V = RenderTone;

    open spec fn view(&self) -> RenderTone {
        *self
    }
}

impl DeepView for RenderTone {
    type V = RenderTone;

    open spec fn deep_view(&self) -> RenderTone {
        *self
    }
}

#[derive(Clone, Copy, Debug, PartialEq, Eq, Structural)]
pub enum RenderEmphasis {
    Minimal,
    Standard,
    Strong,
}

impl View for RenderEmphasis {
    type V = RenderEmphasis;

    open spec fn view(&self) -> RenderEmphasis {
        *self
    }
}

impl DeepView for RenderEmphasis {
    type V = RenderEmphasis;

    open spec fn deep_view(&self) -> RenderEmphasis {
        *self
    }
}

#[derive(Clone, Copy, Debug, PartialEq, Eq, Structural)]
pub enum HostTextMode {
    Plain,
    StructuredText,
}

impl View for HostTextMode {
    type V = HostTextMode;

    open spec fn view(&self) -> HostTextMode {
        *self
    }
}

impl DeepView for HostTextMode {
    type V = HostTextMode;

    open spec fn deep_view(&self) -> HostTextMode {
        *self
    }
}

#[derive(Debug, PartialEq, Eq)]
pub struct StartCardPayload {
    pub managed_task_ref: ManagedTaskRef,
    pub decision_token: DecisionToken,
    pub managed_task_class: ManagedTaskClass,
    pub work_horizon: WorkHorizonKind,
    pub task_activation_reason: TaskActivationReason,
    pub title: String,
    pub summary: String,
    pub expected_outcome: String,
    pub recommended_pack_ref: Option<PackRef>,
    pub allowed_actions: Vec<StartCardAction>,
    pub render_hint: RenderHint,
}

pub struct StartCardPayloadView {
    pub managed_task_ref: Seq<char>,
    pub decision_token: Seq<char>,
    pub managed_task_class: ManagedTaskClass,
    pub work_horizon: WorkHorizonKind,
    pub task_activation_reason: TaskActivationReason,
    pub title: Seq<char>,
    pub summary: Seq<char>,
    pub expected_outcome: Seq<char>,
    pub recommended_pack_ref: Option<Seq<char>>,
    pub allowed_actions: Seq<StartCardAction>,
    pub render_hint: RenderHintView,
}

impl View for StartCardPayload {
    type V = StartCardPayloadView;

    open spec fn view(&self) -> StartCardPayloadView {
        StartCardPayloadView {
            managed_task_ref: self.managed_task_ref@,
            decision_token: self.decision_token@,
            managed_task_class: self.managed_task_class,
            work_horizon: self.work_horizon,
            task_activation_reason: self.task_activation_reason,
            title: self.title@,
            summary: self.summary@,
            expected_outcome: self.expected_outcome@,
            recommended_pack_ref: self.recommended_pack_ref.deep_view(),
            allowed_actions: self.allowed_actions.deep_view(),
            render_hint: self.render_hint@,
        }
    }
}

impl DeepView for StartCardPayload {
    type V = StartCardPayloadView;

    open spec fn deep_view(&self) -> StartCardPayloadView {
        self.view()
    }
}

#[derive(Clone, Copy, Debug, PartialEq, Eq, Structural)]
pub enum StartCardAction {
    ApproveStart,
    ModifyCandidate,
    CancelCandidate,
}

impl View for StartCardAction {
    type V = StartCardAction;

    open spec fn view(&self) -> StartCardAction {
        *self
    }
}

impl DeepView for StartCardAction {
    type V = StartCardAction;

    open spec fn deep_view(&self) -> StartCardAction {
        *self
    }
}

#[derive(Debug, PartialEq, Eq)]
pub struct BoundaryCardPayload {
    pub managed_task_ref: ManagedTaskRef,
    pub candidate_managed_task_ref: ManagedTaskRef,
    pub decision_token: DecisionToken,
    pub active_task_summary: String,
    pub candidate_task_summary: String,
    pub boundary_reason: BoundaryReason,
    pub allowed_actions: Vec<BoundaryCardAction>,
    pub render_hint: RenderHint,
}

pub struct BoundaryCardPayloadView {
    pub managed_task_ref: Seq<char>,
    pub candidate_managed_task_ref: Seq<char>,
    pub decision_token: Seq<char>,
    pub active_task_summary: Seq<char>,
    pub candidate_task_summary: Seq<char>,
    pub boundary_reason: BoundaryReason,
    pub allowed_actions: Seq<BoundaryCardAction>,
    pub render_hint: RenderHintView,
}

impl View for BoundaryCardPayload {
    type V = BoundaryCardPayloadView;

    open spec fn view(&self) -> BoundaryCardPayloadView {
        BoundaryCardPayloadView {
            managed_task_ref: self.managed_task_ref@,
            candidate_managed_task_ref: self.candidate_managed_task_ref@,
            decision_token: self.decision_token@,
            active_task_summary: self.active_task_summary@,
            candidate_task_summary: self.candidate_task_summary@,
            boundary_reason: self.boundary_reason,
            allowed_actions: self.allowed_actions.deep_view(),
            render_hint: self.render_hint@,
        }
    }
}

impl DeepView for BoundaryCardPayload {
    type V = BoundaryCardPayloadView;

    open spec fn deep_view(&self) -> BoundaryCardPayloadView {
        self.view()
    }
}

#[derive(Clone, Copy, Debug, PartialEq, Eq, Structural)]
pub enum BoundaryCardAction {
    KeepCurrentTask,
    ReplaceActive,
}

impl View for BoundaryCardAction {
    type V = BoundaryCardAction;

    open spec fn view(&self) -> BoundaryCardAction {
        *self
    }
}

impl DeepView for BoundaryCardAction {
    type V = BoundaryCardAction;

    open spec fn deep_view(&self) -> BoundaryCardAction {
        *self
    }
}

#[derive(Debug, PartialEq, Eq)]
pub struct ApprovalRequestPayload {
    pub managed_task_ref: ManagedTaskRef,
    pub decision_token: DecisionToken,
    pub approval_scope: ApprovalScope,
    pub allowed_actions: Vec<ApprovalRequestAction>,
    pub why_now: String,
    pub risk_summary: String,
    pub render_hint: RenderHint,
}

pub struct ApprovalRequestPayloadView {
    pub managed_task_ref: Seq<char>,
    pub decision_token: Seq<char>,
    pub approval_scope: ApprovalScope,
    pub allowed_actions: Seq<ApprovalRequestAction>,
    pub why_now: Seq<char>,
    pub risk_summary: Seq<char>,
    pub render_hint: RenderHintView,
}

impl View for ApprovalRequestPayload {
    type V = ApprovalRequestPayloadView;

    open spec fn view(&self) -> ApprovalRequestPayloadView {
        ApprovalRequestPayloadView {
            managed_task_ref: self.managed_task_ref@,
            decision_token: self.decision_token@,
            approval_scope: self.approval_scope,
            allowed_actions: self.allowed_actions.deep_view(),
            why_now: self.why_now@,
            risk_summary: self.risk_summary@,
            render_hint: self.render_hint@,
        }
    }
}

impl DeepView for ApprovalRequestPayload {
    type V = ApprovalRequestPayloadView;

    open spec fn deep_view(&self) -> ApprovalRequestPayloadView {
        self.view()
    }
}

#[derive(Clone, Copy, Debug, PartialEq, Eq, Structural)]
pub enum ApprovalScope {
    ToolExecution,
    TaskChangeConfirmation,
    CapabilityDriftResolution,
    ReviewResolution,
}

impl View for ApprovalScope {
    type V = ApprovalScope;

    open spec fn view(&self) -> ApprovalScope {
        *self
    }
}

impl DeepView for ApprovalScope {
    type V = ApprovalScope;

    open spec fn deep_view(&self) -> ApprovalScope {
        *self
    }
}

#[derive(Clone, Copy, Debug, PartialEq, Eq, Structural)]
pub enum ApprovalRequestAction {
    ApproveRequest,
    RejectRequest,
}

impl View for ApprovalRequestAction {
    type V = ApprovalRequestAction;

    open spec fn view(&self) -> ApprovalRequestAction {
        *self
    }
}

impl DeepView for ApprovalRequestAction {
    type V = ApprovalRequestAction;

    open spec fn deep_view(&self) -> ApprovalRequestAction {
        *self
    }
}

#[derive(Debug, PartialEq, Eq)]
pub struct ResultSummaryPayload {
    pub managed_task_ref: ManagedTaskRef,
    pub outcome: ResultOutcome,
    pub acceptance_verdict: AcceptanceResult,
    pub summary: String,
    pub final_scope_version: u32,
    pub scope_revision_headline: Option<String>,
    pub proof_of_work_excerpt: ProofOfWorkExcerpt,
    pub next_actions_excerpt: Vec<NextActionItem>,
    pub render_hint: RenderHint,
}

pub struct ResultSummaryPayloadView {
    pub managed_task_ref: Seq<char>,
    pub outcome: ResultOutcome,
    pub acceptance_verdict: AcceptanceResult,
    pub summary: Seq<char>,
    pub final_scope_version: u32,
    pub scope_revision_headline: Option<Seq<char>>,
    pub proof_of_work_excerpt: ProofOfWorkExcerptView,
    pub next_actions_excerpt: Seq<NextActionItemView>,
    pub render_hint: RenderHintView,
}

impl View for ResultSummaryPayload {
    type V = ResultSummaryPayloadView;

    open spec fn view(&self) -> ResultSummaryPayloadView {
        ResultSummaryPayloadView {
            managed_task_ref: self.managed_task_ref@,
            outcome: self.outcome,
            acceptance_verdict: self.acceptance_verdict,
            summary: self.summary@,
            final_scope_version: self.final_scope_version,
            scope_revision_headline: self.scope_revision_headline.deep_view(),
            proof_of_work_excerpt: self.proof_of_work_excerpt@,
            next_actions_excerpt: self.next_actions_excerpt.deep_view(),
            render_hint: self.render_hint@,
        }
    }
}

impl DeepView for ResultSummaryPayload {
    type V = ResultSummaryPayloadView;

    open spec fn deep_view(&self) -> ResultSummaryPayloadView {
        self.view()
    }
}

#[derive(Debug, PartialEq, Eq)]
pub struct ProofOfWorkExcerpt {
    pub run_summary: String,
    pub evidence_refs: Vec<ProofEvidenceRef>,
    pub review_summary: Option<ReviewSummary>,
    pub artifact_manifest_excerpt: Vec<ArtifactManifestItem>,
    pub acceptance_basis_excerpt: Vec<String>,
}

pub struct ProofOfWorkExcerptView {
    pub run_summary: Seq<char>,
    pub evidence_refs: Seq<ProofEvidenceRefView>,
    pub review_summary: Option<ReviewSummaryView>,
    pub artifact_manifest_excerpt: Seq<ArtifactManifestItemView>,
    pub acceptance_basis_excerpt: Seq<Seq<char>>,
}

impl View for ProofOfWorkExcerpt {
    type V = ProofOfWorkExcerptView;

    open spec fn view(&self) -> ProofOfWorkExcerptView {
        ProofOfWorkExcerptView {
            run_summary: self.run_summary@,
            evidence_refs: self.evidence_refs.deep_view(),
            review_summary: self.review_summary.deep_view(),
            artifact_manifest_excerpt: self.artifact_manifest_excerpt.deep_view(),
            acceptance_basis_excerpt: self.acceptance_basis_excerpt.deep_view(),
        }
    }
}

impl DeepView for ProofOfWorkExcerpt {
    type V = ProofOfWorkExcerptView;

    open spec fn deep_view(&self) -> ProofOfWorkExcerptView {
        self.view()
    }
}

#[derive(Clone, Copy, Debug, PartialEq, Eq, Structural)]
pub enum ResultOutcome {
    Completed,
    ReworkRequired,
    Blocked,
}

impl View for ResultOutcome {
    type V = ResultOutcome;

    open spec fn view(&self) -> ResultOutcome {
        *self
    }
}

impl DeepView for ResultOutcome {
    type V = ResultOutcome;

    open spec fn deep_view(&self) -> ResultOutcome {
        *self
    }
}

#[derive(Clone, Copy, Debug, PartialEq, Eq, Structural)]
pub enum AcceptanceResult {
    Accepted,
    ReworkRequired,
    EscalatedToUser,
}

impl View for AcceptanceResult {
    type V = AcceptanceResult;

    open spec fn view(&self) -> AcceptanceResult {
        *self
    }
}

impl DeepView for AcceptanceResult {
    type V = AcceptanceResult;

    open spec fn deep_view(&self) -> AcceptanceResult {
        *self
    }
}

#[derive(Debug, PartialEq, Eq)]
pub struct SuppressHostMessagePayload {
    pub host_message_ref: Option<HostMessageRef>,
    pub reason: SuppressionReason,
}

pub struct SuppressHostMessagePayloadView {
    pub host_message_ref: Option<Seq<char>>,
    pub reason: SuppressionReason,
}

impl View for SuppressHostMessagePayload {
    type V = SuppressHostMessagePayloadView;

    open spec fn view(&self) -> SuppressHostMessagePayloadView {
        SuppressHostMessagePayloadView {
            host_message_ref: self.host_message_ref.deep_view(),
            reason: self.reason,
        }
    }
}

impl DeepView for SuppressHostMessagePayload {
    type V = SuppressHostMessagePayloadView;

    open spec fn deep_view(&self) -> SuppressHostMessagePayloadView {
        self.view()
    }
}

#[derive(Clone, Copy, Debug, PartialEq, Eq, Structural)]
pub enum SuppressionReason {
    InternalPrelude,
    InternalGovernanceTrace,
    ToolNoise,
    DuplicateHostMessage,
    ReplacedByStructuredPayload,
}

impl View for SuppressionReason {
    type V = SuppressionReason;

    open spec fn view(&self) -> SuppressionReason {
        *self
    }
}

impl DeepView for SuppressionReason {
    type V = SuppressionReason;

    open spec fn deep_view(&self) -> SuppressionReason {
        *self
    }
}

#[derive(Debug, PartialEq, Eq)]
pub struct ToolDecisionPayload {
    pub managed_task_ref: ManagedTaskRef,
    pub decision_value: ToolDecisionValue,
    pub decision_area: DecisionArea,
    pub summary: String,
    pub render_hint: RenderHint,
}

pub struct ToolDecisionPayloadView {
    pub managed_task_ref: Seq<char>,
    pub decision_value: ToolDecisionValue,
    pub decision_area: DecisionArea,
    pub summary: Seq<char>,
    pub render_hint: RenderHintView,
}

impl View for ToolDecisionPayload {
    type V = ToolDecisionPayloadView;

    open spec fn view(&self) -> ToolDecisionPayloadView {
        ToolDecisionPayloadView {
            managed_task_ref: self.managed_task_ref@,
            decision_value: self.decision_value,
            decision_area: self.decision_area,
            summary: self.summary@,
            render_hint: self.render_hint@,
        }
    }
}

impl DeepView for ToolDecisionPayload {
    type V = ToolDecisionPayloadView;

    open spec fn deep_view(&self) -> ToolDecisionPayloadView {
        self.view()
    }
}

#[derive(Clone, Copy, Debug, PartialEq, Eq, Structural)]
pub enum ToolDecisionValue {
    Allow,
    Deny,
    RequiresUserApproval,
}

impl View for ToolDecisionValue {
    type V = ToolDecisionValue;

    open spec fn view(&self) -> ToolDecisionValue {
        *self
    }
}

impl DeepView for ToolDecisionValue {
    type V = ToolDecisionValue;

    open spec fn deep_view(&self) -> ToolDecisionValue {
        *self
    }
}

#[derive(Debug, PartialEq, Eq)]
pub struct OutboundDelivery {
    pub delivery_id: OutboundDeliveryId,
    pub host_session_id: HostSessionId,
    pub managed_task_ref: Option<ManagedTaskRef>,
    pub correlation_id: String,
    pub causation_id: Option<String>,
    pub payload: KernelOutboundPayload,
    pub delivery_status: DeliveryStatus,
    pub attempts: u32,
    pub max_attempts: u32,
    pub next_attempt_at: Option<Timestamp>,
    pub expires_at: Option<Timestamp>,
    pub last_error: Option<String>,
    pub created_at: Timestamp,
    pub acked_at: Option<Timestamp>,
}

pub struct OutboundDeliveryView {
    pub delivery_id: Seq<char>,
    pub host_session_id: Seq<char>,
    pub managed_task_ref: Option<Seq<char>>,
    pub correlation_id: Seq<char>,
    pub causation_id: Option<Seq<char>>,
    pub payload: KernelOutboundPayloadView,
    pub delivery_status: DeliveryStatus,
    pub attempts: u32,
    pub max_attempts: u32,
    pub next_attempt_at: Option<Seq<char>>,
    pub expires_at: Option<Seq<char>>,
    pub last_error: Option<Seq<char>>,
    pub created_at: Seq<char>,
    pub acked_at: Option<Seq<char>>,
}

impl View for OutboundDelivery {
    type V = OutboundDeliveryView;

    open spec fn view(&self) -> OutboundDeliveryView {
        OutboundDeliveryView {
            delivery_id: self.delivery_id@,
            host_session_id: self.host_session_id@,
            managed_task_ref: self.managed_task_ref.deep_view(),
            correlation_id: self.correlation_id@,
            causation_id: self.causation_id.deep_view(),
            payload: self.payload@,
            delivery_status: self.delivery_status,
            attempts: self.attempts,
            max_attempts: self.max_attempts,
            next_attempt_at: self.next_attempt_at.deep_view(),
            expires_at: self.expires_at.deep_view(),
            last_error: self.last_error.deep_view(),
            created_at: self.created_at@,
            acked_at: self.acked_at.deep_view(),
        }
    }
}

impl DeepView for OutboundDelivery {
    type V = OutboundDeliveryView;

    open spec fn deep_view(&self) -> OutboundDeliveryView {
        self.view()
    }
}

#[derive(Clone, Copy, Debug, PartialEq, Eq, Structural)]
pub enum DeliveryStatus {
    Pending,
    Delivering,
    DeliveredUnacked,
    Acked,
    RetryScheduled,
    Expired,
    TerminalFailed,
}

impl View for DeliveryStatus {
    type V = DeliveryStatus;

    open spec fn view(&self) -> DeliveryStatus {
        *self
    }
}

impl DeepView for DeliveryStatus {
    type V = DeliveryStatus;

    open spec fn deep_view(&self) -> DeliveryStatus {
        *self
    }
}

/// The render hint used when nothing calls for emphasis.
pub open spec fn default_render_hint() -> RenderHintView {
    RenderHintView {
        tone: RenderTone::Neutral,
        emphasis: RenderEmphasis::Standard,
        host_text_mode: HostTextMode::StructuredText,
    }
}

impl Default for RenderHint {
    fn default() -> (r: Self)
        ensures
            r@ == default_render_hint(),
    {
        RenderHint {
            tone: RenderTone::Neutral,
            emphasis: RenderEmphasis::Standard,
            host_text_mode: HostTextMode::StructuredText,
        }
    }
}

} // verus!
