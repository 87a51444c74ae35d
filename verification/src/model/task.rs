use vstd::prelude::*;
use crate::model::outbound::AcceptanceResult;
use crate::model::ids::AgentBindingId;
use crate::model::ids::AgentBindingRef;
use crate::model::ingress::ControlActionKind;
use crate::model::ids::DecisionToken;
use crate::model::ids::ExecutionAuthorizationId;
use crate::model::ids::HostSessionId;
use crate::model::ids::IsolatedTaskRunRef;
use crate::model::shared::ManagedTaskClass;
use crate::model::ids::ManagedTaskRef;
use crate::model::ids::PendingDecisionWindowId;
use crate::model::ids::PendingDecisionWindowRef;
use crate::model::ids::PhasePlanEntryId;
use crate::model::ids::PhasePlanId;
use crate::model::ids::ProofOfWorkBundleId;
use crate::model::ids::RequirementId;
use crate::model::ids::ResultContractId;
use crate::model::outbound::ResultOutcome;
use crate::model::ids::ReviewResultId;
use crate::model::ids::RiskAssessmentId;
use crate::model::ids::SemanticDecisionEnvelopeId;
use crate::model::ids::SpecBundleId;
use crate::model::shared::TaskActivationReason;
use crate::model::ids::TaskScopeId;
use crate::model::ids::Timestamp;
use crate::model::shared::WorkHorizonKind;
use crate::model::shared::WorkflowStage;

verus! {

#[derive(Debug, PartialEq, Eq)]
pub struct ManagedTask {
    pub managed_task_ref: ManagedTaskRef,
    pub host_session_id: HostSessionId,
    pub managed_task_class: ManagedTaskClass,
    pub work_horizon: WorkHorizonKind,
    pub activation_reason: TaskActivationReason,
    pub workflow_stage: WorkflowStage,
    pub title: String,
    pub summary: String,
    pub expected_outcome: String,
    pub workspace_ref: Option<String>,
    pub repo_ref: Option<String>,
    pub allowed_roots: Vec<String>,
    pub secret_classes: Vec<String>,
    pub requirement_items: Vec<RequirementItem>,
    pub current_scope_ref: Option<TaskScopeId>,
    pub current_scope_version: Option<u32>,
    pub current_baseline_risk_ref: Option<RiskAssessmentId>,
    pub current_execution_authorization_ref: Option<ExecutionAuthorizationId>,
    pub current_pending_window_ref: Option<PendingDecisionWindowId>,
    pub active_run_ref: Option<IsolatedTaskRunRef>,
    pub spec_bundle: Option<SpecBundle>,
    pub phase_plan: Option<PhasePlan>,
    pub agent_binding: Option<AgentBinding>,
    pub review_result: Option<ReviewResult>,
    pub proof_of_work_bundle: Option<ProofOfWorkBundle>,
    pub result_contract: Option<ResultContract>,
    pub created_at: Timestamp,
    pub updated_at: Timestamp,
}

pub struct ManagedTaskView {
    pub managed_task_ref: Seq<char>,
    pub host_session_id: Seq<char>,
    pub managed_task_class: ManagedTaskClass,
    pub work_horizon: WorkHorizonKind,
    pub activation_reason: TaskActivationReason,
    pub workflow_stage: WorkflowStage,
    pub title: Seq<char>,
    pub summary: Seq<char>,
    pub expected_outcome: Seq<char>,
    pub workspace_ref: Option<Seq<char>>,
    pub repo_ref: Option<Seq<char>>,
    pub allowed_roots: Seq<Seq<char>>,
    pub secret_classes: Seq<Seq<char>>,
    pub requirement_items: Seq<RequirementItemView>,
    pub current_scope_ref: Option<Seq<char>>,
    pub current_scope_version: Option<u32>,
    pub current_baseline_risk_ref: Option<Seq<char>>,
    pub current_execution_authorization_ref: Option<Seq<char>>,
    pub current_pending_window_ref: Option<Seq<char>>,
    pub active_run_ref: Option<Seq<char>>,
    pub spec_bundle: Option<SpecBundleView>,
    pub phase_plan: Option<PhasePlanView>,
    pub agent_binding: Option<AgentBindingView>,
    pub review_result: Option<ReviewResultView>,
    pub proof_of_work_bundle: Option<ProofOfWorkBundleView>,
    pub result_contract: Option<ResultContractView>,
    pub created_at: Seq<char>,
    pub updated_at: Seq<char>,
}

impl View for ManagedTask {
    type V = ManagedTaskView;

    open spec fn view(&self) -> ManagedTaskView {
        ManagedTaskView {
            managed_task_ref: self.managed_task_ref@,
            host_session_id: self.host_session_id@,
            managed_task_class: self.managed_task_class,
            work_horizon: self.work_horizon,
            activation_reason: self.activation_reason,
            workflow_stage: self.workflow_stage,
            title: self.title@,
            summary: self.summary@,
            expected_outcome: self.expected_outcome@,
            workspace_ref: self.workspace_ref.deep_view(),
            repo_ref: self.repo_ref.deep_view(),
            allowed_roots: self.allowed_roots.deep_view(),
            secret_classes: self.secret_classes.deep_view(),
            requirement_items: self.requirement_items.deep_view(),
            current_scope_ref: self.current_scope_ref.deep_view(),
            current_scope_version: self.current_scope_version.deep_view(),
            current_baseline_risk_ref: self.current_baseline_risk_ref.deep_view(),
            current_execution_authorization_ref: self.current_execution_authorization_ref.deep_view(),
            current_pending_window_ref: self.current_pending_window_ref.deep_view(),
            active_run_ref: self.active_run_ref.deep_view(),
            spec_bundle: self.spec_bundle.deep_view(),
            phase_plan: self.phase_plan.deep_view(),
            agent_binding: self.agent_binding.deep_view(),
            review_result: self.review_result.deep_view(),
            proof_of_work_bundle: self.proof_of_work_bundle.deep_view(),
            result_contract: self.result_contract.deep_view(),
            created_at: self.created_at@,
            updated_at: self.updated_at@,
        }
    }
}

impl DeepView for ManagedTask {
    type V = ManagedTaskView;

    open spec fn deep_view(&self) -> ManagedTaskView {
        self.view()
    }
}

#[derive(Debug, PartialEq, Eq)]
pub struct PendingDecisionWindow {
    pub window_id: PendingDecisionWindowId,
    pub managed_task_ref: ManagedTaskRef,
    pub kind: PendingDecisionWindowKind,
    pub decision_token: DecisionToken,
    pub source_decision_ref: Option<SemanticDecisionEnvelopeId>,
    pub status: PendingDecisionWindowStatus,
    pub allowed_actions: Vec<ControlActionKind>,
    pub opened_reason: String,
    pub opened_at: Timestamp,
    pub expires_at: Option<Timestamp>,
    pub supersedes: Option<PendingDecisionWindowRef>,
}

pub struct PendingDecisionWindowView {
    pub window_id: Seq<char>,
    pub managed_task_ref: Seq<char>,
    pub kind: PendingDecisionWindowKind,
    pub decision_token: Seq<char>,
    pub source_decision_ref: Option<Seq<char>>,
    pub status: PendingDecisionWindowStatus,
    pub allowed_actions: Seq<ControlActionKind>,
    pub opened_reason: Seq<char>,
    pub opened_at: Seq<char>,
    pub expires_at: Option<Seq<char>>,
    pub supersedes: Option<Seq<char>>,
}

impl View for PendingDecisionWindow {
    type V = PendingDecisionWindowView;

    open spec fn view(&self) -> PendingDecisionWindowView {
        PendingDecisionWindowView {
            window_id: self.window_id@,
            managed_task_ref: self.managed_task_ref@,
            kind: self.kind,
            decision_token: self.decision_token@,
            source_decision_ref: self.source_decision_ref.deep_view(),
            status: self.status,
            allowed_actions: self.allowed_actions.deep_view(),
            opened_reason: self.opened_reason@,
            opened_at: self.opened_at@,
            expires_at: self.expires_at.deep_view(),
            supersedes: self.supersedes.deep_view(),
        }
    }
}

impl DeepView for PendingDecisionWindow {
    type V = PendingDecisionWindowView;

    open spec fn deep_view(&self) -> PendingDecisionWindowView {
        self.view()
    }
}

#[derive(Clone, Copy, Debug, PartialEq, Eq, Structural)]
pub enum PendingDecisionWindowKind {
    StartCandidate,
    ApprovalRequest,
    BoundaryConfirmation,
}

impl View for PendingDecisionWindowKind {
    type V = PendingDecisionWindowKind;

    open spec fn view(&self) -> PendingDecisionWindowKind {
        *self
    }
}

impl DeepView for PendingDecisionWindowKind {
    type V = PendingDecisionWindowKind;

    open spec fn deep_view(&self) -> PendingDecisionWindowKind {
        *self
    }
}

#[derive(Clone, Copy, Debug, PartialEq, Eq, Structural)]
pub enum PendingDecisionWindowStatus {
    Open,
    Consumed,
    Superseded,
    Expired,
    Cancelled,
}

impl View for PendingDecisionWindowStatus {
    type V = PendingDecisionWindowStatus;

    open spec fn view(&self) -> PendingDecisionWindowStatus {
        *self
    }
}

impl DeepView for PendingDecisionWindowStatus {
    type V = PendingDecisionWindowStatus;

    open spec fn deep_view(&self) -> PendingDecisionWindowStatus {
        *self
    }
}

#[derive(Debug, PartialEq, Eq)]
pub struct PendingBoundaryConfirmation {
    pub window_ref: PendingDecisionWindowRef,
    pub active_managed_task_ref: ManagedTaskRef,
    pub boundary_candidate_ref: ManagedTaskRef,
    pub boundary_reason: BoundaryReason,
}

pub struct PendingBoundaryConfirmationView {
    pub window_ref: Seq<char>,
    pub active_managed_task_ref: Seq<char>,
    pub boundary_candidate_ref: Seq<char>,
    pub boundary_reason: BoundaryReason,
}

impl View for PendingBoundaryConfirmation {
    type V = PendingBoundaryConfirmationView;

    open spec fn view(&self) -> PendingBoundaryConfirmationView {
        PendingBoundaryConfirmationView {
            window_ref: self.window_ref@,
            active_managed_task_ref: self.active_managed_task_ref@,
            boundary_candidate_ref: self.boundary_candidate_ref@,
            boundary_reason: self.boundary_reason,
        }
    }
}

impl DeepView for PendingBoundaryConfirmation {
    type V = PendingBoundaryConfirmationView;

    open spec fn deep_view(&self) -> PendingBoundaryConfirmationView {
        self.view()
    }
}

#[derive(Clone, Copy, Debug, PartialEq, Eq, Structural)]
pub enum BoundaryReason {
    ExistingTaskActive,
    ExplicitReplacementRequested,
}

impl View for BoundaryReason {
    type V = BoundaryReason;

    open spec fn view(&self) -> BoundaryReason {
        *self
    }
}

impl DeepView for BoundaryReason {
    type V = BoundaryReason;

    open spec fn deep_view(&self) -> BoundaryReason {
        *self
    }
}

#[derive(Debug, PartialEq, Eq)]
pub struct TaskScopeSnapshot {
    pub scope_id: TaskScopeId,
    pub managed_task_ref: ManagedTaskRef,
    pub scope_version: u32,
    pub scope_summary: String,
    pub requirement_items: Vec<RequirementItem>,
    pub workspace_ref: Option<String>,
    pub repo_ref: Option<String>,
    pub allowed_roots: Vec<String>,
    pub secret_classes: Vec<String>,
    pub constraints: Vec<ScopeConstraint>,
    pub assumptions: Vec<ScopeAssumption>,
    pub source_decision_ref: SemanticDecisionEnvelopeId,
    pub created_at: Timestamp,
}

pub struct TaskScopeSnapshotView {
    pub scope_id: Seq<char>,
    pub managed_task_ref: Seq<char>,
    pub scope_version: u32,
    pub scope_summary: Seq<char>,
    pub requirement_items: Seq<RequirementItemView>,
    pub workspace_ref: Option<Seq<char>>,
    pub repo_ref: Option<Seq<char>>,
    pub allowed_roots: Seq<Seq<char>>,
    pub secret_classes: Seq<Seq<char>>,
    pub constraints: Seq<ScopeConstraintView>,
    pub assumptions: Seq<ScopeAssumptionView>,
    pub source_decision_ref: Seq<char>,
    pub created_at: Seq<char>,
}

impl View for TaskScopeSnapshot {
    type V = TaskScopeSnapshotView;

    open spec fn view(&self) -> TaskScopeSnapshotView {
        TaskScopeSnapshotView {
            scope_id: self.scope_id@,
            managed_task_ref: self.managed_task_ref@,
            scope_version: self.scope_version,
            scope_summary: self.scope_summary@,
            requirement_items: self.requirement_items.deep_view(),
            workspace_ref: self.workspace_ref.deep_view(),
            repo_ref: self.repo_ref.deep_view(),
            allowed_roots: self.allowed_roots.deep_view(),
            secret_classes: self.secret_classes.deep_view(),
            constraints: self.constraints.deep_view(),
            assumptions: self.assumptions.deep_view(),
            source_decision_ref: self.source_decision_ref@,
            created_at: self.created_at@,
        }
    }
}

impl DeepView for TaskScopeSnapshot {
    type V = TaskScopeSnapshotView;

    open spec fn deep_view(&self) -> TaskScopeSnapshotView {
        self.view()
    }
}

#[derive(Debug, PartialEq, Eq)]
pub struct RequirementItem {
    pub requirement_id: RequirementId,
    pub text: String,
    pub status: RequirementStatus,
    pub origin: RequirementOrigin,
    pub superseded_by: Option<RequirementId>,
    pub deferred_reason: Option<String>,
}

pub struct RequirementItemView {
    pub requirement_id: Seq<char>,
    pub text: Seq<char>,
    pub status: RequirementStatus,
    pub origin: RequirementOrigin,
    pub superseded_by: Option<Seq<char>>,
    pub deferred_reason: Option<Seq<char>>,
}

impl View for RequirementItem {
    type V = RequirementItemView;

    open spec fn view(&self) -> RequirementItemView {
        RequirementItemView {
            requirement_id: self.requirement_id@,
            text: self.text@,
            status: self.status,
            origin: self.origin,
            superseded_by: self.superseded_by.deep_view(),
            deferred_reason: self.deferred_reason.deep_view(),
        }
    }
}

impl DeepView for RequirementItem {
    type V = RequirementItemView;

    open spec fn deep_view(&self) -> RequirementItemView {
        self.view()
    }
}

#[derive(Clone, Copy, Debug, PartialEq, Eq, Structural)]
pub enum RequirementStatus {
    Accepted,
    InProgress,
    Completed,
    Superseded,
    Deferred,
    Rejected,
}

impl View for RequirementStatus {
    type V = RequirementStatus;

    open spec fn view(&self) -> RequirementStatus {
        *self
    }
}

impl DeepView for RequirementStatus {
    type V = RequirementStatus;

    open spec fn deep_view(&self) -> RequirementStatus {
        *self
    }
}

#[derive(Clone, Copy, Debug, PartialEq, Eq, Structural)]
pub enum RequirementOrigin {
    InitialDecision,
    TaskChange,
    UserClarification,
}

impl View for RequirementOrigin {
    type V = RequirementOrigin;

    open spec fn view(&self) -> RequirementOrigin {
        *self
    }
}

impl DeepView for RequirementOrigin {
    type V = RequirementOrigin;

    open spec fn deep_view(&self) -> RequirementOrigin {
        *self
    }
}

#[derive(Debug, PartialEq, Eq)]
pub struct ScopeConstraint {
    pub label: String,
    pub details: String,
}

pub struct ScopeConstraintView {
    pub label: Seq<char>,
    pub details: Seq<char>,
}

impl View for ScopeConstraint {
    type V = ScopeConstraintView;

    open spec fn view(&self) -> ScopeConstraintView {
        ScopeConstraintView {
            label: self.label@,
            details: self.details@,
        }
    }
}

impl DeepView for ScopeConstraint {
    type V = ScopeConstraintView;

    open spec fn deep_view(&self) -> ScopeConstraintView {
        self.view()
    }
}

#[derive(Debug, PartialEq, Eq)]
pub struct ScopeAssumption {
    pub label: String,
    pub details: String,
}

pub struct ScopeAssumptionView {
    pub label: Seq<char>,
    pub details: Seq<char>,
}

impl View for ScopeAssumption {
    type V = ScopeAssumptionView;

    open spec fn view(&self) -> ScopeAssumptionView {
        ScopeAssumptionView {
            label: self.label@,
            details: self.details@,
        }
    }
}

impl DeepView for ScopeAssumption {
    type V = ScopeAssumptionView;

    open spec fn deep_view(&self) -> ScopeAssumptionView {
        self.view()
    }
}

#[derive(Debug, PartialEq, Eq)]
pub struct IsolatedTaskRun {
    pub run_ref: IsolatedTaskRunRef,
    pub managed_task_ref: ManagedTaskRef,
    pub status: IsolatedTaskRunStatus,
    pub spec_bundle: SpecBundle,
    pub created_at: Timestamp,
    pub updated_at: Timestamp,
}

pub struct IsolatedTaskRunView {
    pub run_ref: Seq<char>,
    pub managed_task_ref: Seq<char>,
    pub status: IsolatedTaskRunStatus,
    pub spec_bundle: SpecBundleView,
    pub created_at: Seq<char>,
    pub updated_at: Seq<char>,
}

impl View for IsolatedTaskRun {
    type V = IsolatedTaskRunView;

    open spec fn view(&self) -> IsolatedTaskRunView {
        IsolatedTaskRunView {
            run_ref: self.run_ref@,
            managed_task_ref: self.managed_task_ref@,
            status: self.status,
            spec_bundle: self.spec_bundle@,
            created_at: self.created_at@,
            updated_at: self.updated_at@,
        }
    }
}

impl DeepView for IsolatedTaskRun {
    type V = IsolatedTaskRunView;

    open spec fn deep_view(&self) -> IsolatedTaskRunView {
        self.view()
    }
}

#[derive(Clone, Copy, Debug, PartialEq, Eq, Structural)]
pub enum IsolatedTaskRunStatus {
    Draft,
    Active,
    Review,
    Result,
    Closed,
}

impl View for IsolatedTaskRunStatus {
    type V = IsolatedTaskRunStatus;

    open spec fn view(&self) -> IsolatedTaskRunStatus {
        *self
    }
}

impl DeepView for IsolatedTaskRunStatus {
    type V = IsolatedTaskRunStatus;

    open spec fn deep_view(&self) -> IsolatedTaskRunStatus {
        *self
    }
}

#[derive(Debug, PartialEq, Eq)]
pub struct SpecBundle {
    pub spec_bundle_id: SpecBundleId,
    pub managed_task_ref: ManagedTaskRef,
    pub task_scope_ref: TaskScopeId,
    pub summary: String,
    pub scope_doc: String,
    pub plan_doc: String,
    pub verification_doc: String,
    pub created_at: Timestamp,
}

pub struct SpecBundleView {
    pub spec_bundle_id: Seq<char>,
    pub managed_task_ref: Seq<char>,
    pub task_scope_ref: Seq<char>,
    pub summary: Seq<char>,
    pub scope_doc: Seq<char>,
    pub plan_doc: Seq<char>,
    pub verification_doc: Seq<char>,
    pub created_at: Seq<char>,
}

impl View for SpecBundle {
    type V = SpecBundleView;

    open spec fn view(&self) -> SpecBundleView {
        SpecBundleView {
            spec_bundle_id: self.spec_bundle_id@,
            managed_task_ref: self.managed_task_ref@,
            task_scope_ref: self.task_scope_ref@,
            summary: self.summary@,
            scope_doc: self.scope_doc@,
            plan_doc: self.plan_doc@,
            verification_doc: self.verification_doc@,
            created_at: self.created_at@,
        }
    }
}

impl DeepView for SpecBundle {
    type V = SpecBundleView;

    open spec fn deep_view(&self) -> SpecBundleView {
        self.view()
    }
}

#[derive(Debug, PartialEq, Eq)]
pub struct ReviewResult {
    pub review_result_id: ReviewResultId,
    pub managed_task_ref: ManagedTaskRef,
    pub run_ref: IsolatedTaskRunRef,
    pub reviewer_group_ref: String,
    pub review_verdict: ReviewVerdict,
    pub findings: Vec<String>,
    pub review_artifacts: Vec<ArtifactManifestItem>,
    pub summary: ReviewSummary,
    pub reviewed_at: Timestamp,
}

pub struct ReviewResultView {
    pub review_result_id: Seq<char>,
    pub managed_task_ref: Seq<char>,
    pub run_ref: Seq<char>,
    pub reviewer_group_ref: Seq<char>,
    pub review_verdict: ReviewVerdict,
    pub findings: Seq<Seq<char>>,
    pub review_artifacts: Seq<ArtifactManifestItemView>,
    pub summary: ReviewSummaryView,
    pub reviewed_at: Seq<char>,
}

impl View for ReviewResult {
    type V = ReviewResultView;

    open spec fn view(&self) -> ReviewResultView {
        ReviewResultView {
            review_result_id: self.review_result_id@,
            managed_task_ref: self.managed_task_ref@,
            run_ref: self.run_ref@,
            reviewer_group_ref: self.reviewer_group_ref@,
            review_verdict: self.review_verdict,
            findings: self.findings.deep_view(),
            review_artifacts: self.review_artifacts.deep_view(),
            summary: self.summary@,
            reviewed_at: self.reviewed_at@,
        }
    }
}

impl DeepView for ReviewResult {
    type V = ReviewResultView;

    open spec fn deep_view(&self) -> ReviewResultView {
        self.view()
    }
}

#[derive(Debug, PartialEq, Eq)]
pub struct ResultContract {
    pub result_contract_id: ResultContractId,
    pub managed_task_ref: ManagedTaskRef,
    pub pack_ref: Option<String>,
    pub outcome: ResultOutcome,
    pub acceptance_verdict: AcceptanceResult,
    pub final_scope_version: u32,
    pub scope_revision_summary: Option<String>,
    pub summary: String,
    pub key_outcomes: Vec<String>,
    pub proof_of_work: ProofOfWorkBundle,
    pub next_actions: Vec<NextActionItem>,
    pub created_at: Timestamp,
}

pub struct ResultContractView {
    pub result_contract_id: Seq<char>,
    pub managed_task_ref: Seq<char>,
    pub pack_ref: Option<Seq<char>>,
    pub outcome: ResultOutcome,
    pub acceptance_verdict: AcceptanceResult,
    pub final_scope_version: u32,
    pub scope_revision_summary: Option<Seq<char>>,
    pub summary: Seq<char>,
    pub key_outcomes: Seq<Seq<char>>,
    pub proof_of_work: ProofOfWorkBundleView,
    pub next_actions: Seq<NextActionItemView>,
    pub created_at: Seq<char>,
}

impl View for ResultContract {
    type V = ResultContractView;

    open spec fn view(&self) -> ResultContractView {
        ResultContractView {
            result_contract_id: self.result_contract_id@,
            managed_task_ref: self.managed_task_ref@,
            pack_ref: self.pack_ref.deep_view(),
            outcome: self.outcome,
            acceptance_verdict: self.acceptance_verdict,
            final_scope_version: self.final_scope_version,
            scope_revision_summary: self.scope_revision_summary.deep_view(),
            summary: self.summary@,
            key_outcomes: self.key_outcomes.deep_view(),
            proof_of_work: self.proof_of_work@,
            next_actions: self.next_actions.deep_view(),
            created_at: self.created_at@,
        }
    }
}

impl DeepView for ResultContract {
    type V = ResultContractView;

    open spec fn deep_view(&self) -> ResultContractView {
        self.view()
    }
}

#[derive(Debug, PartialEq, Eq)]
pub struct PhasePlan {
    pub phase_plan_id: PhasePlanId,
    pub managed_task_ref: ManagedTaskRef,
    pub plan_source: PhasePlanSource,
    pub plan_entries: Vec<PhasePlanEntry>,
    pub mutation_policy: PhasePlanMutationPolicy,
    pub metadata: PhasePlanMetadata,
    pub created_at: Timestamp,
}

pub struct PhasePlanView {
    pub phase_plan_id: Seq<char>,
    pub managed_task_ref: Seq<char>,
    pub plan_source: PhasePlanSource,
    pub plan_entries: Seq<PhasePlanEntryView>,
    pub mutation_policy: PhasePlanMutationPolicyView,
    pub metadata: PhasePlanMetadataView,
    pub created_at: Seq<char>,
}

impl View for PhasePlan {
    type V = PhasePlanView;

    open spec fn view(&self) -> PhasePlanView {
        PhasePlanView {
            phase_plan_id: self.phase_plan_id@,
            managed_task_ref: self.managed_task_ref@,
            plan_source: self.plan_source,
            plan_entries: self.plan_entries.deep_view(),
            mutation_policy: self.mutation_policy@,
            metadata: self.metadata@,
            created_at: self.created_at@,
        }
    }
}

impl DeepView for PhasePlan {
    type V = PhasePlanView;

    open spec fn deep_view(&self) -> PhasePlanView {
        self.view()
    }
}

#[derive(Debug, PartialEq, Eq)]
pub struct PhasePlanEntry {
    pub entry_id: PhasePlanEntryId,
    pub stage_package_id: String,
    pub sequence_no: u16,
    pub visibility: StageVisibility,
    pub origin: PhaseEntryOrigin,
    pub required: bool,
    pub skip_allowed: bool,
    pub rework_target: Option<PhasePlanEntryId>,
}

pub struct PhasePlanEntryView {
    pub entry_id: Seq<char>,
    pub stage_package_id: Seq<char>,
    pub sequence_no: u16,
    pub visibility: StageVisibility,
    pub origin: PhaseEntryOrigin,
    pub required: bool,
    pub skip_allowed: bool,
    pub rework_target: Option<Seq<char>>,
}

impl View for PhasePlanEntry {
    type V = PhasePlanEntryView;

    open spec fn view(&self) -> PhasePlanEntryView {
        PhasePlanEntryView {
            entry_id: self.entry_id@,
            stage_package_id: self.stage_package_id@,
            sequence_no: self.sequence_no,
            visibility: self.visibility,
            origin: self.origin,
            required: self.required,
            skip_allowed: self.skip_allowed,
            rework_target: self.rework_target.deep_view(),
        }
    }
}

impl DeepView for PhasePlanEntry {
    type V = PhasePlanEntryView;

    open spec fn deep_view(&self) -> PhasePlanEntryView {
        self.view()
    }
}

#[derive(Clone, Copy, Debug, PartialEq, Eq, Structural)]
pub enum PhasePlanSource {
    SystemDefault,
    UserAdjusted,
    SystemMutated,
}

impl View for PhasePlanSource {
    type V = PhasePlanSource;

    open spec fn view(&self) -> PhasePlanSource {
        *self
    }
}

impl DeepView for PhasePlanSource {
    type V = PhasePlanSource;

    open spec fn deep_view(&self) -> PhasePlanSource {
        *self
    }
}

#[derive(Clone, Copy, Debug, PartialEq, Eq, Structural)]
pub enum StageVisibility {
    UserVisible,
    Internal,
}

impl View for StageVisibility {
    type V = StageVisibility;

    open spec fn view(&self) -> StageVisibility {
        *self
    }
}

impl DeepView for StageVisibility {
    type V = StageVisibility;

    open spec fn deep_view(&self) -> StageVisibility {
        *self
    }
}

#[derive(Clone, Copy, Debug, PartialEq, Eq, Structural)]
pub enum PhaseEntryOrigin {
    PackDefault,
    UserSelected,
    SystemInserted,
}

impl View for PhaseEntryOrigin {
    type V = PhaseEntryOrigin;

    open spec fn view(&self) -> PhaseEntryOrigin {
        *self
    }
}

impl DeepView for PhaseEntryOrigin {
    type V = PhaseEntryOrigin;

    open spec fn deep_view(&self) -> PhaseEntryOrigin {
        *self
    }
}

#[derive(Debug, PartialEq, Eq)]
pub struct PhasePlanMutationPolicy {
    pub user_adjustment_allowed: bool,
    pub system_insert_allowed: bool,
}

pub struct PhasePlanMutationPolicyView {
    pub user_adjustment_allowed: bool,
    pub system_insert_allowed: bool,
}

impl View for PhasePlanMutationPolicy {
    type V = PhasePlanMutationPolicyView;

    open spec fn view(&self) -> PhasePlanMutationPolicyView {
        PhasePlanMutationPolicyView {
            user_adjustment_allowed: self.user_adjustment_allowed,
            system_insert_allowed: self.system_insert_allowed,
        }
    }
}

impl DeepView for PhasePlanMutationPolicy {
    type V = PhasePlanMutationPolicyView;

    open spec fn deep_view(&self) -> PhasePlanMutationPolicyView {
        self.view()
    }
}

#[derive(Debug, PartialEq, Eq)]
pub struct PhasePlanMetadata {
    pub pack_ref: Option<String>,
    pub default_stage_sequence: Vec<String>,
}

pub struct PhasePlanMetadataView {
    pub pack_ref: Option<Seq<char>>,
    pub default_stage_sequence: Seq<Seq<char>>,
}

impl View for PhasePlanMetadata {
    type V = PhasePlanMetadataView;

    open spec fn view(&self) -> PhasePlanMetadataView {
        PhasePlanMetadataView {
            pack_ref: self.pack_ref.deep_view(),
            default_stage_sequence: self.default_stage_sequence.deep_view(),
        }
    }
}

impl DeepView for PhasePlanMetadata {
    type V = PhasePlanMetadataView;

    open spec fn deep_view(&self) -> PhasePlanMetadataView {
        self.view()
    }
}

#[derive(Debug, PartialEq, Eq)]
pub struct AgentBinding {
    pub binding_id: AgentBindingId,
    pub managed_task_ref: ManagedTaskRef,
    pub run_ref: IsolatedTaskRunRef,
    pub stage_run_ref: Option<String>,
    pub pack_ref: Option<String>,
    pub capability_snapshot_ref: String,
    pub members: Vec<AgentBindingMember>,
    pub status: AgentBindingStatus,
    pub issued_reason: String,
    pub issued_at: Timestamp,
    pub supersedes: Option<AgentBindingRef>,
}

pub struct AgentBindingView {
    pub binding_id: Seq<char>,
    pub managed_task_ref: Seq<char>,
    pub run_ref: Seq<char>,
    pub stage_run_ref: Option<Seq<char>>,
    pub pack_ref: Option<Seq<char>>,
    pub capability_snapshot_ref: Seq<char>,
    pub members: Seq<AgentBindingMemberView>,
    pub status: AgentBindingStatus,
    pub issued_reason: Seq<char>,
    pub issued_at: Seq<char>,
    pub supersedes: Option<Seq<char>>,
}

impl View for AgentBinding {
    type V = AgentBindingView;

    open spec fn view(&self) -> AgentBindingView {
        AgentBindingView {
            binding_id: self.binding_id@,
            managed_task_ref: self.managed_task_ref@,
            run_ref: self.run_ref@,
            stage_run_ref: self.stage_run_ref.deep_view(),
            pack_ref: self.pack_ref.deep_view(),
            capability_snapshot_ref: self.capability_snapshot_ref@,
            members: self.members.deep_view(),
            status: self.status,
            issued_reason: self.issued_reason@,
            issued_at: self.issued_at@,
            supersedes: self.supersedes.deep_view(),
        }
    }
}

impl DeepView for AgentBinding {
    type V = AgentBindingView;

    open spec fn deep_view(&self) -> AgentBindingView {
        self.view()
    }
}

#[derive(Debug, PartialEq, Eq)]
pub struct AgentBindingMember {
    pub role_kind: AgentRoleKind,
    pub profile_ref: String,
    pub host_mapping_ref: Option<String>,
    pub responsibilities: Vec<String>,
    pub execution_mode: AgentExecutionMode,
    pub required: bool,
}

pub struct AgentBindingMemberView {
    pub role_kind: AgentRoleKind,
    pub profile_ref: Seq<char>,
    pub host_mapping_ref: Option<Seq<char>>,
    pub responsibilities: Seq<Seq<char>>,
    pub execution_mode: AgentExecutionMode,
    pub required: bool,
}

impl View for AgentBindingMember {
    type V = AgentBindingMemberView;

    open spec fn view(&self) -> AgentBindingMemberView {
        AgentBindingMemberView {
            role_kind: self.role_kind,
            profile_ref: self.profile_ref@,
            host_mapping_ref: self.host_mapping_ref.deep_view(),
            responsibilities: self.responsibilities.deep_view(),
            execution_mode: self.execution_mode,
            required: self.required,
        }
    }
}

impl DeepView for AgentBindingMember {
    type V = AgentBindingMemberView;

    open spec fn deep_view(&self) -> AgentBindingMemberView {
        self.view()
    }
}

#[derive(Clone, Copy, Debug, PartialEq, Eq, Structural)]
pub enum AgentRoleKind {
    Net,
    Worker,
    Recorder,
}

impl View for AgentRoleKind {
    type V = AgentRoleKind;

    open spec fn view(&self) -> AgentRoleKind {
        *self
    }
}

impl DeepView for AgentRoleKind {
    type V = AgentRoleKind;

    open spec fn deep_view(&self) -> AgentRoleKind {
        *self
    }
}

#[derive(Clone, Copy, Debug, PartialEq, Eq, Structural)]
pub enum AgentExecutionMode {
    Inline,
    BackgroundWorker,
    ReviewOnly,
    RecorderOnly,
}

impl View for AgentExecutionMode {
    type V = AgentExecutionMode;

    open spec fn view(&self) -> AgentExecutionMode {
        *self
    }
}

impl DeepView for AgentExecutionMode {
    type V = AgentExecutionMode;

    open spec fn deep_view(&self) -> AgentExecutionMode {
        *self
    }
}

#[derive(Clone, Copy, Debug, PartialEq, Eq, Structural)]
pub enum AgentBindingStatus {
    Draft,
    Active,
    Suspended,
    Superseded,
    Closed,
}

impl View for AgentBindingStatus {
    type V = AgentBindingStatus;

    open spec fn view(&self) -> AgentBindingStatus {
        *self
    }
}

impl DeepView for AgentBindingStatus {
    type V = AgentBindingStatus;

    open spec fn deep_view(&self) -> AgentBindingStatus {
        *self
    }
}

#[derive(Debug, PartialEq, Eq)]
pub struct ReviewSummary {
    pub review_verdict: ReviewVerdict,
    pub summary: String,
    pub key_findings: Vec<String>,
    pub follow_up_required: bool,
}

pub struct ReviewSummaryView {
    pub review_verdict: ReviewVerdict,
    pub summary: Seq<char>,
    pub key_findings: Seq<Seq<char>>,
    pub follow_up_required: bool,
}

impl View for ReviewSummary {
    type V = ReviewSummaryView;

    open spec fn view(&self) -> ReviewSummaryView {
        ReviewSummaryView {
            review_verdict: self.review_verdict,
            summary: self.summary@,
            key_findings: self.key_findings.deep_view(),
            follow_up_required: self.follow_up_required,
        }
    }
}

impl DeepView for ReviewSummary {
    type V = ReviewSummaryView;

    open spec fn deep_view(&self) -> ReviewSummaryView {
        self.view()
    }
}

#[derive(Clone, Copy, Debug, PartialEq, Eq, Structural)]
pub enum ReviewVerdict {
    Approved,
    ReworkRequired,
    Blocked,
}

impl View for ReviewVerdict {
    type V = ReviewVerdict;

    open spec fn view(&self) -> ReviewVerdict {
        *self
    }
}

impl DeepView for ReviewVerdict {
    type V = ReviewVerdict;

    open spec fn deep_view(&self) -> ReviewVerdict {
        *self
    }
}

#[derive(Debug, PartialEq, Eq)]
pub struct ArtifactManifestItem {
    pub label: String,
    pub reference: String,
}

pub struct ArtifactManifestItemView {
    pub label: Seq<char>,
    pub reference: Seq<char>,
}

impl View for ArtifactManifestItem {
    type V = ArtifactManifestItemView;

    open spec fn view(&self) -> ArtifactManifestItemView {
        ArtifactManifestItemView {
            label: self.label@,
            reference: self.reference@,
        }
    }
}

impl DeepView for ArtifactManifestItem {
    type V = ArtifactManifestItemView;

    open spec fn deep_view(&self) -> ArtifactManifestItemView {
        self.view()
    }
}

#[derive(Debug, PartialEq, Eq)]
pub struct NextActionItem {
    pub title: String,
    pub details: String,
}

pub struct NextActionItemView {
    pub title: Seq<char>,
    pub details: Seq<char>,
}

impl View for NextActionItem {
    type V = NextActionItemView;

    open spec fn view(&self) -> NextActionItemView {
        NextActionItemView {
            title: self.title@,
            details: self.details@,
        }
    }
}

impl DeepView for NextActionItem {
    type V = NextActionItemView;

    open spec fn deep_view(&self) -> NextActionItemView {
        self.view()
    }
}

#[derive(Debug, PartialEq, Eq)]
pub struct ProofOfWorkBundle {
    pub proof_of_work_id: ProofOfWorkBundleId,
    pub managed_task_ref: ManagedTaskRef,
    pub run_ref: IsolatedTaskRunRef,
    pub acceptance_verdict: AcceptanceResult,
    pub acceptance_basis: Vec<String>,
    pub accepted_by_ref: String,
    pub accepted_at: Timestamp,
    pub accepted_scope_version: u32,
    pub review_summary: ReviewSummary,
    pub artifact_manifest: Vec<ArtifactManifestItem>,
    pub evidence_refs: Vec<ProofEvidenceRef>,
    pub run_summary: String,
}

pub struct ProofOfWorkBundleView {
    pub proof_of_work_id: Seq<char>,
    pub managed_task_ref: Seq<char>,
    pub run_ref: Seq<char>,
    pub acceptance_verdict: AcceptanceResult,
    pub acceptance_basis: Seq<Seq<char>>,
    pub accepted_by_ref: Seq<char>,
    pub accepted_at: Seq<char>,
    pub accepted_scope_version: u32,
    pub review_summary: ReviewSummaryView,
    pub artifact_manifest: Seq<ArtifactManifestItemView>,
    pub evidence_refs: Seq<ProofEvidenceRefView>,
    pub run_summary: Seq<char>,
}

impl View for ProofOfWorkBundle {
    type V = ProofOfWorkBundleView;

    open spec fn view(&self) -> ProofOfWorkBundleView {
        ProofOfWorkBundleView {
            proof_of_work_id: self.proof_of_work_id@,
            managed_task_ref: self.managed_task_ref@,
            run_ref: self.run_ref@,
            acceptance_verdict: self.acceptance_verdict,
            acceptance_basis: self.acceptance_basis.deep_view(),
            accepted_by_ref: self.accepted_by_ref@,
            accepted_at: self.accepted_at@,
            accepted_scope_version: self.accepted_scope_version,
            review_summary: self.review_summary@,
            artifact_manifest: self.artifact_manifest.deep_view(),
            evidence_refs: self.evidence_refs.deep_view(),
            run_summary: self.run_summary@,
        }
    }
}

impl DeepView for ProofOfWorkBundle {
    type V = ProofOfWorkBundleView;

    open spec fn deep_view(&self) -> ProofOfWorkBundleView {
        self.view()
    }
}

#[derive(Debug, PartialEq, Eq)]
pub struct ProofEvidenceRef {
    pub label: String,
    pub reference: String,
}

pub struct ProofEvidenceRefView {
    pub label: Seq<char>,
    pub reference: Seq<char>,
}

impl View for ProofEvidenceRef {
    type V = ProofEvidenceRefView;

    open spec fn view(&self) -> ProofEvidenceRefView {
        ProofEvidenceRefView {
            label: self.label@,
            reference: self.reference@,
        }
    }
}

impl DeepView for ProofEvidenceRef {
    type V = ProofEvidenceRefView;

    open spec fn deep_view(&self) -> ProofEvidenceRefView {
        self.view()
    }
}

} // verus!
