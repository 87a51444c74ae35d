use vstd::prelude::*;
use crate::model::authorization::AuthorizationBudgetBand;
use crate::model::authorization::DecisionArea;
use crate::model::ids::HostCapabilitySnapshotRef;
use crate::model::ids::ManagedTaskRef;
use crate::model::ids::RiskAssessmentId;
use crate::model::ids::RiskAssessmentRef;
use crate::model::ids::StageRunRef;
use crate::model::ids::Timestamp;

verus! {

#[derive(Debug, PartialEq, Eq)]
pub struct RiskAssessment {
    pub assessment_id: RiskAssessmentId,
    pub managed_task_ref: ManagedTaskRef,
    pub subject_kind: RiskSubjectKind,
    pub capability_snapshot_ref: Option<HostCapabilitySnapshotRef>,
    pub stage_run_ref: Option<StageRunRef>,
    pub decision_area: Option<DecisionArea>,
    pub overall_risk_band: RiskBand,
    pub risk_dimensions: RiskDimensions,
    pub trigger_reason: String,
    pub evidence_refs: Vec<EvidenceRef>,
    pub derived_consequences: Vec<RiskConsequence>,
    pub assessed_at: Timestamp,
    pub supersedes: Option<RiskAssessmentRef>,
}

pub struct RiskAssessmentView {
    pub assessment_id: Seq<char>,
    pub managed_task_ref: Seq<char>,
    pub subject_kind: RiskSubjectKind,
    pub capability_snapshot_ref: Option<Seq<char>>,
    pub stage_run_ref: Option<Seq<char>>,
    pub decision_area: Option<DecisionArea>,
    pub overall_risk_band: RiskBand,
    pub risk_dimensions: RiskDimensionsView,
    pub trigger_reason: Seq<char>,
    pub evidence_refs: Seq<EvidenceRefView>,
    pub derived_consequences: Seq<RiskConsequence>,
    pub assessed_at: Seq<char>,
    pub supersedes: Option<Seq<char>>,
}

impl View for RiskAssessment {
    type V = RiskAssessmentView;

    open spec fn view(&self) -> RiskAssessmentView {
        RiskAssessmentView {
            assessment_id: self.assessment_id@,
            managed_task_ref: self.managed_task_ref@,
            subject_kind: self.subject_kind,
            capability_snapshot_ref: self.capability_snapshot_ref.deep_view(),
            stage_run_ref: self.stage_run_ref.deep_view(),
            decision_area: self.decision_area.deep_view(),
            overall_risk_band: self.overall_risk_band,
            risk_dimensions: self.risk_dimensions@,
            trigger_reason: self.trigger_reason@,
            evidence_refs: self.evidence_refs.deep_view(),
            derived_consequences: self.derived_consequences.deep_view(),
            assessed_at: self.assessed_at@,
            supersedes: self.supersedes.deep_view(),
        }
    }
}

impl DeepView for RiskAssessment {
    type V = RiskAssessmentView;

    open spec fn deep_view(&self) -> RiskAssessmentView {
        self.view()
    }
}

#[derive(Clone, Copy, Debug, PartialEq, Eq, Structural)]
pub enum RiskSubjectKind {
    TaskBaseline,
    ActionOverride,
}

impl View for RiskSubjectKind {
    type V = RiskSubjectKind;

    open spec fn view(&self) -> RiskSubjectKind {
        *self
    }
}

impl DeepView for RiskSubjectKind {
    type V = RiskSubjectKind;

    open spec fn deep_view(&self) -> RiskSubjectKind {
        *self
    }
}

#[derive(Clone, Copy, Debug, PartialEq, Eq, Structural, PartialOrd, Ord)]
pub enum RiskBand {
    Low,
    Medium,
    High,
    Critical,
}

impl View for RiskBand {
    type V = RiskBand;

    open spec fn view(&self) -> RiskBand {
        *self
    }
}

impl DeepView for RiskBand {
    type V = RiskBand;

    open spec fn deep_view(&self) -> RiskBand {
        *self
    }
}

#[derive(Debug, PartialEq, Eq)]
pub struct RiskDimensions {
    pub write_impact: RiskBand,
    pub external_side_effect: RiskBand,
    pub secret_exposure: RiskBand,
    pub irreversibility: RiskBand,
    pub budget_burn: RiskBand,
    pub uncertainty: RiskBand,
}

pub struct RiskDimensionsView {
    pub write_impact: RiskBand,
    pub external_side_effect: RiskBand,
    pub secret_exposure: RiskBand,
    pub irreversibility: RiskBand,
    pub budget_burn: RiskBand,
    pub uncertainty: RiskBand,
}

impl View for RiskDimensions {
    type V = RiskDimensionsView;

    open spec fn view(&self) -> RiskDimensionsView {
        RiskDimensionsView {
            write_impact: self.write_impact,
            external_side_effect: self.external_side_effect,
            secret_exposure: self.secret_exposure,
            irreversibility: self.irreversibility,
            budget_burn: self.budget_burn,
            uncertainty: self.uncertainty,
        }
    }
}

impl DeepView for RiskDimensions {
    type V = RiskDimensionsView;

    open spec fn deep_view(&self) -> RiskDimensionsView {
        self.view()
    }
}

#[derive(Clone, Copy, Debug, PartialEq, Eq, Structural)]
pub enum RiskConsequence {
    MountAdditionalGovernance,
    NarrowExecutionAuthorization,
    RequireApprovalWindow,
    RequireAdditionalReview,
    StopSilentExecution,
}

impl View for RiskConsequence {
    type V = RiskConsequence;

    open spec fn view(&self) -> RiskConsequence {
        *self
    }
}

impl DeepView for RiskConsequence {
    type V = RiskConsequence;

    open spec fn deep_view(&self) -> RiskConsequence {
        *self
    }
}

#[derive(Debug, PartialEq, Eq)]
pub struct EvidenceRef {
    pub kind: String,
    pub reference: String,
}

pub struct EvidenceRefView {
    pub kind: Seq<char>,
    pub reference: Seq<char>,
}

impl View for EvidenceRef {
    type V = EvidenceRefView;

    open spec fn view(&self) -> EvidenceRefView {
        EvidenceRefView {
            kind: self.kind@,
            reference: self.reference@,
        }
    }
}

impl DeepView for EvidenceRef {
    type V = EvidenceRefView;

    open spec fn deep_view(&self) -> EvidenceRefView {
        self.view()
    }
}

#[derive(Debug, PartialEq, Eq)]
pub struct ProposedAction {
    pub proposal_id: String,
    pub managed_task_ref: ManagedTaskRef,
    pub stage_run_ref: Option<StageRunRef>,
    pub decision_area: DecisionArea,
    pub tool_name: Option<String>,
    pub readable_roots: Vec<String>,
    pub writable_roots: Vec<String>,
    pub secret_classes: Vec<String>,
    pub external_side_effect: bool,
    pub irreversible: bool,
    pub estimated_budget_band: AuthorizationBudgetBand,
    pub preview_available: bool,
    pub reason: String,
}

pub struct ProposedActionView {
    pub proposal_id: Seq<char>,
    pub managed_task_ref: Seq<char>,
    pub stage_run_ref: Option<Seq<char>>,
    pub decision_area: DecisionArea,
    pub tool_name: Option<Seq<char>>,
    pub readable_roots: Seq<Seq<char>>,
    pub writable_roots: Seq<Seq<char>>,
    pub secret_classes: Seq<Seq<char>>,
    pub external_side_effect: bool,
    pub irreversible: bool,
    pub estimated_budget_band: AuthorizationBudgetBand,
    pub preview_available: bool,
    pub reason: Seq<char>,
}

impl View for ProposedAction {
    type V = ProposedActionView;

    open spec fn view(&self) -> ProposedActionView {
        ProposedActionView {
            proposal_id: self.proposal_id@,
            managed_task_ref: self.managed_task_ref@,
            stage_run_ref: self.stage_run_ref.deep_view(),
            decision_area: self.decision_area,
            tool_name: self.tool_name.deep_view(),
            readable_roots: self.readable_roots.deep_view(),
            writable_roots: self.writable_roots.deep_view(),
            secret_classes: self.secret_classes.deep_view(),
            external_side_effect: self.external_side_effect,
            irreversible: self.irreversible,
            estimated_budget_band: self.estimated_budget_band,
            preview_available: self.preview_available,
            reason: self.reason@,
        }
    }
}

impl DeepView for ProposedAction {
    type V = ProposedActionView;

    open spec fn deep_view(&self) -> ProposedActionView {
        self.view()
    }
}

} // verus!
