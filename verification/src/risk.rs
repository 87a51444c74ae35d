//! Risk assessment: the task baseline issued with each scope and the override
//! assessed for a single proposed action.
use crate::model::authorization::{AuthorizationBudgetBand, DecisionArea};
use crate::model::ids::{is_millis_text, is_minted_id, new_id, now_timestamp};
use crate::model::ingress::{HostCapabilitySnapshot, HostCapabilitySnapshotView};
use crate::model::risk::{
    EvidenceRef, EvidenceRefView, ProposedAction, ProposedActionView, RiskAssessment,
    RiskAssessmentView, RiskBand, RiskConsequence, RiskDimensions, RiskDimensionsView,
    RiskSubjectKind,
};
use crate::model::task::{ManagedTask, ManagedTaskView, TaskScopeSnapshot, TaskScopeSnapshotView};
use crate::text::{contains_seq, owned, str_contains, str_eq};
use vstd::prelude::*;

verus! {

/// The position of a band in `Low < Medium < High < Critical`.
pub open spec fn band_rank(b: RiskBand) -> nat {
    match b {
        RiskBand::Low => 0,
        RiskBand::Medium => 1,
        RiskBand::High => 2,
        RiskBand::Critical => 3,
    }
}

/// The higher of two bands.
pub open spec fn higher_band(a: RiskBand, b: RiskBand) -> RiskBand {
    if band_rank(a) >= band_rank(b) {
        a
    } else {
        b
    }
}

/// The highest band over all six dimensions.
pub open spec fn max_band_of(d: RiskDimensionsView) -> RiskBand {
    higher_band(
        higher_band(
            higher_band(higher_band(higher_band(d.write_impact, d.external_side_effect), d.secret_exposure), d.irreversibility),
            d.budget_burn,
        ),
        d.uncertainty,
    )
}

fn band_rank_exec(b: RiskBand) -> (r: u8)
    ensures
        r as nat == band_rank(b),
{
    match b {
        RiskBand::Low => 0,
        RiskBand::Medium => 1,
        RiskBand::High => 2,
        RiskBand::Critical => 3,
    }
}

fn higher_band_exec(a: RiskBand, b: RiskBand) -> (r: RiskBand)
    ensures
        r == higher_band(a, b),
{
    if band_rank_exec(a) >= band_rank_exec(b) {
        a
    } else {
        b
    }
}

impl RiskDimensions {
    /// The highest band among the six dimensions.
    pub fn max_band(&self) -> (b: RiskBand)
        ensures
            b == max_band_of(self@),
    {
        let a = higher_band_exec(self.write_impact, self.external_side_effect);
        let a = higher_band_exec(a, self.secret_exposure);
        let a = higher_band_exec(a, self.irreversibility);
        let a = higher_band_exec(a, self.budget_burn);
        higher_band_exec(a, self.uncertainty)
    }
}

/// A secret class that names production or sensitive material.
pub open spec fn is_sensitive_secret_class(class: Seq<char>) -> bool {
    contains_seq(class, "prod"@) || contains_seq(class, "sensitive"@)
}

/// True when some class in `classes` is sensitive.
pub open spec fn any_sensitive(classes: Seq<Seq<char>>) -> bool {
    exists|i: int| 0 <= i < classes.len() && is_sensitive_secret_class(#[trigger] classes[i])
}

/// The budget burn implied by a budget band.
pub open spec fn budget_burn_band(b: AuthorizationBudgetBand) -> RiskBand {
    match b {
        AuthorizationBudgetBand::Conservative => RiskBand::Low,
        AuthorizationBudgetBand::Standard => RiskBand::Medium,
        AuthorizationBudgetBand::Elevated => RiskBand::High,
    }
}

/// The dimensions of a task baseline.
pub open spec fn baseline_dimensions(
    scope: TaskScopeSnapshotView,
    capability: HostCapabilitySnapshotView,
) -> RiskDimensionsView {
    RiskDimensionsView {
        write_impact: if scope.allowed_roots.contains("/"@) {
            RiskBand::Critical
        } else if capability.writable_roots.len() == 0 {
            RiskBand::Low
        } else {
            RiskBand::Medium
        },
        external_side_effect: RiskBand::Low,
        secret_exposure: if any_sensitive(scope.secret_classes) {
            RiskBand::High
        } else if scope.secret_classes.len() == 0 {
            RiskBand::Low
        } else {
            RiskBand::Medium
        },
        irreversibility: RiskBand::Low,
        budget_burn: budget_burn_band(capability.max_budget_band),
        uncertainty: RiskBand::Medium,
    }
}

/// The consequences a task baseline derives from its overall band.
pub open spec fn baseline_consequences(band: RiskBand) -> Seq<RiskConsequence> {
    let governance: Seq<RiskConsequence> = if band_rank(band) >= 2 {
        seq![RiskConsequence::MountAdditionalGovernance]
    } else {
        Seq::empty()
    };
    if band == RiskBand::Critical {
        governance + seq![RiskConsequence::RequireApprovalWindow, RiskConsequence::StopSilentExecution]
    } else {
        governance
    }
}

/// The task baseline assessment, given its identifier and assessment time.
pub open spec fn task_baseline_spec(
    task: ManagedTaskView,
    scope: TaskScopeSnapshotView,
    capability: HostCapabilitySnapshotView,
    trigger_reason: Seq<char>,
    supersedes: Option<Seq<char>>,
    assessment_id: Seq<char>,
    assessed_at: Seq<char>,
) -> RiskAssessmentView {
    let dimensions = baseline_dimensions(scope, capability);
    let band = max_band_of(dimensions);
    RiskAssessmentView {
        assessment_id,
        managed_task_ref: task.managed_task_ref,
        subject_kind: RiskSubjectKind::TaskBaseline,
        capability_snapshot_ref: Some(capability.capability_snapshot_ref),
        stage_run_ref: task.active_run_ref,
        decision_area: None,
        overall_risk_band: band,
        risk_dimensions: dimensions,
        trigger_reason,
        evidence_refs: seq![
            EvidenceRefView { kind: "task_scope"@, reference: scope.scope_id },
            EvidenceRefView {
                kind: "capability_snapshot"@,
                reference: capability.capability_snapshot_ref,
            },
        ],
        derived_consequences: baseline_consequences(band),
        assessed_at,
        supersedes,
    }
}

/// The dimensions of an action override.
pub open spec fn override_dimensions(proposal: ProposedActionView) -> RiskDimensionsView {
    RiskDimensionsView {
        write_impact: if proposal.writable_roots.contains("/"@) {
            RiskBand::Critical
        } else if proposal.writable_roots.len() == 0 {
            RiskBand::Low
        } else {
            RiskBand::High
        },
        external_side_effect: if proposal.external_side_effect {
            RiskBand::High
        } else {
            RiskBand::Low
        },
        secret_exposure: if any_sensitive(proposal.secret_classes) {
            RiskBand::Critical
        } else if proposal.secret_classes.len() == 0 {
            RiskBand::Low
        } else {
            RiskBand::High
        },
        irreversibility: if proposal.irreversible {
            RiskBand::Critical
        } else {
            RiskBand::Medium
        },
        budget_burn: budget_burn_band(proposal.estimated_budget_band),
        uncertainty: if proposal.preview_available {
            RiskBand::Medium
        } else {
            RiskBand::High
        },
    }
}

/// The consequences an action override derives from its overall band.
pub open spec fn override_consequences(band: RiskBand) -> Seq<RiskConsequence> {
    let review: Seq<RiskConsequence> = if band_rank(band) >= 2 {
        seq![
            RiskConsequence::NarrowExecutionAuthorization,
            RiskConsequence::RequireApprovalWindow,
            RiskConsequence::RequireAdditionalReview,
        ]
    } else {
        seq![RiskConsequence::NarrowExecutionAuthorization]
    };
    if band == RiskBand::Critical {
        review.push(RiskConsequence::StopSilentExecution)
    } else {
        review
    }
}

/// The override assessment of a proposed action, given its identifier and
/// assessment time.
pub open spec fn action_override_spec(
    proposal: ProposedActionView,
    capability: HostCapabilitySnapshotView,
    trigger_reason: Seq<char>,
    assessment_id: Seq<char>,
    assessed_at: Seq<char>,
) -> RiskAssessmentView {
    let dimensions = override_dimensions(proposal);
    let band = max_band_of(dimensions);
    RiskAssessmentView {
        assessment_id,
        managed_task_ref: proposal.managed_task_ref,
        subject_kind: RiskSubjectKind::ActionOverride,
        capability_snapshot_ref: Some(capability.capability_snapshot_ref),
        stage_run_ref: proposal.stage_run_ref,
        decision_area: Some(proposal.decision_area),
        overall_risk_band: band,
        risk_dimensions: dimensions,
        trigger_reason,
        evidence_refs: seq![
            EvidenceRefView { kind: "proposal"@, reference: proposal.proposal_id },
            EvidenceRefView {
                kind: "capability_snapshot"@,
                reference: capability.capability_snapshot_ref,
            },
        ],
        derived_consequences: override_consequences(band),
        assessed_at,
        supersedes: None,
    }
}

/// True when `values` holds a string equal to `target`.
pub fn contains_text(values: &Vec<String>, target: &str) -> (r: bool)
    ensures
        r == values.deep_view().contains(target@),
{
    let ghost views = values.deep_view();
    let mut i: usize = 0;
    while i < values.len()
        invariant
            views == values.deep_view(),
            i <= values@.len(),
            forall|k: int| 0 <= k < i ==> views[k] != target@,
        decreases values.len() - i,
    {
        if str_eq(values[i].as_str(), target) {
            assert(views[i as int] == target@);
            return true;
        }
        i += 1;
    }
    false
}

fn any_sensitive_exec(classes: &Vec<String>) -> (r: bool)
    ensures
        r == any_sensitive(classes.deep_view()),
{
    let ghost views = classes.deep_view();
    let mut i: usize = 0;
    while i < classes.len()
        invariant
            views == classes.deep_view(),
            i <= classes@.len(),
            forall|k: int| 0 <= k < i ==> !is_sensitive_secret_class(#[trigger] views[k]),
        decreases classes.len() - i,
    {
        let class = classes[i].as_str();
        if str_contains(class, "prod") || str_contains(class, "sensitive") {
            assert(is_sensitive_secret_class(views[i as int]));
            return true;
        }
        i += 1;
    }
    false
}

fn budget_burn_exec(b: AuthorizationBudgetBand) -> (r: RiskBand)
    ensures
        r == budget_burn_band(b),
{
    match b {
        AuthorizationBudgetBand::Conservative => RiskBand::Low,
        AuthorizationBudgetBand::Standard => RiskBand::Medium,
        AuthorizationBudgetBand::Elevated => RiskBand::High,
    }
}

fn baseline_consequences_exec(band: RiskBand) -> (r: Vec<RiskConsequence>)
    ensures
        r.deep_view() == baseline_consequences(band),
{
    let mut r: Vec<RiskConsequence> = Vec::new();
    if band_rank_exec(band) >= 2 {
        r.push(RiskConsequence::MountAdditionalGovernance);
    }
    if band == RiskBand::Critical {
        r.push(RiskConsequence::RequireApprovalWindow);
        r.push(RiskConsequence::StopSilentExecution);
    }
    assert(r.deep_view() =~= baseline_consequences(band));
    r
}

fn override_consequences_exec(band: RiskBand) -> (r: Vec<RiskConsequence>)
    ensures
        r.deep_view() == override_consequences(band),
{
    let mut r: Vec<RiskConsequence> = Vec::new();
    r.push(RiskConsequence::NarrowExecutionAuthorization);
    if band_rank_exec(band) >= 2 {
        r.push(RiskConsequence::RequireApprovalWindow);
        r.push(RiskConsequence::RequireAdditionalReview);
    }
    if band == RiskBand::Critical {
        r.push(RiskConsequence::StopSilentExecution);
    }
    assert(r.deep_view() =~= override_consequences(band));
    r
}

fn two_evidence_refs(kind: &str, reference: &String, capability_ref: &String) -> (r: Vec<
    EvidenceRef,
>)
    ensures
        r.deep_view() == seq![
            EvidenceRefView { kind: kind@, reference: reference@ },
            EvidenceRefView { kind: "capability_snapshot"@, reference: capability_ref@ },
        ],
{
    let mut r: Vec<EvidenceRef> = Vec::new();
    r.push(EvidenceRef { kind: owned(kind), reference: reference.clone() });
    r.push(EvidenceRef { kind: owned("capability_snapshot"), reference: capability_ref.clone() });
    assert(r.deep_view() =~= seq![
        EvidenceRefView { kind: kind@, reference: reference@ },
        EvidenceRefView { kind: "capability_snapshot"@, reference: capability_ref@ },
    ]);
    r
}

/// Assesses the task baseline from its scope and the host capability, with
/// the given identifier and assessment time.
pub fn build_task_baseline(
    managed_task: &ManagedTask,
    scope: &TaskScopeSnapshot,
    capability: &HostCapabilitySnapshot,
    trigger_reason: String,
    supersedes: Option<String>,
    assessment_id: String,
    assessed_at: String,
) -> (r: RiskAssessment)
    ensures
        r@ == task_baseline_spec(
            managed_task@,
            scope@,
            capability@,
            trigger_reason@,
            supersedes.deep_view(),
            assessment_id@,
            assessed_at@,
        ),
{
    let write_impact = if contains_text(&scope.allowed_roots, "/") {
        RiskBand::Critical
    } else if capability.writable_roots.len() == 0 {
        RiskBand::Low
    } else {
        RiskBand::Medium
    };
    let secret_exposure = if any_sensitive_exec(&scope.secret_classes) {
        RiskBand::High
    } else if scope.secret_classes.len() == 0 {
        RiskBand::Low
    } else {
        RiskBand::Medium
    };
    let dimensions = RiskDimensions {
        write_impact,
        external_side_effect: RiskBand::Low,
        secret_exposure,
        irreversibility: RiskBand::Low,
        budget_burn: budget_burn_exec(capability.max_budget_band),
        uncertainty: RiskBand::Medium,
    };
    let overall_risk_band = dimensions.max_band();
    let derived_consequences = baseline_consequences_exec(overall_risk_band);
    let evidence_refs = two_evidence_refs(
        "task_scope",
        &scope.scope_id,
        &capability.capability_snapshot_ref,
    );
    RiskAssessment {
        assessment_id,
        managed_task_ref: managed_task.managed_task_ref.clone(),
        subject_kind: RiskSubjectKind::TaskBaseline,
        capability_snapshot_ref: Some(capability.capability_snapshot_ref.clone()),
        stage_run_ref: managed_task.active_run_ref.clone(),
        decision_area: None,
        overall_risk_band,
        risk_dimensions: dimensions,
        trigger_reason,
        evidence_refs,
        derived_consequences,
        assessed_at,
        supersedes,
    }
}

/// Assesses the task baseline with a fresh `risk-` identifier, stamped now.
pub fn assess_task_baseline(
    managed_task: &ManagedTask,
    scope: &TaskScopeSnapshot,
    capability: &HostCapabilitySnapshot,
    trigger_reason: String,
    supersedes: Option<String>,
) -> (r: RiskAssessment)
    ensures
        r@ == task_baseline_spec(
            managed_task@,
            scope@,
            capability@,
            trigger_reason@,
            supersedes.deep_view(),
            r@.assessment_id,
            r@.assessed_at,
        ),
        is_minted_id(r@.assessment_id, "risk"@),
        is_millis_text(r@.assessed_at),
{
    let assessment_id = new_id("risk");
    let assessed_at = now_timestamp();
    build_task_baseline(
        managed_task,
        scope,
        capability,
        trigger_reason,
        supersedes,
        assessment_id,
        assessed_at,
    )
}

/// Assesses a proposed action against the host capability, with the given
/// identifier and assessment time.
pub fn build_action_override(
    proposal: &ProposedAction,
    capability: &HostCapabilitySnapshot,
    trigger_reason: String,
    assessment_id: String,
    assessed_at: String,
) -> (r: RiskAssessment)
    ensures
        r@ == action_override_spec(
            proposal@,
            capability@,
            trigger_reason@,
            assessment_id@,
            assessed_at@,
        ),
{
    let write_impact = if contains_text(&proposal.writable_roots, "/") {
        RiskBand::Critical
    } else if proposal.writable_roots.len() == 0 {
        RiskBand::Low
    } else {
        RiskBand::High
    };
    let external_side_effect = if proposal.external_side_effect {
        RiskBand::High
    } else {
        RiskBand::Low
    };
    let secret_exposure = if any_sensitive_exec(&proposal.secret_classes) {
        RiskBand::Critical
    } else if proposal.secret_classes.len() == 0 {
        RiskBand::Low
    } else {
        RiskBand::High
    };
    let irreversibility = if proposal.irreversible {
        RiskBand::Critical
    } else {
        RiskBand::Medium
    };
    let uncertainty = if proposal.preview_available {
        RiskBand::Medium
    } else {
        RiskBand::High
    };
    let dimensions = RiskDimensions {
        write_impact,
        external_side_effect,
        secret_exposure,
        irreversibility,
        budget_burn: budget_burn_exec(proposal.estimated_budget_band),
        uncertainty,
    };
    let overall_risk_band = dimensions.max_band();
    let derived_consequences = override_consequences_exec(overall_risk_band);
    let evidence_refs = two_evidence_refs(
        "proposal",
        &proposal.proposal_id,
        &capability.capability_snapshot_ref,
    );
    let decision_area: DecisionArea = proposal.decision_area;
    RiskAssessment {
        assessment_id,
        managed_task_ref: proposal.managed_task_ref.clone(),
        subject_kind: RiskSubjectKind::ActionOverride,
        capability_snapshot_ref: Some(capability.capability_snapshot_ref.clone()),
        stage_run_ref: proposal.stage_run_ref.clone(),
        decision_area: Some(decision_area),
        overall_risk_band,
        risk_dimensions: dimensions,
        trigger_reason,
        evidence_refs,
        derived_consequences,
        assessed_at,
        supersedes: None,
    }
}

/// Assesses a proposed action with a fresh `risk-` identifier, stamped now.
pub fn assess_action_override(
    proposal: &ProposedAction,
    capability: &HostCapabilitySnapshot,
    trigger_reason: String,
) -> (r: RiskAssessment)
    ensures
        r@ == action_override_spec(
            proposal@,
            capability@,
            trigger_reason@,
            r@.assessment_id,
            r@.assessed_at,
        ),
        is_minted_id(r@.assessment_id, "risk"@),
        is_millis_text(r@.assessed_at),
{
    let assessment_id = new_id("risk");
    let assessed_at = now_timestamp();
    build_action_override(proposal, capability, trigger_reason, assessment_id, assessed_at)
}

/// The overall band of a set of dimensions is at least as high as each
/// dimension, and it is one of them.
pub proof fn law_max_band_is_the_highest_dimension(d: RiskDimensionsView)
    ensures
        band_rank(max_band_of(d)) >= band_rank(d.write_impact),
        band_rank(max_band_of(d)) >= band_rank(d.external_side_effect),
        band_rank(max_band_of(d)) >= band_rank(d.secret_exposure),
        band_rank(max_band_of(d)) >= band_rank(d.irreversibility),
        band_rank(max_band_of(d)) >= band_rank(d.budget_burn),
        band_rank(max_band_of(d)) >= band_rank(d.uncertainty),
        max_band_of(d) == d.write_impact || max_band_of(d) == d.external_side_effect
            || max_band_of(d) == d.secret_exposure || max_band_of(d) == d.irreversibility
            || max_band_of(d) == d.budget_burn || max_band_of(d) == d.uncertainty,
{
}

/// A task baseline whose scope allows writing under `/` is critical, and a
/// critical baseline always requires an approval window and stops silent
/// execution; any baseline of band High or above mounts additional governance.
pub proof fn law_baseline_escalation(
    task: ManagedTaskView,
    scope: TaskScopeSnapshotView,
    capability: HostCapabilitySnapshotView,
    reason: Seq<char>,
    supersedes: Option<Seq<char>>,
    id: Seq<char>,
    at: Seq<char>,
)
    ensures
        ({
            let a = task_baseline_spec(task, scope, capability, reason, supersedes, id, at);
            &&& scope.allowed_roots.contains("/"@) ==> a.overall_risk_band == RiskBand::Critical
            &&& a.overall_risk_band == RiskBand::Critical ==> a.derived_consequences.contains(
                RiskConsequence::RequireApprovalWindow,
            ) && a.derived_consequences.contains(RiskConsequence::StopSilentExecution)
            &&& band_rank(a.overall_risk_band) >= 2 <==> a.derived_consequences.contains(
                RiskConsequence::MountAdditionalGovernance,
            )
            &&& band_rank(a.overall_risk_band) >= 1
        }),
{
    let a = task_baseline_spec(task, scope, capability, reason, supersedes, id, at);
    let c = a.derived_consequences;
    if a.overall_risk_band == RiskBand::Critical {
        assert(c[1] == RiskConsequence::RequireApprovalWindow);
        assert(c[2] == RiskConsequence::StopSilentExecution);
    }
    if band_rank(a.overall_risk_band) >= 2 {
        assert(c[0] == RiskConsequence::MountAdditionalGovernance);
    }
}

/// Every action override narrows the execution authorization; it requires an
/// approval window and additional review exactly when its band is High or
/// above, and stops silent execution exactly when it is Critical.
pub proof fn law_override_consequences(band: RiskBand)
    ensures
        override_consequences(band)[0] == RiskConsequence::NarrowExecutionAuthorization,
        override_consequences(band).contains(RiskConsequence::RequireApprovalWindow) <==> band_rank(
            band,
        ) >= 2,
        override_consequences(band).contains(RiskConsequence::RequireAdditionalReview)
            <==> band_rank(band) >= 2,
        override_consequences(band).contains(RiskConsequence::StopSilentExecution) <==> band
            == RiskBand::Critical,
{
    let c = override_consequences(band);
    if band_rank(band) >= 2 {
        assert(c[1] == RiskConsequence::RequireApprovalWindow);
        assert(c[2] == RiskConsequence::RequireAdditionalReview);
    }
    if band == RiskBand::Critical {
        assert(c[3] == RiskConsequence::StopSilentExecution);
    }
}

/// An irreversible action, or one that touches a sensitive secret class or
/// writes under `/`, is assessed Critical.
pub proof fn law_override_critical_triggers(proposal: ProposedActionView)
    ensures
        (proposal.irreversible || any_sensitive(proposal.secret_classes)
            || proposal.writable_roots.contains("/"@)) ==> max_band_of(
            override_dimensions(proposal),
        ) == RiskBand::Critical,
{
}

/// What each dimension of an action override is, read off the proposal: a
/// write under `/` is Critical, other writes High, none Low; an external side
/// effect is High, none Low; a sensitive secret class is Critical, other
/// classes High, none Low; an irreversible action is Critical, any other
/// Medium; the budget band gives Low, Medium or High; without a preview the
/// uncertainty is High, with one Medium. So an action with an external side
/// effect is assessed High or above, and it always requires an approval
/// window and additional review besides narrowing the authorization.
pub proof fn law_override_dimensions_follow_the_proposal(
    proposal: ProposedActionView,
    capability: HostCapabilitySnapshotView,
    reason: Seq<char>,
    id: Seq<char>,
    at: Seq<char>,
)
    ensures
        ({
            let a = action_override_spec(proposal, capability, reason, id, at);
            let d = a.risk_dimensions;
            &&& a.subject_kind == RiskSubjectKind::ActionOverride
            &&& a.assessment_id == id && a.assessed_at == at && a.trigger_reason == reason
            &&& a.managed_task_ref == proposal.managed_task_ref
            &&& a.decision_area == Some(proposal.decision_area)
            &&& a.supersedes.is_none()
            &&& (proposal.writable_roots.contains("/"@) ==> d.write_impact == RiskBand::Critical)
            &&& (!proposal.writable_roots.contains("/"@) && proposal.writable_roots.len() > 0
                ==> d.write_impact == RiskBand::High)
            &&& (proposal.writable_roots.len() == 0 ==> d.write_impact == RiskBand::Low)
            &&& (proposal.external_side_effect ==> d.external_side_effect == RiskBand::High)
            &&& (!proposal.external_side_effect ==> d.external_side_effect == RiskBand::Low)
            &&& (any_sensitive(proposal.secret_classes) ==> d.secret_exposure
                == RiskBand::Critical)
            &&& (!any_sensitive(proposal.secret_classes) && proposal.secret_classes.len() > 0
                ==> d.secret_exposure == RiskBand::High)
            &&& (proposal.secret_classes.len() == 0 ==> d.secret_exposure == RiskBand::Low)
            &&& (proposal.irreversible ==> d.irreversibility == RiskBand::Critical)
            &&& (!proposal.irreversible ==> d.irreversibility == RiskBand::Medium)
            &&& (proposal.estimated_budget_band == AuthorizationBudgetBand::Conservative
                ==> d.budget_burn == RiskBand::Low)
            &&& (proposal.estimated_budget_band == AuthorizationBudgetBand::Standard
                ==> d.budget_burn == RiskBand::Medium)
            &&& (proposal.estimated_budget_band == AuthorizationBudgetBand::Elevated
                ==> d.budget_burn == RiskBand::High)
            &&& (proposal.preview_available ==> d.uncertainty == RiskBand::Medium)
            &&& (!proposal.preview_available ==> d.uncertainty == RiskBand::High)
            &&& band_rank(a.overall_risk_band) >= 1
            &&& a.derived_consequences.contains(RiskConsequence::NarrowExecutionAuthorization)
            &&& (proposal.external_side_effect ==> {
                &&& band_rank(a.overall_risk_band) >= 2
                &&& a.derived_consequences.contains(RiskConsequence::RequireApprovalWindow)
                &&& a.derived_consequences.contains(RiskConsequence::RequireAdditionalReview)
            })
        }),
{
    let a = action_override_spec(proposal, capability, reason, id, at);
    law_max_band_is_the_highest_dimension(a.risk_dimensions);
    law_override_consequences(a.overall_risk_band);
    if proposal.writable_roots.len() == 0 {
        assert(!proposal.writable_roots.contains("/"@));
    }
    if proposal.secret_classes.len() == 0 {
        assert(!any_sensitive(proposal.secret_classes));
    }
}

/// What each dimension of a task baseline is, read off the scope and the
/// capability: a scope that allows `/` writes Critical, no writable root Low,
/// otherwise Medium; no external side effect and no irreversibility (Low);
/// a sensitive secret class High, other classes Medium, none Low; the host's
/// budget band gives Low, Medium or High; the uncertainty is Medium.
pub proof fn law_baseline_dimensions_follow_the_scope(
    task: ManagedTaskView,
    scope: TaskScopeSnapshotView,
    capability: HostCapabilitySnapshotView,
    reason: Seq<char>,
    supersedes: Option<Seq<char>>,
    id: Seq<char>,
    at: Seq<char>,
)
    ensures
        ({
            let a = task_baseline_spec(task, scope, capability, reason, supersedes, id, at);
            let d = a.risk_dimensions;
            &&& a.subject_kind == RiskSubjectKind::TaskBaseline
            &&& a.assessment_id == id && a.assessed_at == at && a.supersedes == supersedes
            &&& a.decision_area.is_none()
            &&& (scope.allowed_roots.contains("/"@) ==> d.write_impact == RiskBand::Critical)
            &&& (!scope.allowed_roots.contains("/"@) && capability.writable_roots.len() == 0
                ==> d.write_impact == RiskBand::Low)
            &&& (!scope.allowed_roots.contains("/"@) && capability.writable_roots.len() > 0
                ==> d.write_impact == RiskBand::Medium)
            &&& d.external_side_effect == RiskBand::Low
            &&& d.irreversibility == RiskBand::Low
            &&& d.uncertainty == RiskBand::Medium
            &&& (any_sensitive(scope.secret_classes) ==> d.secret_exposure == RiskBand::High)
            &&& (!any_sensitive(scope.secret_classes) && scope.secret_classes.len() > 0
                ==> d.secret_exposure == RiskBand::Medium)
            &&& (scope.secret_classes.len() == 0 ==> d.secret_exposure == RiskBand::Low)
            &&& (capability.max_budget_band == AuthorizationBudgetBand::Conservative
                ==> d.budget_burn == RiskBand::Low)
            &&& (capability.max_budget_band == AuthorizationBudgetBand::Standard
                ==> d.budget_burn == RiskBand::Medium)
            &&& (capability.max_budget_band == AuthorizationBudgetBand::Elevated
                ==> d.budget_burn == RiskBand::High)
        }),
{
    if scope.secret_classes.len() == 0 {
        assert(!any_sensitive(scope.secret_classes));
    }
}

} // verus!
