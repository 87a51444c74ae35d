//! Execution authorization: what a run may do, derived from the host
//! capability, the task scope and the current risk assessment.
use crate::model::authorization::{
    AuthorizationBudgetBand, AuthorizedDecisionArea, AuthorizedDecisionAreaView, DecisionArea,
    DelegationBand, ExecutionAuthorization, ExecutionAuthorizationStatus,
    ExecutionAuthorizationView,
};
use crate::model::ids::{is_millis_text, is_minted_id, new_id, now_timestamp};
use crate::model::ingress::{HostCapabilitySnapshot, HostCapabilitySnapshotView};
use crate::model::risk::{RiskAssessment, RiskAssessmentView, RiskBand, RiskConsequence};
use crate::model::task::{
    IsolatedTaskRun, IsolatedTaskRunView, TaskScopeSnapshot, TaskScopeSnapshotView,
};
use crate::text::str_eq;
use vstd::prelude::*;

verus! {

/// The values of `left`, in order, that also occur in `right`.
pub open spec fn intersect_seq(left: Seq<Seq<char>>, right: Seq<Seq<char>>) -> Seq<Seq<char>>
    decreases left.len(),
{
    if left.len() == 0 {
        Seq::empty()
    } else {
        let rest = intersect_seq(left.drop_last(), right);
        if right.contains(left.last()) {
            rest.push(left.last())
        } else {
            rest
        }
    }
}

/// True when some consequence of the assessment asks the user to decide.
pub open spec fn requires_user_approval_spec(consequences: Seq<RiskConsequence>) -> bool {
    consequences.contains(RiskConsequence::RequireApprovalWindow) || consequences.contains(
        RiskConsequence::StopSilentExecution,
    )
}

/// How much the run may decide on its own under an assessment.
pub open spec fn delegation_band_for(risk: RiskAssessmentView) -> DelegationBand {
    if requires_user_approval_spec(risk.derived_consequences) || risk.overall_risk_band
        == RiskBand::Critical {
        DelegationBand::UserMediated
    } else if risk.overall_risk_band == RiskBand::High {
        DelegationBand::Guarded
    } else {
        DelegationBand::Autonomous
    }
}

/// The budget granted under an assessment.
pub open spec fn budget_band_for(
    risk: RiskAssessmentView,
    capability: HostCapabilitySnapshotView,
) -> AuthorizationBudgetBand {
    if risk.overall_risk_band == RiskBand::Critical {
        AuthorizationBudgetBand::Conservative
    } else {
        capability.max_budget_band
    }
}

/// The single task-execution area an authorization grants.
pub open spec fn task_execution_area(
    capability: HostCapabilitySnapshotView,
    scope: TaskScopeSnapshotView,
    risk: RiskAssessmentView,
) -> AuthorizedDecisionAreaView {
    AuthorizedDecisionAreaView {
        decision_area: DecisionArea::TaskExecution,
        band: delegation_band_for(risk),
        allowed_tools: capability.allowed_tools,
        readable_roots: intersect_seq(capability.readable_roots, scope.allowed_roots),
        writable_roots: intersect_seq(capability.writable_roots, scope.allowed_roots),
        allowed_secret_classes: intersect_seq(capability.secret_classes, scope.secret_classes),
        not_before: None,
        not_after: None,
        budget_band: budget_band_for(risk, capability),
        spawn_agent_allowed: capability.supports_spawn_agents,
        requires_user_approval: requires_user_approval_spec(risk.derived_consequences),
    }
}

/// The authorization issued for a run, given its identifier and issue time.
pub open spec fn authorization_spec(
    managed_task_ref: Seq<char>,
    run: IsolatedTaskRunView,
    capability: HostCapabilitySnapshotView,
    scope: TaskScopeSnapshotView,
    risk: RiskAssessmentView,
    reason: Seq<char>,
    supersedes: Option<Seq<char>>,
    narrowed: bool,
    authorization_id: Seq<char>,
    issued_at: Seq<char>,
) -> ExecutionAuthorizationView {
    ExecutionAuthorizationView {
        authorization_id,
        managed_task_ref,
        run_ref: run.run_ref,
        stage_run_ref: None,
        capability_snapshot_ref: capability.capability_snapshot_ref,
        task_scope_ref: scope.scope_id,
        granted_areas: seq![task_execution_area(capability, scope, risk)],
        status: if narrowed {
            ExecutionAuthorizationStatus::Narrowed
        } else {
            ExecutionAuthorizationStatus::Active
        },
        issued_reason: reason,
        issued_at,
        expires_at: None,
        supersedes,
    }
}

/// The values of `left`, in order, that also occur in `right`.
pub fn intersect(left: &Vec<String>, right: &Vec<String>) -> (r: Vec<String>)
    ensures
        r.deep_view() == intersect_seq(left.deep_view(), right.deep_view()),
{
    let ghost lv = left.deep_view();
    let ghost rv = right.deep_view();
    let mut r: Vec<String> = Vec::new();
    let mut i: usize = 0;
    while i < left.len()
        invariant
            lv == left.deep_view(),
            rv == right.deep_view(),
            i <= left@.len(),
            r.deep_view() == intersect_seq(lv.take(i as int), rv),
        decreases left.len() - i,
    {
        let value = &left[i];
        let found = crate::risk::contains_text(right, value.as_str());
        proof {
            assert(lv.take(i + 1).drop_last() =~= lv.take(i as int));
            assert(lv.take(i + 1).last() == lv[i as int]);
        }
        if found {
            r.push(value.clone());
            assert(r.deep_view() =~= intersect_seq(lv.take(i as int), rv).push(lv[i as int]));
        }
        i += 1;
    }
    assert(lv.take(left@.len() as int) =~= lv);
    r
}

fn requires_user_approval(consequences: &Vec<RiskConsequence>) -> (r: bool)
    ensures
        r == requires_user_approval_spec(consequences.deep_view()),
{
    let ghost cv = consequences.deep_view();
    let mut i: usize = 0;
    while i < consequences.len()
        invariant
            cv == consequences.deep_view(),
            i <= consequences@.len(),
            forall|k: int|
                0 <= k < i ==> #[trigger] cv[k] != RiskConsequence::RequireApprovalWindow && cv[k]
                    != RiskConsequence::StopSilentExecution,
        decreases consequences.len() - i,
    {
        match consequences[i] {
            RiskConsequence::RequireApprovalWindow | RiskConsequence::StopSilentExecution => {
                assert(cv[i as int] == consequences@[i as int]);
                return true;
            },
            _ => {},
        }
        i += 1;
    }
    false
}

/// Issues an execution authorization with the given identifier and time.
pub fn build_execution_authorization(
    managed_task_ref: String,
    run: &IsolatedTaskRun,
    capability: &HostCapabilitySnapshot,
    scope: &TaskScopeSnapshot,
    risk: &RiskAssessment,
    reason: String,
    supersedes: Option<String>,
    narrowed: bool,
    authorization_id: String,
    issued_at: String,
) -> (r: ExecutionAuthorization)
    ensures
        r@ == authorization_spec(
            managed_task_ref@,
            run@,
            capability@,
            scope@,
            risk@,
            reason@,
            supersedes.deep_view(),
            narrowed,
            authorization_id@,
            issued_at@,
        ),
{
    let requires_user_approval = requires_user_approval(&risk.derived_consequences);
    let band = if requires_user_approval || risk.overall_risk_band == RiskBand::Critical {
        DelegationBand::UserMediated
    } else if risk.overall_risk_band == RiskBand::High {
        DelegationBand::Guarded
    } else {
        DelegationBand::Autonomous
    };
    let budget_band = if risk.overall_risk_band == RiskBand::Critical {
        AuthorizationBudgetBand::Conservative
    } else {
        capability.max_budget_band
    };
    let area = AuthorizedDecisionArea {
        decision_area: DecisionArea::TaskExecution,
        band,
        allowed_tools: capability.allowed_tools.clone(),
        readable_roots: intersect(&capability.readable_roots, &scope.allowed_roots),
        writable_roots: intersect(&capability.writable_roots, &scope.allowed_roots),
        allowed_secret_classes: intersect(&capability.secret_classes, &scope.secret_classes),
        not_before: None,
        not_after: None,
        budget_band,
        spawn_agent_allowed: capability.supports_spawn_agents,
        requires_user_approval,
    };
    proof {
        assert(area.allowed_tools.deep_view() =~= capability.allowed_tools.deep_view());
    }
    let mut granted_areas: Vec<AuthorizedDecisionArea> = Vec::new();
    granted_areas.push(area);
    assert(granted_areas.deep_view() =~= seq![task_execution_area(capability@, scope@, risk@)]);
    ExecutionAuthorization {
        authorization_id,
        managed_task_ref,
        run_ref: run.run_ref.clone(),
        stage_run_ref: None,
        capability_snapshot_ref: capability.capability_snapshot_ref.clone(),
        task_scope_ref: scope.scope_id.clone(),
        granted_areas,
        status: if narrowed {
            ExecutionAuthorizationStatus::Narrowed
        } else {
            ExecutionAuthorizationStatus::Active
        },
        issued_reason: reason,
        issued_at,
        expires_at: None,
        supersedes,
    }
}

/// Issues an execution authorization with a fresh `auth-` identifier, now.
pub fn issue_execution_authorization(
    managed_task_ref: String,
    run: &IsolatedTaskRun,
    capability: &HostCapabilitySnapshot,
    scope: &TaskScopeSnapshot,
    risk: &RiskAssessment,
    reason: String,
    supersedes: Option<String>,
    narrowed: bool,
) -> (r: ExecutionAuthorization)
    ensures
        r@ == authorization_spec(
            managed_task_ref@,
            run@,
            capability@,
            scope@,
            risk@,
            reason@,
            supersedes.deep_view(),
            narrowed,
            r@.authorization_id,
            r@.issued_at,
        ),
        is_minted_id(r@.authorization_id, "auth"@),
        is_millis_text(r@.issued_at),
{
    let authorization_id = new_id("auth");
    let issued_at = now_timestamp();
    build_execution_authorization(
        managed_task_ref,
        run,
        capability,
        scope,
        risk,
        reason,
        supersedes,
        narrowed,
        authorization_id,
        issued_at,
    )
}

/// A value is kept by `intersect_seq` exactly when it occurs in both inputs,
/// and the result holds no more values than the left input.
pub proof fn law_intersect_is_common_part(left: Seq<Seq<char>>, right: Seq<Seq<char>>)
    ensures
        forall|v: Seq<char>|
            #[trigger] intersect_seq(left, right).contains(v) <==> (left.contains(v)
                && right.contains(v)),
        intersect_seq(left, right).len() <= left.len(),
    decreases left.len(),
{
    if left.len() > 0 {
        law_intersect_is_common_part(left.drop_last(), right);
        let rest = intersect_seq(left.drop_last(), right);
        assert forall|v: Seq<char>| #[trigger]
            intersect_seq(left, right).contains(v) <==> (left.contains(v) && right.contains(v)) by {
            if left.contains(v) && right.contains(v) {
                let k = choose|k: int| 0 <= k < left.len() && left[k] == v;
                if k < left.len() - 1 {
                    assert(left.drop_last()[k] == v);
                    assert(rest.contains(v));
                    if right.contains(left.last()) {
                        let j = choose|j: int| 0 <= j < rest.len() && rest[j] == v;
                        assert(rest.push(left.last())[j] == v);
                    }
                } else {
                    assert(intersect_seq(left, right)[intersect_seq(left, right).len() - 1] == v);
                }
            }
            if intersect_seq(left, right).contains(v) {
                if right.contains(left.last()) && v == left.last() {
                    assert(left[left.len() - 1] == v);
                } else {
                    let j = choose|j: int|
                        0 <= j < intersect_seq(left, right).len() && intersect_seq(left, right)[j]
                            == v;
                    if right.contains(left.last()) && j == rest.len() {
                    } else {
                        assert(rest[j] == v);
                        assert(rest.contains(v));
                        let k = choose|k: int| 0 <= k < left.drop_last().len() && left.drop_last()[k] == v;
                        assert(left[k] == v);
                    }
                }
            }
        }
    }
}

/// An authorization never grants a root outside the scope's allowed roots or
/// the host's own roots, nor a secret class outside both; it is user-mediated
/// whenever the assessment is critical or asks for approval, it is narrowed
/// exactly when issued as narrowed, and it is bound to the given scope and run.
pub proof fn law_authorization_stays_within_scope_and_capability(
    managed_task_ref: Seq<char>,
    run: IsolatedTaskRunView,
    capability: HostCapabilitySnapshotView,
    scope: TaskScopeSnapshotView,
    risk: RiskAssessmentView,
    reason: Seq<char>,
    supersedes: Option<Seq<char>>,
    narrowed: bool,
    authorization_id: Seq<char>,
    issued_at: Seq<char>,
)
    ensures
        ({
            let auth = authorization_spec(
                managed_task_ref,
                run,
                capability,
                scope,
                risk,
                reason,
                supersedes,
                narrowed,
                authorization_id,
                issued_at,
            );
            let area = auth.granted_areas[0];
            &&& auth.granted_areas.len() == 1
            &&& auth.task_scope_ref == scope.scope_id
            &&& auth.run_ref == run.run_ref
            &&& forall|root: Seq<char>|
                #[trigger] area.writable_roots.contains(root) ==> scope.allowed_roots.contains(root)
                    && capability.writable_roots.contains(root)
            &&& forall|root: Seq<char>|
                #[trigger] area.readable_roots.contains(root) ==> scope.allowed_roots.contains(root)
                    && capability.readable_roots.contains(root)
            &&& forall|class: Seq<char>|
                #[trigger] area.allowed_secret_classes.contains(class) ==> scope.secret_classes.contains(
                    class,
                ) && capability.secret_classes.contains(class)
            &&& (risk.overall_risk_band == RiskBand::Critical || risk.derived_consequences.contains(
                RiskConsequence::RequireApprovalWindow,
            )) ==> area.band == DelegationBand::UserMediated
            &&& risk.overall_risk_band == RiskBand::Critical ==> area.budget_band
                == AuthorizationBudgetBand::Conservative
            &&& (auth.status == ExecutionAuthorizationStatus::Narrowed <==> narrowed)
        }),
{
    law_intersect_is_common_part(capability.writable_roots, scope.allowed_roots);
    law_intersect_is_common_part(capability.readable_roots, scope.allowed_roots);
    law_intersect_is_common_part(capability.secret_classes, scope.secret_classes);
}

/// How much an authorization delegates follows the assessment it was issued
/// under: when the assessment is Critical or asks for an approval window or a
/// stop of silent execution, every decision goes through the user; otherwise
/// a High assessment gives a guarded run, and only a Low or Medium one lets
/// the run decide on its own. The area asks for user approval exactly when the
/// assessment's consequences do, the budget drops to Conservative under a
/// Critical assessment and is the host's otherwise, and the tools and the
/// right to spawn agents are the host's.
pub proof fn law_delegation_follows_the_risk(
    managed_task_ref: Seq<char>,
    run: IsolatedTaskRunView,
    capability: HostCapabilitySnapshotView,
    scope: TaskScopeSnapshotView,
    risk: RiskAssessmentView,
    reason: Seq<char>,
    supersedes: Option<Seq<char>>,
    narrowed: bool,
    authorization_id: Seq<char>,
    issued_at: Seq<char>,
)
    ensures
        ({
            let auth = authorization_spec(
                managed_task_ref,
                run,
                capability,
                scope,
                risk,
                reason,
                supersedes,
                narrowed,
                authorization_id,
                issued_at,
            );
            let area = auth.granted_areas[0];
            let asks_user = risk.derived_consequences.contains(
                RiskConsequence::RequireApprovalWindow,
            ) || risk.derived_consequences.contains(RiskConsequence::StopSilentExecution);
            &&& auth.granted_areas.len() == 1
            &&& area.decision_area == DecisionArea::TaskExecution
            &&& (area.band == DelegationBand::UserMediated <==> (asks_user
                || risk.overall_risk_band == RiskBand::Critical))
            &&& (!asks_user && risk.overall_risk_band == RiskBand::High ==> area.band
                == DelegationBand::Guarded)
            &&& (!asks_user && (risk.overall_risk_band == RiskBand::Low || risk.overall_risk_band
                == RiskBand::Medium) ==> area.band == DelegationBand::Autonomous)
            &&& (area.band == DelegationBand::Autonomous ==> (risk.overall_risk_band
                == RiskBand::Low || risk.overall_risk_band == RiskBand::Medium))
            &&& (area.requires_user_approval <==> asks_user)
            &&& (risk.overall_risk_band == RiskBand::Critical ==> area.budget_band
                == AuthorizationBudgetBand::Conservative)
            &&& (risk.overall_risk_band != RiskBand::Critical ==> area.budget_band
                == capability.max_budget_band)
            &&& area.allowed_tools == capability.allowed_tools
            &&& area.spawn_agent_allowed == capability.supports_spawn_agents
            &&& area.not_before.is_none() && area.not_after.is_none()
            &&& auth.authorization_id == authorization_id
            &&& auth.managed_task_ref == managed_task_ref
            &&& auth.capability_snapshot_ref == capability.capability_snapshot_ref
            &&& auth.issued_reason == reason && auth.issued_at == issued_at
            &&& auth.supersedes == supersedes
            &&& auth.stage_run_ref.is_none() && auth.expires_at.is_none()
        }),
{
}

} // verus!
