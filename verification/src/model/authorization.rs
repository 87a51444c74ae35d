use vstd::prelude::*;
use crate::model::ids::ExecutionAuthorizationId;
use crate::model::ids::ExecutionAuthorizationRef;
use crate::model::ids::HostCapabilitySnapshotRef;
use crate::model::ids::IsolatedTaskRunRef;
use crate::model::ids::ManagedTaskRef;
use crate::model::ids::StageRunRef;
use crate::model::ids::TaskScopeId;
use crate::model::ids::Timestamp;

verus! {

#[derive(Debug, PartialEq, Eq)]
pub struct ExecutionAuthorization {
    pub authorization_id: ExecutionAuthorizationId,
    pub managed_task_ref: ManagedTaskRef,
    pub run_ref: IsolatedTaskRunRef,
    pub stage_run_ref: Option<StageRunRef>,
    pub capability_snapshot_ref: HostCapabilitySnapshotRef,
    pub task_scope_ref: TaskScopeId,
    pub granted_areas: Vec<AuthorizedDecisionArea>,
    pub status: ExecutionAuthorizationStatus,
    pub issued_reason: String,
    pub issued_at: Timestamp,
    pub expires_at: Option<Timestamp>,
    pub supersedes: Option<ExecutionAuthorizationRef>,
}

pub struct ExecutionAuthorizationView {
    pub authorization_id: Seq<char>,
    pub managed_task_ref: Seq<char>,
    pub run_ref: Seq<char>,
    pub stage_run_ref: Option<Seq<char>>,
    pub capability_snapshot_ref: Seq<char>,
    pub task_scope_ref: Seq<char>,
    pub granted_areas: Seq<AuthorizedDecisionAreaView>,
    pub status: ExecutionAuthorizationStatus,
    pub issued_reason: Seq<char>,
    pub issued_at: Seq<char>,
    pub expires_at: Option<Seq<char>>,
    pub supersedes: Option<Seq<char>>,
}

impl View for ExecutionAuthorization {
    type V = ExecutionAuthorizationView;

    open spec fn view(&self) -> ExecutionAuthorizationView {
        ExecutionAuthorizationView {
            authorization_id: self.authorization_id@,
            managed_task_ref: self.managed_task_ref@,
            run_ref: self.run_ref@,
            stage_run_ref: self.stage_run_ref.deep_view(),
            capability_snapshot_ref: self.capability_snapshot_ref@,
            task_scope_ref: self.task_scope_ref@,
            granted_areas: self.granted_areas.deep_view(),
            status: self.status,
            issued_reason: self.issued_reason@,
            issued_at: self.issued_at@,
            expires_at: self.expires_at.deep_view(),
            supersedes: self.supersedes.deep_view(),
        }
    }
}

impl DeepView for ExecutionAuthorization {
    type V = ExecutionAuthorizationView;

    open spec fn deep_view(&self) -> ExecutionAuthorizationView {
        self.view()
    }
}

#[derive(Debug, PartialEq, Eq)]
pub struct AuthorizedDecisionArea {
    pub decision_area: DecisionArea,
    pub band: DelegationBand,
    pub allowed_tools: Vec<String>,
    pub readable_roots: Vec<String>,
    pub writable_roots: Vec<String>,
    pub allowed_secret_classes: Vec<String>,
    pub not_before: Option<Timestamp>,
    pub not_after: Option<Timestamp>,
    pub budget_band: AuthorizationBudgetBand,
    pub spawn_agent_allowed: bool,
    pub requires_user_approval: bool,
}

pub struct AuthorizedDecisionAreaView {
    pub decision_area: DecisionArea,
    pub band: DelegationBand,
    pub allowed_tools: Seq<Seq<char>>,
    pub readable_roots: Seq<Seq<char>>,
    pub writable_roots: Seq<Seq<char>>,
    pub allowed_secret_classes: Seq<Seq<char>>,
    pub not_before: Option<Seq<char>>,
    pub not_after: Option<Seq<char>>,
    pub budget_band: AuthorizationBudgetBand,
    pub spawn_agent_allowed: bool,
    pub requires_user_approval: bool,
}

impl View for AuthorizedDecisionArea {
    type V = AuthorizedDecisionAreaView;

    open spec fn view(&self) -> AuthorizedDecisionAreaView {
        AuthorizedDecisionAreaView {
            decision_area: self.decision_area,
            band: self.band,
            allowed_tools: self.allowed_tools.deep_view(),
            readable_roots: self.readable_roots.deep_view(),
            writable_roots: self.writable_roots.deep_view(),
            allowed_secret_classes: self.allowed_secret_classes.deep_view(),
            not_before: self.not_before.deep_view(),
            not_after: self.not_after.deep_view(),
            budget_band: self.budget_band,
            spawn_agent_allowed: self.spawn_agent_allowed,
            requires_user_approval: self.requires_user_approval,
        }
    }
}

impl DeepView for AuthorizedDecisionArea {
    type V = AuthorizedDecisionAreaView;

    open spec fn deep_view(&self) -> AuthorizedDecisionAreaView {
        self.view()
    }
}

#[derive(Clone, Copy, Debug, PartialEq, Eq, Structural)]
pub enum DecisionArea {
    TaskExecution,
    ToolExecution,
    TaskChangeConfirmation,
    CapabilityDriftResolution,
    ReviewResolution,
}

impl View for DecisionArea {
    type V = DecisionArea;

    open spec fn view(&self) -> DecisionArea {
        *self
    }
}

impl DeepView for DecisionArea {
    type V = DecisionArea;

    open spec fn deep_view(&self) -> DecisionArea {
        *self
    }
}

#[derive(Clone, Copy, Debug, PartialEq, Eq, Structural)]
pub enum DelegationBand {
    Autonomous,
    Guarded,
    UserMediated,
}

impl View for DelegationBand {
    type V = DelegationBand;

    open spec fn view(&self) -> DelegationBand {
        *self
    }
}

impl DeepView for DelegationBand {
    type V = DelegationBand;

    open spec fn deep_view(&self) -> DelegationBand {
        *self
    }
}

#[derive(Clone, Copy, Debug, PartialEq, Eq, Structural, PartialOrd, Ord)]
pub enum AuthorizationBudgetBand {
    Conservative,
    Standard,
    Elevated,
}

impl View for AuthorizationBudgetBand {
    type V = AuthorizationBudgetBand;

    open spec fn view(&self) -> AuthorizationBudgetBand {
        *self
    }
}

impl DeepView for AuthorizationBudgetBand {
    type V = AuthorizationBudgetBand;

    open spec fn deep_view(&self) -> AuthorizationBudgetBand {
        *self
    }
}

#[derive(Clone, Copy, Debug, PartialEq, Eq, Structural)]
pub enum ExecutionAuthorizationStatus {
    Draft,
    Active,
    Suspended,
    Narrowed,
    Revoked,
    Expired,
    Superseded,
}

impl View for ExecutionAuthorizationStatus {
    type V = ExecutionAuthorizationStatus;

    open spec fn view(&self) -> ExecutionAuthorizationStatus {
        *self
    }
}

impl DeepView for ExecutionAuthorizationStatus {
    type V = ExecutionAuthorizationStatus;

    open spec fn deep_view(&self) -> ExecutionAuthorizationStatus {
        *self
    }
}

} // verus!
