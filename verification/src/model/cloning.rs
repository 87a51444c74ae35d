//! Copies of the model's values that keep their abstract form.
use crate::model::authorization::{AuthorizedDecisionArea, ExecutionAuthorization};
use crate::model::bridge::{BridgeAuthEnvelope, BridgeBootstrapAck, BridgeBootstrapMaterial, BridgeBootstrapRequest, BridgeBootstrapTicket, BridgeHealthResponse, BridgeSessionCredential, CurrentControlSurfaceProjection, HostExecutionCommand};
use crate::model::ingress::{ControlAction, ControlActionEnvelope, ControlActionPayload, CurrentTurnEnvelope, HostCapabilitySnapshot, HostSubagentLifecycleEnvelope, HostSubagentLifecycleEvent, IngressMeta, InteractionLaneDecisionPayload, LegacySemanticDecisionEnvelope, ManagedTaskClassDecisionPayload, RequirementItemDraft, SemanticDecisionBatchEnvelope, SemanticDecisionEnvelope, SemanticDecisionPayload, SubagentEndedPayload, SubagentSpawnedPayload, TaskActivationReasonDecisionPayload, TaskChangeDecisionPayload, WorkHorizonDecisionPayload};
use crate::model::outbound::{ApprovalRequestPayload, BoundaryCardPayload, KernelOutboundPayload, OutboundDelivery, ProofOfWorkExcerpt, RenderHint, ResultSummaryPayload, StartCardPayload, StatusNoticePayload, SuppressHostMessagePayload, ToolDecisionPayload};
use crate::model::risk::{EvidenceRef, ProposedAction, RiskAssessment, RiskDimensions};
use crate::model::task::{AgentBinding, AgentBindingMember, ArtifactManifestItem, IsolatedTaskRun, ManagedTask, NextActionItem, PendingBoundaryConfirmation, PendingDecisionWindow, PhasePlan, PhasePlanEntry, PhasePlanMetadata, PhasePlanMutationPolicy, ProofEvidenceRef, ProofOfWorkBundle, RequirementItem, ResultContract, ReviewResult, ReviewSummary, ScopeAssumption, ScopeConstraint, SpecBundle, TaskScopeSnapshot};
use vstd::prelude::*;

verus! {

impl Clone for ExecutionAuthorization {
    fn clone(&self) -> (r: Self)
        ensures
            r@ == self@,
    {
        let r = ExecutionAuthorization {
            authorization_id: self.authorization_id.clone(),
            managed_task_ref: self.managed_task_ref.clone(),
            run_ref: self.run_ref.clone(),
            stage_run_ref: (match &self.stage_run_ref { Some(x) => Some(x.clone()), None => None }),
            capability_snapshot_ref: self.capability_snapshot_ref.clone(),
            task_scope_ref: self.task_scope_ref.clone(),
            granted_areas: self.granted_areas.clone(),
            status: self.status,
            issued_reason: self.issued_reason.clone(),
            issued_at: self.issued_at.clone(),
            expires_at: (match &self.expires_at { Some(x) => Some(x.clone()), None => None }),
            supersedes: (match &self.supersedes { Some(x) => Some(x.clone()), None => None }),
        };
        assert(r.granted_areas.deep_view() =~= self.granted_areas.deep_view());
        r
    }
}

impl Clone for AuthorizedDecisionArea {
    fn clone(&self) -> (r: Self)
        ensures
            r@ == self@,
    {
        let r = AuthorizedDecisionArea {
            decision_area: self.decision_area,
            band: self.band,
            allowed_tools: self.allowed_tools.clone(),
            readable_roots: self.readable_roots.clone(),
            writable_roots: self.writable_roots.clone(),
            allowed_secret_classes: self.allowed_secret_classes.clone(),
            not_before: (match &self.not_before { Some(x) => Some(x.clone()), None => None }),
            not_after: (match &self.not_after { Some(x) => Some(x.clone()), None => None }),
            budget_band: self.budget_band,
            spawn_agent_allowed: self.spawn_agent_allowed,
            requires_user_approval: self.requires_user_approval,
        };
        assert(r.allowed_tools.deep_view() =~= self.allowed_tools.deep_view());
        assert(r.readable_roots.deep_view() =~= self.readable_roots.deep_view());
        assert(r.writable_roots.deep_view() =~= self.writable_roots.deep_view());
        assert(r.allowed_secret_classes.deep_view() =~= self.allowed_secret_classes.deep_view());
        r
    }
}

impl Clone for RiskAssessment {
    fn clone(&self) -> (r: Self)
        ensures
            r@ == self@,
    {
        let r = RiskAssessment {
            assessment_id: self.assessment_id.clone(),
            managed_task_ref: self.managed_task_ref.clone(),
            subject_kind: self.subject_kind,
            capability_snapshot_ref: (match &self.capability_snapshot_ref { Some(x) => Some(x.clone()), None => None }),
            stage_run_ref: (match &self.stage_run_ref { Some(x) => Some(x.clone()), None => None }),
            decision_area: self.decision_area,
            overall_risk_band: self.overall_risk_band,
            risk_dimensions: self.risk_dimensions.clone(),
            trigger_reason: self.trigger_reason.clone(),
            evidence_refs: self.evidence_refs.clone(),
            derived_consequences: self.derived_consequences.clone(),
            assessed_at: self.assessed_at.clone(),
            supersedes: (match &self.supersedes { Some(x) => Some(x.clone()), None => None }),
        };
        assert(r.evidence_refs.deep_view() =~= self.evidence_refs.deep_view());
        assert(r.derived_consequences.deep_view() =~= self.derived_consequences.deep_view());
        r
    }
}

impl Clone for RiskDimensions {
    fn clone(&self) -> (r: Self)
        ensures
            r@ == self@,
    {
        let r = RiskDimensions {
            write_impact: self.write_impact,
            external_side_effect: self.external_side_effect,
            secret_exposure: self.secret_exposure,
            irreversibility: self.irreversibility,
            budget_burn: self.budget_burn,
            uncertainty: self.uncertainty,
        };
        r
    }
}

impl Clone for EvidenceRef {
    fn clone(&self) -> (r: Self)
        ensures
            r@ == self@,
    {
        let r = EvidenceRef {
            kind: self.kind.clone(),
            reference: self.reference.clone(),
        };
        r
    }
}

impl Clone for ProposedAction {
    fn clone(&self) -> (r: Self)
        ensures
            r@ == self@,
    {
        let r = ProposedAction {
            proposal_id: self.proposal_id.clone(),
            managed_task_ref: self.managed_task_ref.clone(),
            stage_run_ref: (match &self.stage_run_ref { Some(x) => Some(x.clone()), None => None }),
            decision_area: self.decision_area,
            tool_name: (match &self.tool_name { Some(x) => Some(x.clone()), None => None }),
            readable_roots: self.readable_roots.clone(),
            writable_roots: self.writable_roots.clone(),
            secret_classes: self.secret_classes.clone(),
            external_side_effect: self.external_side_effect,
            irreversible: self.irreversible,
            estimated_budget_band: self.estimated_budget_band,
            preview_available: self.preview_available,
            reason: self.reason.clone(),
        };
        assert(r.readable_roots.deep_view() =~= self.readable_roots.deep_view());
        assert(r.writable_roots.deep_view() =~= self.writable_roots.deep_view());
        assert(r.secret_classes.deep_view() =~= self.secret_classes.deep_view());
        r
    }
}

impl Clone for IngressMeta {
    fn clone(&self) -> (r: Self)
        ensures
            r@ == self@,
    {
        let r = IngressMeta {
            ingress_id: self.ingress_id.clone(),
            received_at: self.received_at.clone(),
            causation_id: (match &self.causation_id { Some(x) => Some(x.clone()), None => None }),
            correlation_id: self.correlation_id.clone(),
            dedupe_window: self.dedupe_window.clone(),
        };
        r
    }
}

impl Clone for CurrentTurnEnvelope {
    fn clone(&self) -> (r: Self)
        ensures
            r@ == self@,
    {
        let r = CurrentTurnEnvelope {
            meta: self.meta.clone(),
            host_session_id: self.host_session_id.clone(),
            host_message_ref: (match &self.host_message_ref { Some(x) => Some(x.clone()), None => None }),
            text: self.text.clone(),
            workspace_ref: (match &self.workspace_ref { Some(x) => Some(x.clone()), None => None }),
            repo_ref: (match &self.repo_ref { Some(x) => Some(x.clone()), None => None }),
        };
        r
    }
}

impl Clone for HostCapabilitySnapshot {
    fn clone(&self) -> (r: Self)
        ensures
            r@ == self@,
    {
        let r = HostCapabilitySnapshot {
            capability_snapshot_ref: self.capability_snapshot_ref.clone(),
            host_session_id: self.host_session_id.clone(),
            allowed_tools: self.allowed_tools.clone(),
            readable_roots: self.readable_roots.clone(),
            writable_roots: self.writable_roots.clone(),
            secret_classes: self.secret_classes.clone(),
            max_budget_band: self.max_budget_band,
            available_agent_ids: self.available_agent_ids.clone(),
            supports_spawn_agents: self.supports_spawn_agents,
            supports_pause: self.supports_pause,
            supports_resume: self.supports_resume,
            supports_interrupt: self.supports_interrupt,
            recorded_at: self.recorded_at.clone(),
        };
        assert(r.allowed_tools.deep_view() =~= self.allowed_tools.deep_view());
        assert(r.readable_roots.deep_view() =~= self.readable_roots.deep_view());
        assert(r.writable_roots.deep_view() =~= self.writable_roots.deep_view());
        assert(r.secret_classes.deep_view() =~= self.secret_classes.deep_view());
        assert(r.available_agent_ids.deep_view() =~= self.available_agent_ids.deep_view());
        r
    }
}

impl Clone for RequirementItemDraft {
    fn clone(&self) -> (r: Self)
        ensures
            r@ == self@,
    {
        let r = RequirementItemDraft {
            text: self.text.clone(),
            origin: self.origin,
        };
        r
    }
}

impl Clone for InteractionLaneDecisionPayload {
    fn clone(&self) -> (r: Self)
        ensures
            r@ == self@,
    {
        let r = InteractionLaneDecisionPayload {
            interaction_lane: self.interaction_lane,
            managed_task_ref: (match &self.managed_task_ref { Some(x) => Some(x.clone()), None => None }),
            title: (match &self.title { Some(x) => Some(x.clone()), None => None }),
            summary: (match &self.summary { Some(x) => Some(x.clone()), None => None }),
            expected_outcome: (match &self.expected_outcome { Some(x) => Some(x.clone()), None => None }),
            requirement_items: self.requirement_items.clone(),
            workspace_ref: (match &self.workspace_ref { Some(x) => Some(x.clone()), None => None }),
            repo_ref: (match &self.repo_ref { Some(x) => Some(x.clone()), None => None }),
            allowed_roots: self.allowed_roots.clone(),
            secret_classes: self.secret_classes.clone(),
        };
        assert(r.requirement_items.deep_view() =~= self.requirement_items.deep_view());
        assert(r.allowed_roots.deep_view() =~= self.allowed_roots.deep_view());
        assert(r.secret_classes.deep_view() =~= self.secret_classes.deep_view());
        r
    }
}

impl Clone for TaskActivationReasonDecisionPayload {
    fn clone(&self) -> (r: Self)
        ensures
            r@ == self@,
    {
        let r = TaskActivationReasonDecisionPayload {
            task_activation_reason: self.task_activation_reason,
        };
        r
    }
}

impl Clone for ManagedTaskClassDecisionPayload {
    fn clone(&self) -> (r: Self)
        ensures
            r@ == self@,
    {
        let r = ManagedTaskClassDecisionPayload {
            managed_task_class: self.managed_task_class,
        };
        r
    }
}

impl Clone for WorkHorizonDecisionPayload {
    fn clone(&self) -> (r: Self)
        ensures
            r@ == self@,
    {
        let r = WorkHorizonDecisionPayload {
            work_horizon: self.work_horizon,
        };
        r
    }
}

impl Clone for TaskChangeDecisionPayload {
    fn clone(&self) -> (r: Self)
        ensures
            r@ == self@,
    {
        let r = TaskChangeDecisionPayload {
            classification: self.classification,
            execution_surface: self.execution_surface,
            boundary_recommendation: self.boundary_recommendation,
        };
        r
    }
}

impl Clone for SemanticDecisionPayload {
    fn clone(&self) -> (r: Self)
        ensures
            r@ == self@,
    {
        match self {
            SemanticDecisionPayload::InteractionLane(payload) => SemanticDecisionPayload::InteractionLane(payload.clone()),
            SemanticDecisionPayload::TaskActivationReason(payload) => SemanticDecisionPayload::TaskActivationReason(payload.clone()),
            SemanticDecisionPayload::ManagedTaskClass(payload) => SemanticDecisionPayload::ManagedTaskClass(payload.clone()),
            SemanticDecisionPayload::WorkHorizon(payload) => SemanticDecisionPayload::WorkHorizon(payload.clone()),
            SemanticDecisionPayload::TaskChange(payload) => SemanticDecisionPayload::TaskChange(payload.clone()),
        }
    }
}

impl Clone for SemanticDecisionEnvelope {
    fn clone(&self) -> (r: Self)
        ensures
            r@ == self@,
    {
        let r = SemanticDecisionEnvelope {
            decision_ref: self.decision_ref.clone(),
            host_session_id: self.host_session_id.clone(),
            host_message_ref: (match &self.host_message_ref { Some(x) => Some(x.clone()), None => None }),
            managed_task_ref: (match &self.managed_task_ref { Some(x) => Some(x.clone()), None => None }),
            decision_kind: self.decision_kind,
            decision_source: self.decision_source,
            rationale: self.rationale.clone(),
            confidence: self.confidence,
            source_model_ref: self.source_model_ref.clone(),
            issued_at: self.issued_at.clone(),
            decision_payload: self.decision_payload.clone(),
        };
        r
    }
}

impl Clone for LegacySemanticDecisionEnvelope {
    fn clone(&self) -> (r: Self)
        ensures
            r@ == self@,
    {
        let r = LegacySemanticDecisionEnvelope {
            decision_id: self.decision_id.clone(),
            host_session_id: self.host_session_id.clone(),
            host_message_ref: (match &self.host_message_ref { Some(x) => Some(x.clone()), None => None }),
            managed_task_ref: (match &self.managed_task_ref { Some(x) => Some(x.clone()), None => None }),
            interaction_lane: self.interaction_lane,
            managed_task_class: self.managed_task_class,
            work_horizon: self.work_horizon,
            task_activation_reason: self.task_activation_reason,
            task_change_classification: self.task_change_classification,
            task_change_execution_surface: self.task_change_execution_surface,
            task_change_boundary_recommendation: self.task_change_boundary_recommendation,
            title: (match &self.title { Some(x) => Some(x.clone()), None => None }),
            summary: (match &self.summary { Some(x) => Some(x.clone()), None => None }),
            expected_outcome: (match &self.expected_outcome { Some(x) => Some(x.clone()), None => None }),
            requirement_items: self.requirement_items.clone(),
            workspace_ref: (match &self.workspace_ref { Some(x) => Some(x.clone()), None => None }),
            repo_ref: (match &self.repo_ref { Some(x) => Some(x.clone()), None => None }),
            allowed_roots: self.allowed_roots.clone(),
            secret_classes: self.secret_classes.clone(),
            confidence: self.confidence,
            created_at: self.created_at.clone(),
        };
        assert(r.requirement_items.deep_view() =~= self.requirement_items.deep_view());
        assert(r.allowed_roots.deep_view() =~= self.allowed_roots.deep_view());
        assert(r.secret_classes.deep_view() =~= self.secret_classes.deep_view());
        r
    }
}

impl Clone for ControlActionPayload {
    fn clone(&self) -> (r: Self)
        ensures
            r@ == self@,
    {
        let r = ControlActionPayload {
            title: (match &self.title { Some(x) => Some(x.clone()), None => None }),
            summary: (match &self.summary { Some(x) => Some(x.clone()), None => None }),
            expected_outcome: (match &self.expected_outcome { Some(x) => Some(x.clone()), None => None }),
            requirement_items: self.requirement_items.clone(),
            allowed_roots: self.allowed_roots.clone(),
            secret_classes: self.secret_classes.clone(),
            workspace_ref: (match &self.workspace_ref { Some(x) => Some(x.clone()), None => None }),
            repo_ref: (match &self.repo_ref { Some(x) => Some(x.clone()), None => None }),
            rationale: (match &self.rationale { Some(x) => Some(x.clone()), None => None }),
        };
        assert(r.requirement_items.deep_view() =~= self.requirement_items.deep_view());
        assert(r.allowed_roots.deep_view() =~= self.allowed_roots.deep_view());
        assert(r.secret_classes.deep_view() =~= self.secret_classes.deep_view());
        r
    }
}

impl Clone for ControlAction {
    fn clone(&self) -> (r: Self)
        ensures
            r@ == self@,
    {
        let r = ControlAction {
            action_id: self.action_id.clone(),
            managed_task_ref: (match &self.managed_task_ref { Some(x) => Some(x.clone()), None => None }),
            kind: self.kind,
            actor: self.actor,
            payload: self.payload.clone(),
            source_decision_ref: (match &self.source_decision_ref { Some(x) => Some(x.clone()), None => None }),
            decision_token: (match &self.decision_token { Some(x) => Some(x.clone()), None => None }),
        };
        r
    }
}

impl Clone for ControlActionEnvelope {
    fn clone(&self) -> (r: Self)
        ensures
            r@ == self@,
    {
        let r = ControlActionEnvelope {
            decision_ref: self.decision_ref.clone(),
            decision_source: self.decision_source,
            rationale: self.rationale.clone(),
            confidence: self.confidence,
            source_model_ref: self.source_model_ref.clone(),
            issued_at: self.issued_at.clone(),
            action: self.action.clone(),
        };
        r
    }
}

impl Clone for SemanticDecisionBatchEnvelope {
    fn clone(&self) -> (r: Self)
        ensures
            r@ == self@,
    {
        let r = SemanticDecisionBatchEnvelope {
            meta: self.meta.clone(),
            host_session_id: self.host_session_id.clone(),
            host_message_ref: (match &self.host_message_ref { Some(x) => Some(x.clone()), None => None }),
            input_ref: self.input_ref.clone(),
            source_model_ref: self.source_model_ref.clone(),
            issued_at: self.issued_at.clone(),
            rationale_summary: (match &self.rationale_summary { Some(x) => Some(x.clone()), None => None }),
            semantic_decisions: self.semantic_decisions.clone(),
            control_action: (match &self.control_action { Some(x) => Some(x.clone()), None => None }),
        };
        assert(r.semantic_decisions.deep_view() =~= self.semantic_decisions.deep_view());
        r
    }
}

impl Clone for HostSubagentLifecycleEnvelope {
    fn clone(&self) -> (r: Self)
        ensures
            r@ == self@,
    {
        let r = HostSubagentLifecycleEnvelope {
            meta: self.meta.clone(),
            command_id: self.command_id.clone(),
            managed_task_ref: self.managed_task_ref.clone(),
            run_ref: self.run_ref.clone(),
            role_kind: self.role_kind,
            event: self.event.clone(),
        };
        r
    }
}

impl Clone for HostSubagentLifecycleEvent {
    fn clone(&self) -> (r: Self)
        ensures
            r@ == self@,
    {
        match self {
            HostSubagentLifecycleEvent::Spawned(payload) => HostSubagentLifecycleEvent::Spawned(payload.clone()),
            HostSubagentLifecycleEvent::Ended(payload) => HostSubagentLifecycleEvent::Ended(payload.clone()),
        }
    }
}

impl Clone for SubagentSpawnedPayload {
    fn clone(&self) -> (r: Self)
        ensures
            r@ == self@,
    {
        let r = SubagentSpawnedPayload {
            host_child_execution_ref: self.host_child_execution_ref.clone(),
            host_child_run_ref: (match &self.host_child_run_ref { Some(x) => Some(x.clone()), None => None }),
            host_agent_id: self.host_agent_id.clone(),
            observed_at: self.observed_at.clone(),
        };
        r
    }
}

impl Clone for SubagentEndedPayload {
    fn clone(&self) -> (r: Self)
        ensures
            r@ == self@,
    {
        let r = SubagentEndedPayload {
            host_child_execution_ref: self.host_child_execution_ref.clone(),
            host_child_run_ref: (match &self.host_child_run_ref { Some(x) => Some(x.clone()), None => None }),
            host_agent_id: self.host_agent_id.clone(),
            status: self.status,
            output_summary: self.output_summary.clone(),
            artifact_refs: self.artifact_refs.clone(),
            observed_at: self.observed_at.clone(),
        };
        assert(r.artifact_refs.deep_view() =~= self.artifact_refs.deep_view());
        r
    }
}

impl Clone for KernelOutboundPayload {
    fn clone(&self) -> (r: Self)
        ensures
            r@ == self@,
    {
        match self {
            KernelOutboundPayload::StartCard(payload) => KernelOutboundPayload::StartCard(payload.clone()),
            KernelOutboundPayload::BoundaryCard(payload) => KernelOutboundPayload::BoundaryCard(payload.clone()),
            KernelOutboundPayload::ResultSummary(payload) => KernelOutboundPayload::ResultSummary(payload.clone()),
            KernelOutboundPayload::ApprovalRequest(payload) => KernelOutboundPayload::ApprovalRequest(payload.clone()),
            KernelOutboundPayload::SuppressHostMessage(payload) => KernelOutboundPayload::SuppressHostMessage(payload.clone()),
            KernelOutboundPayload::ToolDecision(payload) => KernelOutboundPayload::ToolDecision(payload.clone()),
            KernelOutboundPayload::StatusNotice(payload) => KernelOutboundPayload::StatusNotice(payload.clone()),
        }
    }
}

impl Clone for StatusNoticePayload {
    fn clone(&self) -> (r: Self)
        ensures
            r@ == self@,
    {
        let r = StatusNoticePayload {
            managed_task_ref: self.managed_task_ref.clone(),
            notice_kind: self.notice_kind,
            stage_ref: self.stage_ref.clone(),
            headline: self.headline.clone(),
            summary: self.summary.clone(),
            detail: (match &self.detail { Some(x) => Some(x.clone()), None => None }),
            render_hint: self.render_hint.clone(),
        };
        r
    }
}

impl Clone for RenderHint {
    fn clone(&self) -> (r: Self)
        ensures
            r@ == self@,
    {
        let r = RenderHint {
            tone: self.tone,
            emphasis: self.emphasis,
            host_text_mode: self.host_text_mode,
        };
        r
    }
}

impl Clone for StartCardPayload {
    fn clone(&self) -> (r: Self)
        ensures
            r@ == self@,
    {
        let r = StartCardPayload {
            managed_task_ref: self.managed_task_ref.clone(),
            decision_token: self.decision_token.clone(),
            managed_task_class: self.managed_task_class,
            work_horizon: self.work_horizon,
            task_activation_reason: self.task_activation_reason,
            title: self.title.clone(),
            summary: self.summary.clone(),
            expected_outcome: self.expected_outcome.clone(),
            recommended_pack_ref: (match &self.recommended_pack_ref { Some(x) => Some(x.clone()), None => None }),
            allowed_actions: self.allowed_actions.clone(),
            render_hint: self.render_hint.clone(),
        };
        assert(r.allowed_actions.deep_view() =~= self.allowed_actions.deep_view());
        r
    }
}

impl Clone for BoundaryCardPayload {
    fn clone(&self) -> (r: Self)
        ensures
            r@ == self@,
    {
        let r = BoundaryCardPayload {
            managed_task_ref: self.managed_task_ref.clone(),
            candidate_managed_task_ref: self.candidate_managed_task_ref.clone(),
            decision_token: self.decision_token.clone(),
            active_task_summary: self.active_task_summary.clone(),
            candidate_task_summary: self.candidate_task_summary.clone(),
            boundary_reason: self.boundary_reason,
            allowed_actions: self.allowed_actions.clone(),
            render_hint: self.render_hint.clone(),
        };
        assert(r.allowed_actions.deep_view() =~= self.allowed_actions.deep_view());
        r
    }
}

impl Clone for ApprovalRequestPayload {
    fn clone(&self) -> (r: Self)
        ensures
            r@ == self@,
    {
        let r = ApprovalRequestPayload {
            managed_task_ref: self.managed_task_ref.clone(),
            decision_token: self.decision_token.clone(),
            approval_scope: self.approval_scope,
            allowed_actions: self.allowed_actions.clone(),
            why_now: self.why_now.clone(),
            risk_summary: self.risk_summary.clone(),
            render_hint: self.render_hint.clone(),
        };
        assert(r.allowed_actions.deep_view() =~= self.allowed_actions.deep_view());
        r
    }
}

impl Clone for ResultSummaryPayload {
    fn clone(&self) -> (r: Self)
        ensures
            r@ == self@,
    {
        let r = ResultSummaryPayload {
            managed_task_ref: self.managed_task_ref.clone(),
            outcome: self.outcome,
            acceptance_verdict: self.acceptance_verdict,
            summary: self.summary.clone(),
            final_scope_version: self.final_scope_version,
            scope_revision_headline: (match &self.scope_revision_headline { Some(x) => Some(x.clone()), None => None }),
            proof_of_work_excerpt: self.proof_of_work_excerpt.clone(),
            next_actions_excerpt: self.next_actions_excerpt.clone(),
            render_hint: self.render_hint.clone(),
        };
        assert(r.next_actions_excerpt.deep_view() =~= self.next_actions_excerpt.deep_view());
        r
    }
}

impl Clone for ProofOfWorkExcerpt {
    fn clone(&self) -> (r: Self)
        ensures
            r@ == self@,
    {
        let r = ProofOfWorkExcerpt {
            run_summary: self.run_summary.clone(),
            evidence_refs: self.evidence_refs.clone(),
            review_summary: (match &self.review_summary { Some(x) => Some(x.clone()), None => None }),
            artifact_manifest_excerpt: self.artifact_manifest_excerpt.clone(),
            acceptance_basis_excerpt: self.acceptance_basis_excerpt.clone(),
        };
        assert(r.evidence_refs.deep_view() =~= self.evidence_refs.deep_view());
        assert(r.artifact_manifest_excerpt.deep_view() =~= self.artifact_manifest_excerpt.deep_view());
        assert(r.acceptance_basis_excerpt.deep_view() =~= self.acceptance_basis_excerpt.deep_view());
        r
    }
}

impl Clone for SuppressHostMessagePayload {
    fn clone(&self) -> (r: Self)
        ensures
            r@ == self@,
    {
        let r = SuppressHostMessagePayload {
            host_message_ref: (match &self.host_message_ref { Some(x) => Some(x.clone()), None => None }),
            reason: self.reason,
        };
        r
    }
}

impl Clone for ToolDecisionPayload {
    fn clone(&self) -> (r: Self)
        ensures
            r@ == self@,
    {
        let r = ToolDecisionPayload {
            managed_task_ref: self.managed_task_ref.clone(),
            decision_value: self.decision_value,
            decision_area: self.decision_area,
            summary: self.summary.clone(),
            render_hint: self.render_hint.clone(),
        };
        r
    }
}

impl Clone for OutboundDelivery {
    fn clone(&self) -> (r: Self)
        ensures
            r@ == self@,
    {
        let r = OutboundDelivery {
            delivery_id: self.delivery_id.clone(),
            host_session_id: self.host_session_id.clone(),
            managed_task_ref: (match &self.managed_task_ref { Some(x) => Some(x.clone()), None => None }),
            correlation_id: self.correlation_id.clone(),
            causation_id: (match &self.causation_id { Some(x) => Some(x.clone()), None => None }),
            payload: self.payload.clone(),
            delivery_status: self.delivery_status,
            attempts: self.attempts,
            max_attempts: self.max_attempts,
            next_attempt_at: (match &self.next_attempt_at { Some(x) => Some(x.clone()), None => None }),
            expires_at: (match &self.expires_at { Some(x) => Some(x.clone()), None => None }),
            last_error: (match &self.last_error { Some(x) => Some(x.clone()), None => None }),
            created_at: self.created_at.clone(),
            acked_at: (match &self.acked_at { Some(x) => Some(x.clone()), None => None }),
        };
        r
    }
}

impl Clone for ManagedTask {
    fn clone(&self) -> (r: Self)
        ensures
            r@ == self@,
    {
        let r = ManagedTask {
            managed_task_ref: self.managed_task_ref.clone(),
            host_session_id: self.host_session_id.clone(),
            managed_task_class: self.managed_task_class,
            work_horizon: self.work_horizon,
            activation_reason: self.activation_reason,
            workflow_stage: self.workflow_stage,
            title: self.title.clone(),
            summary: self.summary.clone(),
            expected_outcome: self.expected_outcome.clone(),
            workspace_ref: (match &self.workspace_ref { Some(x) => Some(x.clone()), None => None }),
            repo_ref: (match &self.repo_ref { Some(x) => Some(x.clone()), None => None }),
            allowed_roots: self.allowed_roots.clone(),
            secret_classes: self.secret_classes.clone(),
            requirement_items: self.requirement_items.clone(),
            current_scope_ref: (match &self.current_scope_ref { Some(x) => Some(x.clone()), None => None }),
            current_scope_version: self.current_scope_version,
            current_baseline_risk_ref: (match &self.current_baseline_risk_ref { Some(x) => Some(x.clone()), None => None }),
            current_execution_authorization_ref: (match &self.current_execution_authorization_ref { Some(x) => Some(x.clone()), None => None }),
            current_pending_window_ref: (match &self.current_pending_window_ref { Some(x) => Some(x.clone()), None => None }),
            active_run_ref: (match &self.active_run_ref { Some(x) => Some(x.clone()), None => None }),
            spec_bundle: (match &self.spec_bundle { Some(x) => Some(x.clone()), None => None }),
            phase_plan: (match &self.phase_plan { Some(x) => Some(x.clone()), None => None }),
            agent_binding: (match &self.agent_binding { Some(x) => Some(x.clone()), None => None }),
            review_result: (match &self.review_result { Some(x) => Some(x.clone()), None => None }),
            proof_of_work_bundle: (match &self.proof_of_work_bundle { Some(x) => Some(x.clone()), None => None }),
            result_contract: (match &self.result_contract { Some(x) => Some(x.clone()), None => None }),
            created_at: self.created_at.clone(),
            updated_at: self.updated_at.clone(),
        };
        assert(r.allowed_roots.deep_view() =~= self.allowed_roots.deep_view());
        assert(r.secret_classes.deep_view() =~= self.secret_classes.deep_view());
        assert(r.requirement_items.deep_view() =~= self.requirement_items.deep_view());
        r
    }
}

impl Clone for PendingDecisionWindow {
    fn clone(&self) -> (r: Self)
        ensures
            r@ == self@,
    {
        let r = PendingDecisionWindow {
            window_id: self.window_id.clone(),
            managed_task_ref: self.managed_task_ref.clone(),
            kind: self.kind,
            decision_token: self.decision_token.clone(),
            source_decision_ref: (match &self.source_decision_ref { Some(x) => Some(x.clone()), None => None }),
            status: self.status,
            allowed_actions: self.allowed_actions.clone(),
            opened_reason: self.opened_reason.clone(),
            opened_at: self.opened_at.clone(),
            expires_at: (match &self.expires_at { Some(x) => Some(x.clone()), None => None }),
            supersedes: (match &self.supersedes { Some(x) => Some(x.clone()), None => None }),
        };
        assert(r.allowed_actions.deep_view() =~= self.allowed_actions.deep_view());
        r
    }
}

impl Clone for PendingBoundaryConfirmation {
    fn clone(&self) -> (r: Self)
        ensures
            r@ == self@,
    {
        let r = PendingBoundaryConfirmation {
            window_ref: self.window_ref.clone(),
            active_managed_task_ref: self.active_managed_task_ref.clone(),
            boundary_candidate_ref: self.boundary_candidate_ref.clone(),
            boundary_reason: self.boundary_reason,
        };
        r
    }
}

impl Clone for TaskScopeSnapshot {
    fn clone(&self) -> (r: Self)
        ensures
            r@ == self@,
    {
        let r = TaskScopeSnapshot {
            scope_id: self.scope_id.clone(),
            managed_task_ref: self.managed_task_ref.clone(),
            scope_version: self.scope_version,
            scope_summary: self.scope_summary.clone(),
            requirement_items: self.requirement_items.clone(),
            workspace_ref: (match &self.workspace_ref { Some(x) => Some(x.clone()), None => None }),
            repo_ref: (match &self.repo_ref { Some(x) => Some(x.clone()), None => None }),
            allowed_roots: self.allowed_roots.clone(),
            secret_classes: self.secret_classes.clone(),
            constraints: self.constraints.clone(),
            assumptions: self.assumptions.clone(),
            source_decision_ref: self.source_decision_ref.clone(),
            created_at: self.created_at.clone(),
        };
        assert(r.requirement_items.deep_view() =~= self.requirement_items.deep_view());
        assert(r.allowed_roots.deep_view() =~= self.allowed_roots.deep_view());
        assert(r.secret_classes.deep_view() =~= self.secret_classes.deep_view());
        assert(r.constraints.deep_view() =~= self.constraints.deep_view());
        assert(r.assumptions.deep_view() =~= self.assumptions.deep_view());
        r
    }
}

impl Clone for RequirementItem {
    fn clone(&self) -> (r: Self)
        ensures
            r@ == self@,
    {
        let r = RequirementItem {
            requirement_id: self.requirement_id.clone(),
            text: self.text.clone(),
            status: self.status,
            origin: self.origin,
            superseded_by: (match &self.superseded_by { Some(x) => Some(x.clone()), None => None }),
            deferred_reason: (match &self.deferred_reason { Some(x) => Some(x.clone()), None => None }),
        };
        r
    }
}

impl Clone for ScopeConstraint {
    fn clone(&self) -> (r: Self)
        ensures
            r@ == self@,
    {
        let r = ScopeConstraint {
            label: self.label.clone(),
            details: self.details.clone(),
        };
        r
    }
}

impl Clone for ScopeAssumption {
    fn clone(&self) -> (r: Self)
        ensures
            r@ == self@,
    {
        let r = ScopeAssumption {
            label: self.label.clone(),
            details: self.details.clone(),
        };
        r
    }
}

impl Clone for IsolatedTaskRun {
    fn clone(&self) -> (r: Self)
        ensures
            r@ == self@,
    {
        let r = IsolatedTaskRun {
            run_ref: self.run_ref.clone(),
            managed_task_ref: self.managed_task_ref.clone(),
            status: self.status,
            spec_bundle: self.spec_bundle.clone(),
            created_at: self.created_at.clone(),
            updated_at: self.updated_at.clone(),
        };
        r
    }
}

impl Clone for SpecBundle {
    fn clone(&self) -> (r: Self)
        ensures
            r@ == self@,
    {
        let r = SpecBundle {
            spec_bundle_id: self.spec_bundle_id.clone(),
            managed_task_ref: self.managed_task_ref.clone(),
            task_scope_ref: self.task_scope_ref.clone(),
            summary: self.summary.clone(),
            scope_doc: self.scope_doc.clone(),
            plan_doc: self.plan_doc.clone(),
            verification_doc: self.verification_doc.clone(),
            created_at: self.created_at.clone(),
        };
        r
    }
}

impl Clone for ReviewResult {
    fn clone(&self) -> (r: Self)
        ensures
            r@ == self@,
    {
        let r = ReviewResult {
            review_result_id: self.review_result_id.clone(),
            managed_task_ref: self.managed_task_ref.clone(),
            run_ref: self.run_ref.clone(),
            reviewer_group_ref: self.reviewer_group_ref.clone(),
            review_verdict: self.review_verdict,
            findings: self.findings.clone(),
            review_artifacts: self.review_artifacts.clone(),
            summary: self.summary.clone(),
            reviewed_at: self.reviewed_at.clone(),
        };
        assert(r.findings.deep_view() =~= self.findings.deep_view());
        assert(r.review_artifacts.deep_view() =~= self.review_artifacts.deep_view());
        r
    }
}

impl Clone for ResultContract {
    fn clone(&self) -> (r: Self)
        ensures
            r@ == self@,
    {
        let r = ResultContract {
            result_contract_id: self.result_contract_id.clone(),
            managed_task_ref: self.managed_task_ref.clone(),
            pack_ref: (match &self.pack_ref { Some(x) => Some(x.clone()), None => None }),
            outcome: self.outcome,
            acceptance_verdict: self.acceptance_verdict,
            final_scope_version: self.final_scope_version,
            scope_revision_summary: (match &self.scope_revision_summary { Some(x) => Some(x.clone()), None => None }),
            summary: self.summary.clone(),
            key_outcomes: self.key_outcomes.clone(),
            proof_of_work: self.proof_of_work.clone(),
            next_actions: self.next_actions.clone(),
            created_at: self.created_at.clone(),
        };
        assert(r.key_outcomes.deep_view() =~= self.key_outcomes.deep_view());
        assert(r.next_actions.deep_view() =~= self.next_actions.deep_view());
        r
    }
}

impl Clone for PhasePlan {
    fn clone(&self) -> (r: Self)
        ensures
            r@ == self@,
    {
        let r = PhasePlan {
            phase_plan_id: self.phase_plan_id.clone(),
            managed_task_ref: self.managed_task_ref.clone(),
            plan_source: self.plan_source,
            plan_entries: self.plan_entries.clone(),
            mutation_policy: self.mutation_policy.clone(),
            metadata: self.metadata.clone(),
            created_at: self.created_at.clone(),
        };
        assert(r.plan_entries.deep_view() =~= self.plan_entries.deep_view());
        r
    }
}

impl Clone for PhasePlanEntry {
    fn clone(&self) -> (r: Self)
        ensures
            r@ == self@,
    {
        let r = PhasePlanEntry {
            entry_id: self.entry_id.clone(),
            stage_package_id: self.stage_package_id.clone(),
            sequence_no: self.sequence_no,
            visibility: self.visibility,
            origin: self.origin,
            required: self.required,
            skip_allowed: self.skip_allowed,
            rework_target: (match &self.rework_target { Some(x) => Some(x.clone()), None => None }),
        };
        r
    }
}

impl Clone for PhasePlanMutationPolicy {
    fn clone(&self) -> (r: Self)
        ensures
            r@ == self@,
    {
        let r = PhasePlanMutationPolicy {
            user_adjustment_allowed: self.user_adjustment_allowed,
            system_insert_allowed: self.system_insert_allowed,
        };
        r
    }
}

impl Clone for PhasePlanMetadata {
    fn clone(&self) -> (r: Self)
        ensures
            r@ == self@,
    {
        let r = PhasePlanMetadata {
            pack_ref: (match &self.pack_ref { Some(x) => Some(x.clone()), None => None }),
            default_stage_sequence: self.default_stage_sequence.clone(),
        };
        assert(r.default_stage_sequence.deep_view() =~= self.default_stage_sequence.deep_view());
        r
    }
}

impl Clone for AgentBinding {
    fn clone(&self) -> (r: Self)
        ensures
            r@ == self@,
    {
        let r = AgentBinding {
            binding_id: self.binding_id.clone(),
            managed_task_ref: self.managed_task_ref.clone(),
            run_ref: self.run_ref.clone(),
            stage_run_ref: (match &self.stage_run_ref { Some(x) => Some(x.clone()), None => None }),
            pack_ref: (match &self.pack_ref { Some(x) => Some(x.clone()), None => None }),
            capability_snapshot_ref: self.capability_snapshot_ref.clone(),
            members: self.members.clone(),
            status: self.status,
            issued_reason: self.issued_reason.clone(),
            issued_at: self.issued_at.clone(),
            supersedes: (match &self.supersedes { Some(x) => Some(x.clone()), None => None }),
        };
        assert(r.members.deep_view() =~= self.members.deep_view());
        r
    }
}

impl Clone for AgentBindingMember {
    fn clone(&self) -> (r: Self)
        ensures
            r@ == self@,
    {
        let r = AgentBindingMember {
            role_kind: self.role_kind,
            profile_ref: self.profile_ref.clone(),
            host_mapping_ref: (match &self.host_mapping_ref { Some(x) => Some(x.clone()), None => None }),
            responsibilities: self.responsibilities.clone(),
            execution_mode: self.execution_mode,
            required: self.required,
        };
        assert(r.responsibilities.deep_view() =~= self.responsibilities.deep_view());
        r
    }
}

impl Clone for ReviewSummary {
    fn clone(&self) -> (r: Self)
        ensures
            r@ == self@,
    {
        let r = ReviewSummary {
            review_verdict: self.review_verdict,
            summary: self.summary.clone(),
            key_findings: self.key_findings.clone(),
            follow_up_required: self.follow_up_required,
        };
        assert(r.key_findings.deep_view() =~= self.key_findings.deep_view());
        r
    }
}

impl Clone for ArtifactManifestItem {
    fn clone(&self) -> (r: Self)
        ensures
            r@ == self@,
    {
        let r = ArtifactManifestItem {
            label: self.label.clone(),
            reference: self.reference.clone(),
        };
        r
    }
}

impl Clone for NextActionItem {
    fn clone(&self) -> (r: Self)
        ensures
            r@ == self@,
    {
        let r = NextActionItem {
            title: self.title.clone(),
            details: self.details.clone(),
        };
        r
    }
}

impl Clone for ProofOfWorkBundle {
    fn clone(&self) -> (r: Self)
        ensures
            r@ == self@,
    {
        let r = ProofOfWorkBundle {
            proof_of_work_id: self.proof_of_work_id.clone(),
            managed_task_ref: self.managed_task_ref.clone(),
            run_ref: self.run_ref.clone(),
            acceptance_verdict: self.acceptance_verdict,
            acceptance_basis: self.acceptance_basis.clone(),
            accepted_by_ref: self.accepted_by_ref.clone(),
            accepted_at: self.accepted_at.clone(),
            accepted_scope_version: self.accepted_scope_version,
            review_summary: self.review_summary.clone(),
            artifact_manifest: self.artifact_manifest.clone(),
            evidence_refs: self.evidence_refs.clone(),
            run_summary: self.run_summary.clone(),
        };
        assert(r.acceptance_basis.deep_view() =~= self.acceptance_basis.deep_view());
        assert(r.artifact_manifest.deep_view() =~= self.artifact_manifest.deep_view());
        assert(r.evidence_refs.deep_view() =~= self.evidence_refs.deep_view());
        r
    }
}

impl Clone for ProofEvidenceRef {
    fn clone(&self) -> (r: Self)
        ensures
            r@ == self@,
    {
        let r = ProofEvidenceRef {
            label: self.label.clone(),
            reference: self.reference.clone(),
        };
        r
    }
}

impl Clone for BridgeBootstrapTicket {
    fn clone(&self) -> (r: Self)
        ensures
            r@ == self@,
    {
        let r = BridgeBootstrapTicket {
            ticket_id: self.ticket_id.clone(),
            bridge_instance_id: self.bridge_instance_id.clone(),
            adapter_id: self.adapter_id.clone(),
            issued_at: self.issued_at.clone(),
            expires_at: self.expires_at.clone(),
            ticket_secret_hash: self.ticket_secret_hash.clone(),
            status: self.status,
        };
        r
    }
}

impl Clone for BridgeBootstrapMaterial {
    fn clone(&self) -> (r: Self)
        ensures
            r@ == self@,
    {
        let r = BridgeBootstrapMaterial {
            bridge_instance_id: self.bridge_instance_id.clone(),
            adapter_id: self.adapter_id.clone(),
            ticket_id: self.ticket_id.clone(),
            ticket_secret: self.ticket_secret.clone(),
            issued_at: self.issued_at.clone(),
            expires_at: self.expires_at.clone(),
        };
        r
    }
}

impl Clone for BridgeSessionCredential {
    fn clone(&self) -> (r: Self)
        ensures
            r@ == self@,
    {
        let r = BridgeSessionCredential {
            credential_id: self.credential_id.clone(),
            bridge_instance_id: self.bridge_instance_id.clone(),
            adapter_id: self.adapter_id.clone(),
            secret_ref: self.secret_ref.clone(),
            secret_hash: self.secret_hash.clone(),
            rotation_epoch: self.rotation_epoch,
            issued_at: self.issued_at.clone(),
            expires_at: (match &self.expires_at { Some(x) => Some(x.clone()), None => None }),
            status: self.status,
        };
        r
    }
}

impl Clone for BridgeAuthEnvelope {
    fn clone(&self) -> (r: Self)
        ensures
            r@ == self@,
    {
        let r = BridgeAuthEnvelope {
            bridge_instance_id: self.bridge_instance_id.clone(),
            adapter_id: self.adapter_id.clone(),
            secret_ref: self.secret_ref.clone(),
            rotation_epoch: self.rotation_epoch,
            signed_at: self.signed_at.clone(),
            nonce: self.nonce.clone(),
            signature: self.signature.clone(),
        };
        r
    }
}

impl Clone for BridgeBootstrapRequest {
    fn clone(&self) -> (r: Self)
        ensures
            r@ == self@,
    {
        let r = BridgeBootstrapRequest {
            bridge_instance_id: self.bridge_instance_id.clone(),
            adapter_id: self.adapter_id.clone(),
            ticket_id: self.ticket_id.clone(),
            ticket_secret: self.ticket_secret.clone(),
            requested_at: self.requested_at.clone(),
        };
        r
    }
}

impl Clone for BridgeBootstrapAck {
    fn clone(&self) -> (r: Self)
        ensures
            r@ == self@,
    {
        let r = BridgeBootstrapAck {
            bridge_instance_id: self.bridge_instance_id.clone(),
            credential_id: self.credential_id.clone(),
            secret_ref: self.secret_ref.clone(),
            rotation_epoch: self.rotation_epoch,
            session_secret: self.session_secret.clone(),
            issued_at: self.issued_at.clone(),
            expires_at: (match &self.expires_at { Some(x) => Some(x.clone()), None => None }),
        };
        r
    }
}

impl Clone for BridgeHealthResponse {
    fn clone(&self) -> (r: Self)
        ensures
            r@ == self@,
    {
        let r = BridgeHealthResponse {
            bridge_instance_id: self.bridge_instance_id.clone(),
            status: self.status.clone(),
        };
        r
    }
}

impl Clone for CurrentControlSurfaceProjection {
    fn clone(&self) -> (r: Self)
        ensures
            r@ == self@,
    {
        let r = CurrentControlSurfaceProjection {
            host_session_id: self.host_session_id.clone(),
            surface_type: self.surface_type,
            managed_task_ref: self.managed_task_ref.clone(),
            decision_token: self.decision_token.clone(),
            allowed_actions: self.allowed_actions.clone(),
        };
        assert(r.allowed_actions.deep_view() =~= self.allowed_actions.deep_view());
        r
    }
}

impl Clone for HostExecutionCommand {
    fn clone(&self) -> (r: Self)
        ensures
            r@ == self@,
    {
        let r = HostExecutionCommand {
            command_id: self.command_id.clone(),
            managed_task_ref: self.managed_task_ref.clone(),
            run_ref: self.run_ref.clone(),
            binding_id: self.binding_id.clone(),
            role_kind: self.role_kind,
            host_session_id: self.host_session_id.clone(),
            host_agent_id: self.host_agent_id.clone(),
            prompt: self.prompt.clone(),
            label: self.label.clone(),
            status: self.status,
            host_child_execution_ref: (match &self.host_child_execution_ref { Some(x) => Some(x.clone()), None => None }),
            host_child_run_ref: (match &self.host_child_run_ref { Some(x) => Some(x.clone()), None => None }),
            output_summary: (match &self.output_summary { Some(x) => Some(x.clone()), None => None }),
            artifact_refs: self.artifact_refs.clone(),
            issued_at: self.issued_at.clone(),
            acked_at: (match &self.acked_at { Some(x) => Some(x.clone()), None => None }),
            completed_at: (match &self.completed_at { Some(x) => Some(x.clone()), None => None }),
        };
        assert(r.artifact_refs.deep_view() =~= self.artifact_refs.deep_view());
        r
    }
}

} // verus!
