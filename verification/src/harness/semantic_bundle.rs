//! Folding a batch of semantic judgments into one legacy decision, and the
//! checks a batch must pass before it is admitted.
use crate::harness::error::{FlowError, FlowErrorView, LoomHarnessError, LoomHarnessErrorView, other_failure};
use crate::model::ingress::{
    BoundaryRecommendation, ChangeExecutionSurface, InteractionLaneDecisionPayloadView,
    LegacySemanticDecisionEnvelope, LegacySemanticDecisionEnvelopeView, RequirementItemDraft,
    SemanticDecisionBatchEnvelope, SemanticDecisionBatchEnvelopeView, SemanticDecisionEnvelope,
    SemanticDecisionEnvelopeView, SemanticDecisionKind, SemanticDecisionPayload,
    SemanticDecisionPayloadView, TaskChangeClassification, TaskChangeDecisionPayloadView,
};
use crate::model::ingress::{ControlActionKind};
use crate::model::shared::{InteractionLane, ManagedTaskClass, TaskActivationReason, WorkHorizonKind};
use crate::store::persist::{PersistOutcome, persist_outcome_spec};
use crate::risk::contains_text;
use crate::text::{owned, str_eq};
use vstd::prelude::*;

verus! {

/// The lowercase name under which a judgment kind is reported.
pub open spec fn kind_name(kind: SemanticDecisionKind) -> Seq<char> {
    match kind {
        SemanticDecisionKind::InteractionLane => "interactionlane"@,
        SemanticDecisionKind::TaskActivationReason => "taskactivationreason"@,
        SemanticDecisionKind::ManagedTaskClass => "managedtaskclass"@,
        SemanticDecisionKind::WorkHorizon => "workhorizon"@,
        SemanticDecisionKind::TaskChange => "taskchange"@,
    }
}

/// The lowercase name under which a judgment kind is reported.
pub fn kind_name_text(kind: SemanticDecisionKind) -> (r: String)
    ensures
        r@ == kind_name(kind),
{
    match kind {
        SemanticDecisionKind::InteractionLane => owned("interactionlane"),
        SemanticDecisionKind::TaskActivationReason => owned("taskactivationreason"),
        SemanticDecisionKind::ManagedTaskClass => owned("managedtaskclass"),
        SemanticDecisionKind::WorkHorizon => owned("workhorizon"),
        SemanticDecisionKind::TaskChange => owned("taskchange"),
    }
}

/// The text of a refusal whose judgments name two different tasks.
pub open spec fn task_ref_mismatch_text() -> Seq<char> {
    "semantic bundle managed_task_ref mismatch"@
}

/// The text of a refusal whose judgment kind and payload disagree.
pub open spec fn kind_payload_mismatch_text() -> Seq<char> {
    "semantic decision_kind does not match decision_payload"@
}

/// Merging a judgment's task reference into the one gathered so far: a
/// second, different reference is refused.
pub open spec fn merge_task_ref_spec(current: Option<Seq<char>>, candidate: Option<Seq<char>>) -> Result<
    Option<Seq<char>>,
    FlowErrorView,
> {
    match candidate {
        None => Ok(current),
        Some(c) => match current {
            Some(r) => if r == c {
                Ok(current)
            } else {
                Err(FlowErrorView::Other(task_ref_mismatch_text()))
            },
            None => Ok(Some(c)),
        },
    }
}

/// Merges a judgment's task reference into the one gathered so far.
pub fn merge_managed_task_ref(current: &mut Option<String>, candidate: Option<String>) -> (r: Result<
    (),
    FlowError,
>)
    ensures
        match merge_task_ref_spec(old(current).deep_view(), candidate.deep_view()) {
            Ok(v) => r is Ok && final(current).deep_view() == v,
            Err(e) => r matches Err(x) && x@ == e && final(current).deep_view() == old(
                current,
            ).deep_view(),
        },
{
    match candidate {
        None => Ok(()),
        Some(c) => {
            let same = match current {
                Some(existing) => Some(str_eq(existing.as_str(), c.as_str())),
                None => None,
            };
            match same {
                Some(true) => Ok(()),
                Some(false) => Err(other_failure("semantic bundle managed_task_ref mismatch")),
                None => {
                    *current = Some(c);
                    Ok(())
                },
            }
        },
    }
}

/// What has been gathered from the judgments read so far.
pub struct LegacyFold {
    pub refs: Seq<Seq<char>>,
    pub kinds: Seq<SemanticDecisionKind>,
    pub interaction: Option<SemanticDecisionEnvelopeView>,
    pub activation_reason: Option<TaskActivationReason>,
    pub managed_task_class: Option<ManagedTaskClass>,
    pub work_horizon: Option<WorkHorizonKind>,
    pub task_change: Option<TaskChangeDecisionPayloadView>,
    pub task_ref: Option<Seq<char>>,
}

/// Nothing gathered yet.
pub open spec fn empty_fold() -> LegacyFold {
    LegacyFold {
        refs: Seq::empty(),
        kinds: Seq::empty(),
        interaction: None,
        activation_reason: None,
        managed_task_class: None,
        work_horizon: None,
        task_change: None,
        task_ref: None,
    }
}

/// Reading one more judgment: a repeated reference or kind is refused, its
/// task reference must agree with the others, and its payload must be of its
/// kind.
pub open spec fn fold_step(f: LegacyFold, d: SemanticDecisionEnvelopeView) -> Result<LegacyFold, FlowErrorView> {
    if f.refs.contains(d.decision_ref) {
        Err(FlowErrorView::Harness(LoomHarnessErrorView::DuplicateDecisionRef(d.decision_ref)))
    } else if f.kinds.contains(d.decision_kind) {
        Err(
            FlowErrorView::Harness(
                LoomHarnessErrorView::DuplicateSemanticDecisionKind(kind_name(d.decision_kind)),
            ),
        )
    } else {
        match merge_task_ref_spec(f.task_ref, d.managed_task_ref) {
            Err(e) => Err(e),
            Ok(task_ref) => {
                let g = LegacyFold {
                    refs: f.refs.push(d.decision_ref),
                    kinds: f.kinds.push(d.decision_kind),
                    task_ref,
                    ..f
                };
                match (d.decision_kind, d.decision_payload) {
                    (
                        SemanticDecisionKind::InteractionLane,
                        SemanticDecisionPayloadView::InteractionLane(_),
                    ) => Ok(LegacyFold { interaction: Some(d), ..g }),
                    (
                        SemanticDecisionKind::TaskActivationReason,
                        SemanticDecisionPayloadView::TaskActivationReason(p),
                    ) => Ok(LegacyFold { activation_reason: Some(p.task_activation_reason), ..g }),
                    (
                        SemanticDecisionKind::ManagedTaskClass,
                        SemanticDecisionPayloadView::ManagedTaskClass(p),
                    ) => Ok(LegacyFold { managed_task_class: Some(p.managed_task_class), ..g }),
                    (
                        SemanticDecisionKind::WorkHorizon,
                        SemanticDecisionPayloadView::WorkHorizon(p),
                    ) => Ok(LegacyFold { work_horizon: Some(p.work_horizon), ..g }),
                    (
                        SemanticDecisionKind::TaskChange,
                        SemanticDecisionPayloadView::TaskChange(p),
                    ) => Ok(LegacyFold { task_change: Some(p), ..g }),
                    _ => Err(FlowErrorView::Other(kind_payload_mismatch_text())),
                }
            },
        }
    }
}

/// Reading the judgments in order, stopping at the first refusal.
pub open spec fn fold_decisions(ds: Seq<SemanticDecisionEnvelopeView>) -> Result<LegacyFold, FlowErrorView>
    decreases ds.len(),
{
    if ds.len() == 0 {
        Ok(empty_fold())
    } else {
        match fold_decisions(ds.drop_last()) {
            Err(e) => Err(e),
            Ok(f) => fold_step(f, ds.last()),
        }
    }
}

/// The legacy decision assembled from the gathered judgments and the
/// interaction-lane payload.
pub open spec fn legacy_from(
    batch: SemanticDecisionBatchEnvelopeView,
    d: SemanticDecisionEnvelopeView,
    p: InteractionLaneDecisionPayloadView,
    f: LegacyFold,
    task_ref: Option<Seq<char>>,
) -> LegacySemanticDecisionEnvelopeView {
    LegacySemanticDecisionEnvelopeView {
        decision_id: d.decision_ref,
        host_session_id: batch.host_session_id,
        host_message_ref: d.host_message_ref,
        managed_task_ref: task_ref,
        interaction_lane: p.interaction_lane,
        managed_task_class: f.managed_task_class,
        work_horizon: f.work_horizon,
        task_activation_reason: f.activation_reason,
        task_change_classification: match f.task_change {
            Some(c) => Some(c.classification),
            None => None,
        },
        task_change_execution_surface: match f.task_change {
            Some(c) => Some(c.execution_surface),
            None => None,
        },
        task_change_boundary_recommendation: match f.task_change {
            Some(c) => Some(c.boundary_recommendation),
            None => None,
        },
        title: p.title,
        summary: p.summary,
        expected_outcome: p.expected_outcome,
        requirement_items: p.requirement_items,
        workspace_ref: p.workspace_ref,
        repo_ref: p.repo_ref,
        allowed_roots: p.allowed_roots,
        secret_classes: p.secret_classes,
        confidence: Some(d.confidence),
        created_at: d.issued_at,
    }
}

/// The legacy decision a batch stands for: none for a batch without
/// judgments; otherwise the fold of its judgments, which must not reuse the
/// control action's reference and must hold an interaction-lane judgment.
pub open spec fn legacy_decision_spec(batch: SemanticDecisionBatchEnvelopeView) -> Result<
    Option<LegacySemanticDecisionEnvelopeView>,
    FlowErrorView,
> {
    if batch.semantic_decisions.len() == 0 {
        Ok(None)
    } else {
        match fold_decisions(batch.semantic_decisions) {
            Err(e) => Err(e),
            Ok(f) => {
                if batch.control_action is Some && f.refs.contains(
                    batch.control_action->0.decision_ref,
                ) {
                    Err(
                        FlowErrorView::Harness(
                            LoomHarnessErrorView::DuplicateDecisionRef(
                                batch.control_action->0.decision_ref,
                            ),
                        ),
                    )
                } else {
                    match f.interaction {
                        None => Err(
                            FlowErrorView::Harness(LoomHarnessErrorView::MissingInteractionLaneDecision),
                        ),
                        Some(d) => match d.decision_payload {
                            SemanticDecisionPayloadView::InteractionLane(p) => match merge_task_ref_spec(
                                f.task_ref,
                                p.managed_task_ref,
                            ) {
                                Err(e) => Err(e),
                                Ok(r) => Ok(Some(legacy_from(batch, d, p, f, r))),
                            },
                            _ => Err(FlowErrorView::Other("interaction_lane decision payload missing"@)),
                        },
                    }
                }
            },
        }
    }
}

fn kinds_contain(kinds: &Vec<SemanticDecisionKind>, kind: SemanticDecisionKind) -> (r: bool)
    ensures
        r == kinds@.contains(kind),
{
    let mut i: usize = 0;
    while i < kinds.len()
        invariant
            i <= kinds@.len(),
            forall|k: int| 0 <= k < i ==> kinds@[k] != kind,
        decreases kinds.len() - i,
    {
        if kinds[i] == kind {
            assert(kinds@[i as int] == kind);
            return true;
        }
        i += 1;
    }
    false
}

/// A copy of a list of requirement drafts.
pub fn copy_drafts(drafts: &Vec<RequirementItemDraft>) -> (r: Vec<RequirementItemDraft>)
    ensures
        r.deep_view() == drafts.deep_view(),
{
    let mut r: Vec<RequirementItemDraft> = Vec::new();
    let mut i: usize = 0;
    while i < drafts.len()
        invariant
            i <= drafts@.len(),
            r.deep_view() == drafts.deep_view().take(i as int),
        decreases drafts.len() - i,
    {
        let ghost prev = r.deep_view();
        r.push(RequirementItemDraft { text: drafts[i].text.clone(), origin: drafts[i].origin });
        assert(r.deep_view() =~= prev.push(drafts[i as int]@));
        assert(drafts.deep_view().take(i + 1) =~= drafts.deep_view().take(i as int).push(
            drafts.deep_view()[i as int],
        ));
        i += 1;
    }
    assert(drafts.deep_view().take(drafts@.len() as int) =~= drafts.deep_view());
    r
}

/// The gathered state, as held while the judgments are read.
struct FoldState {
    refs: Vec<String>,
    kinds: Vec<SemanticDecisionKind>,
    interaction: Option<usize>,
    activation_reason: Option<TaskActivationReason>,
    managed_task_class: Option<ManagedTaskClass>,
    work_horizon: Option<WorkHorizonKind>,
    task_change: Option<(TaskChangeClassification, ChangeExecutionSurface, BoundaryRecommendation)>,
    task_ref: Option<String>,
}

impl FoldState {
    /// The state matches a fold over the given judgments.
    spec fn models(&self, ds: Seq<SemanticDecisionEnvelopeView>, f: LegacyFold) -> bool {
        &&& self.refs.deep_view() == f.refs
        &&& self.kinds@ == f.kinds
        &&& self.activation_reason == f.activation_reason
        &&& self.managed_task_class == f.managed_task_class
        &&& self.work_horizon == f.work_horizon
        &&& self.task_ref.deep_view() == f.task_ref
        &&& match self.interaction {
            Some(k) => k < ds.len() && f.interaction == Some(ds[k as int]),
            None => f.interaction is None,
        }
        &&& match self.task_change {
            Some((c, s, b)) => f.task_change matches Some(p) && p.classification == c
                && p.execution_surface == s && p.boundary_recommendation == b,
            None => f.task_change is None,
        }
    }
}

proof fn lemma_fold_take_step(ds: Seq<SemanticDecisionEnvelopeView>, i: int)
    requires
        0 <= i < ds.len(),
    ensures
        fold_decisions(ds.take(i + 1)) == match fold_decisions(ds.take(i)) {
            Err(e) => Err(e),
            Ok(f) => fold_step(f, ds[i]),
        },
{
    assert(ds.take(i + 1).drop_last() =~= ds.take(i));
}

fn read_judgment(
    st: &mut FoldState,
    ds: &Vec<SemanticDecisionEnvelope>,
    i: usize,
    Ghost(f): Ghost<LegacyFold>,
) -> (r: Result<(), FlowError>)
    requires
        i < ds@.len(),
        old(st).models(ds.deep_view().take(i as int), f),
    ensures
        match fold_step(f, ds.deep_view()[i as int]) {
            Ok(g) => r is Ok && final(st).models(ds.deep_view().take(i + 1), g),
            Err(e) => r matches Err(x) && x@ == e,
        },
{
    let ghost dv = ds.deep_view();
    let d = &ds[i];
    assert(dv[i as int] == d@);
    if contains_text(&st.refs, d.decision_ref.as_str()) {
        return Err(FlowError::Harness(LoomHarnessError::DuplicateDecisionRef(d.decision_ref.clone())));
    }
    if kinds_contain(&st.kinds, d.decision_kind) {
        return Err(
            FlowError::Harness(
                LoomHarnessError::DuplicateSemanticDecisionKind(kind_name_text(d.decision_kind)),
            ),
        );
    }
    let merged = merge_managed_task_ref(&mut st.task_ref, d.managed_task_ref.clone());
    match merged {
        Err(e) => {
            return Err(e);
        },
        Ok(()) => {},
    }
    st.refs.push(d.decision_ref.clone());
    st.kinds.push(d.decision_kind);
    proof {
        assert(st.refs.deep_view() =~= f.refs.push(d@.decision_ref));
        assert(dv.take(i + 1)[i as int] == dv[i as int]);
    }
    match (&d.decision_kind, &d.decision_payload) {
        (SemanticDecisionKind::InteractionLane, SemanticDecisionPayload::InteractionLane(_)) => {
            st.interaction = Some(i);
        },
        (
            SemanticDecisionKind::TaskActivationReason,
            SemanticDecisionPayload::TaskActivationReason(p),
        ) => {
            st.activation_reason = Some(p.task_activation_reason);
        },
        (SemanticDecisionKind::ManagedTaskClass, SemanticDecisionPayload::ManagedTaskClass(p)) => {
            st.managed_task_class = Some(p.managed_task_class);
        },
        (SemanticDecisionKind::WorkHorizon, SemanticDecisionPayload::WorkHorizon(p)) => {
            st.work_horizon = Some(p.work_horizon);
        },
        (SemanticDecisionKind::TaskChange, SemanticDecisionPayload::TaskChange(p)) => {
            st.task_change = Some((p.classification, p.execution_surface, p.boundary_recommendation));
        },
        _ => {
            return Err(other_failure("semantic decision_kind does not match decision_payload"));
        },
    }
    proof {
        let ghost t = dv.take(i + 1);
        match st.interaction {
            Some(k) => {
                assert(t[k as int] == dv[k as int]);
            },
            None => {},
        }
    }
    Ok(())
}

/// Folds a batch of judgments into one legacy decision, as
/// `legacy_decision_spec` states.
pub fn build_legacy_decision(batch: &SemanticDecisionBatchEnvelope) -> (r: Result<
    Option<LegacySemanticDecisionEnvelope>,
    FlowError,
>)
    ensures
        match legacy_decision_spec(batch@) {
            Ok(None) => r matches Ok(None),
            Ok(Some(l)) => r matches Ok(Some(x)) && x@ == l,
            Err(e) => r matches Err(x) && x@ == e,
        },
{
    let ds = &batch.semantic_decisions;
    let ghost dv = ds.deep_view();
    if ds.len() == 0 {
        return Ok(None);
    }
    let mut st = FoldState {
        refs: Vec::new(),
        kinds: Vec::new(),
        interaction: None,
        activation_reason: None,
        managed_task_class: None,
        work_horizon: None,
        task_change: None,
        task_ref: None,
    };
    let ghost mut f = empty_fold();
    proof {
        assert(dv.take(0) =~= Seq::<SemanticDecisionEnvelopeView>::empty());
        assert(st.refs.deep_view() =~= Seq::<Seq<char>>::empty());
        assert(st.kinds@ =~= Seq::<SemanticDecisionKind>::empty());
    }
    let mut i: usize = 0;
    while i < ds.len()
        invariant
            dv == ds.deep_view(),
            dv == batch@.semantic_decisions,
            i <= dv.len(),
            fold_decisions(dv.take(i as int)) == Ok::<LegacyFold, FlowErrorView>(f),
            st.models(dv.take(i as int), f),
        decreases ds.len() - i,
    {
        proof {
            lemma_fold_take_step(dv, i as int);
        }
        let step = read_judgment(&mut st, ds, i, Ghost(f));
        match step {
            Err(e) => {
                proof {
                    lemma_fold_prefix_error(dv, i as int + 1);
                }
                return Err(e);
            },
            Ok(()) => {},
        }
        proof {
            f = fold_step(f, dv[i as int])->Ok_0;
        }
        i += 1;
    }
    assert(dv.take(dv.len() as int) =~= dv);
    if let Some(ca) = &batch.control_action {
        if contains_text(&st.refs, ca.decision_ref.as_str()) {
            return Err(FlowError::Harness(LoomHarnessError::DuplicateDecisionRef(ca.decision_ref.clone())));
        }
    }
    let k = match st.interaction {
        None => {
            return Err(FlowError::Harness(LoomHarnessError::MissingInteractionLaneDecision));
        },
        Some(k) => k,
    };
    let d = &ds[k];
    assert(dv[k as int] == d@);
    let p = match &d.decision_payload {
        SemanticDecisionPayload::InteractionLane(p) => p,
        _ => {
            return Err(other_failure("interaction_lane decision payload missing"));
        },
    };
    let mut task_ref = st.task_ref;
    let merged = merge_managed_task_ref(&mut task_ref, p.managed_task_ref.clone());
    match merged {
        Err(e) => {
            return Err(e);
        },
        Ok(()) => {},
    }
    let (classification, surface, boundary) = match st.task_change {
        Some((c, s, b)) => (Some(c), Some(s), Some(b)),
        None => (None, None, None),
    };
    let legacy = LegacySemanticDecisionEnvelope {
        decision_id: d.decision_ref.clone(),
        host_session_id: batch.host_session_id.clone(),
        host_message_ref: d.host_message_ref.clone(),
        managed_task_ref: task_ref,
        interaction_lane: p.interaction_lane,
        managed_task_class: st.managed_task_class,
        work_horizon: st.work_horizon,
        task_activation_reason: st.activation_reason,
        task_change_classification: classification,
        task_change_execution_surface: surface,
        task_change_boundary_recommendation: boundary,
        title: p.title.clone(),
        summary: p.summary.clone(),
        expected_outcome: p.expected_outcome.clone(),
        requirement_items: copy_drafts(&p.requirement_items),
        workspace_ref: p.workspace_ref.clone(),
        repo_ref: p.repo_ref.clone(),
        allowed_roots: p.allowed_roots.clone(),
        secret_classes: p.secret_classes.clone(),
        confidence: Some(d.confidence),
        created_at: d.issued_at.clone(),
    };
    Ok(Some(legacy))
}

/// Once a prefix of the judgments is refused, so is every longer prefix.
proof fn lemma_fold_prefix_error(ds: Seq<SemanticDecisionEnvelopeView>, i: int)
    requires
        0 < i <= ds.len(),
        fold_decisions(ds.take(i)) is Err,
    ensures
        fold_decisions(ds) == fold_decisions(ds.take(i)),
    decreases ds.len() - i,
{
    if i < ds.len() {
        lemma_fold_take_step(ds, i);
        lemma_fold_prefix_error(ds, i + 1);
    } else {
        assert(ds.take(i) =~= ds);
    }
}

/// A candidate decision must carry both a task class and a work horizon.
pub open spec fn supported_candidate_spec(decision: LegacySemanticDecisionEnvelopeView) -> Result<
    (),
    LoomHarnessErrorView,
> {
    if decision.interaction_lane == InteractionLane::ManagedTaskCandidate && (
    decision.managed_task_class is None || decision.work_horizon is None) {
        Err(LoomHarnessErrorView::MissingManagedTaskSemantics)
    } else {
        Ok(())
    }
}

/// Refuses a candidate decision that lacks its task class or work horizon.
pub fn ensure_supported_candidate(decision: &LegacySemanticDecisionEnvelope) -> (r: Result<
    (),
    LoomHarnessError,
>)
    ensures
        match supported_candidate_spec(decision@) {
            Ok(()) => r is Ok,
            Err(e) => r matches Err(x) && x@ == e,
        },
{
    if decision.interaction_lane == InteractionLane::ManagedTaskCandidate && (
    decision.managed_task_class.is_none() || decision.work_horizon.is_none()) {
        Err(LoomHarnessError::MissingManagedTaskSemantics)
    } else {
        Ok(())
    }
}

/// The task a clarification is addressed to: the one the control action
/// names, else the one the legacy decision names.
pub open spec fn known_task_ref_spec(
    batch: SemanticDecisionBatchEnvelopeView,
    legacy: Option<LegacySemanticDecisionEnvelopeView>,
) -> Option<Seq<char>> {
    let from_action = match batch.control_action {
        Some(ca) => ca.action.managed_task_ref,
        None => None,
    };
    match from_action {
        Some(r) => Some(r),
        None => match legacy {
            Some(l) => l.managed_task_ref,
            None => None,
        },
    }
}

/// The task a clarification is addressed to.
pub fn known_task_ref_for_clarification(
    batch: &SemanticDecisionBatchEnvelope,
    legacy: Option<&LegacySemanticDecisionEnvelope>,
) -> (r: Option<String>)
    ensures
        r.deep_view() == known_task_ref_spec(
            batch@,
            match legacy {
                Some(l) => Some(l@),
                None => None,
            },
        ),
{
    let from_action = match &batch.control_action {
        Some(ca) => ca.action.managed_task_ref.clone(),
        None => None,
    };
    match from_action {
        Some(r) => Some(r),
        None => match legacy {
            Some(l) => l.managed_task_ref.clone(),
            None => None,
        },
    }
}

/// The index of the first judgment with the given reference.
#[verifier::opaque]
pub open spec fn first_ref_index(ds: Seq<SemanticDecisionEnvelopeView>, r: Seq<char>) -> Option<int> {
    if exists|k: int| 0 <= k < ds.len() && ds[k].decision_ref == r {
        Some(
            choose|k: int|
                0 <= k < ds.len() && ds[k].decision_ref == r && forall|j: int|
                    0 <= j < k ==> ds[j].decision_ref != r,
        )
    } else {
        None
    }
}

/// The cited judgment must be a task-change judgment, and the request may
/// not name another task than the decision.
pub open spec fn paired_judgment_spec(
    d: SemanticDecisionEnvelopeView,
    action_task_ref: Option<Seq<char>>,
    decision_task_ref: Option<Seq<char>>,
) -> Result<(), LoomHarnessErrorView> {
    if d.decision_kind != SemanticDecisionKind::TaskChange || !(d.decision_payload is TaskChange) {
        Err(LoomHarnessErrorView::InvalidTaskChangeSourceDecision)
    } else if action_task_ref is Some && decision_task_ref is Some && action_task_ref
        != decision_task_ref {
        Err(LoomHarnessErrorView::TaskChangeManagedTaskMismatch)
    } else {
        Ok(())
    }
}

fn check_paired_judgment(
    d: &SemanticDecisionEnvelope,
    action_task_ref: &Option<String>,
    decision_task_ref: &Option<String>,
) -> (r: Result<(), LoomHarnessError>)
    ensures
        match paired_judgment_spec(d@, action_task_ref.deep_view(), decision_task_ref.deep_view()) {
            Ok(()) => r is Ok,
            Err(e) => r matches Err(x) && x@ == e,
        },
{
    let payload_is_change = match &d.decision_payload {
        SemanticDecisionPayload::TaskChange(_) => true,
        _ => false,
    };
    if d.decision_kind != SemanticDecisionKind::TaskChange || !payload_is_change {
        return Err(LoomHarnessError::InvalidTaskChangeSourceDecision);
    }
    match (action_task_ref, decision_task_ref) {
        (Some(a), Some(b)) => {
            if !str_eq(a.as_str(), b.as_str()) {
                return Err(LoomHarnessError::TaskChangeManagedTaskMismatch);
            }
        },
        _ => {},
    }
    Ok(())
}

/// A task-change request must cite a task-change judgment of the same batch
/// under an active-lane decision, and may not name another task.
pub open spec fn task_change_batch_spec(
    batch: SemanticDecisionBatchEnvelopeView,
    legacy: Option<LegacySemanticDecisionEnvelopeView>,
) -> Result<(), LoomHarnessErrorView> {
    match batch.control_action {
        None => Ok(()),
        Some(ca) => if ca.action.kind != ControlActionKind::RequestTaskChange {
            Ok(())
        } else {
            match ca.action.source_decision_ref {
                None => Err(LoomHarnessErrorView::MissingTaskChangeSourceDecisionRef),
                Some(src) => match legacy {
                    None => Err(LoomHarnessErrorView::MissingPairedTaskChangeJudgment),
                    Some(l) => if l.interaction_lane != InteractionLane::ManagedTaskActive {
                        Err(LoomHarnessErrorView::MissingPairedTaskChangeJudgment)
                    } else {
                        match first_ref_index(batch.semantic_decisions, src) {
                            None => Err(LoomHarnessErrorView::MissingPairedTaskChangeJudgment),
                            Some(k) => paired_judgment_spec(
                                batch.semantic_decisions[k],
                                ca.action.managed_task_ref,
                                l.managed_task_ref,
                            ),
                        }
                    },
                },
            }
        },
    }
}

fn find_decision_by_ref(ds: &Vec<SemanticDecisionEnvelope>, r: &String) -> (idx: Option<usize>)
    ensures
        match idx {
            Some(k) => k < ds@.len() && first_ref_index(ds.deep_view(), r@) == Some(k as int),
            None => first_ref_index(ds.deep_view(), r@) is None,
        },
{
    let ghost dv = ds.deep_view();
    reveal(first_ref_index);
    let mut i: usize = 0;
    while i < ds.len()
        invariant
            dv == ds.deep_view(),
            i <= dv.len(),
            forall|j: int| 0 <= j < i ==> dv[j].decision_ref != r@,
        decreases ds.len() - i,
    {
        assert(dv[i as int] == ds[i as int]@);
        if str_eq(ds[i].decision_ref.as_str(), r.as_str()) {
            reveal(first_ref_index);
            let ghost k = choose|k: int|
                0 <= k < dv.len() && dv[k].decision_ref == r@ && forall|j: int|
                    0 <= j < k ==> dv[j].decision_ref != r@;
            assert(0 <= i < dv.len() && dv[i as int].decision_ref == r@);
            assert(k == i as int) by {
                if k < i {
                } else if k > i {
                    assert(dv[i as int].decision_ref != r@);
                }
            }
            return Some(i);
        }
        i += 1;
    }
    reveal(first_ref_index);
    None
}

/// Checks a task-change request against the judgments of its batch.
pub fn validate_request_task_change_batch(
    batch: &SemanticDecisionBatchEnvelope,
    legacy: Option<&LegacySemanticDecisionEnvelope>,
) -> (r: Result<(), LoomHarnessError>)
    ensures
        match task_change_batch_spec(
            batch@,
            match legacy {
                Some(l) => Some(l@),
                None => None,
            },
        ) {
            Ok(()) => r is Ok,
            Err(e) => r matches Err(x) && x@ == e,
        },
{
    let ca = match &batch.control_action {
        None => {
            return Ok(());
        },
        Some(ca) => ca,
    };
    if ca.action.kind != ControlActionKind::RequestTaskChange {
        return Ok(());
    }
    let src = match &ca.action.source_decision_ref {
        None => {
            return Err(LoomHarnessError::MissingTaskChangeSourceDecisionRef);
        },
        Some(src) => src,
    };
    let l = match legacy {
        None => {
            return Err(LoomHarnessError::MissingPairedTaskChangeJudgment);
        },
        Some(l) => l,
    };
    if l.interaction_lane != InteractionLane::ManagedTaskActive {
        return Err(LoomHarnessError::MissingPairedTaskChangeJudgment);
    }
    let k = match find_decision_by_ref(&batch.semantic_decisions, src) {
        None => {
            return Err(LoomHarnessError::MissingPairedTaskChangeJudgment);
        },
        Some(k) => k,
    };
    let d = &batch.semantic_decisions[k];
    assert(batch@.semantic_decisions[k as int] == d@);
    check_paired_judgment(d, &ca.action.managed_task_ref, &l.managed_task_ref)
}

/// The index of the first conflicting record, if any.
pub open spec fn first_conflict(outcomes: Seq<PersistOutcome>) -> Option<int> {
    if exists|k: int| 0 <= k < outcomes.len() && outcomes[k] == PersistOutcome::Conflict {
        Some(
            choose|k: int|
                0 <= k < outcomes.len() && outcomes[k] == PersistOutcome::Conflict && forall|j: int|
                    0 <= j < k ==> outcomes[j] != PersistOutcome::Conflict,
        )
    } else {
        None
    }
}

fn find_conflict(outcomes: &Vec<PersistOutcome>) -> (idx: Option<usize>)
    ensures
        match idx {
            Some(k) => k < outcomes@.len() && first_conflict(outcomes@) == Some(k as int),
            None => first_conflict(outcomes@) is None,
        },
{
    let mut i: usize = 0;
    while i < outcomes.len()
        invariant
            i <= outcomes@.len(),
            forall|j: int| 0 <= j < i ==> outcomes@[j] != PersistOutcome::Conflict,
        decreases outcomes.len() - i,
    {
        if outcomes[i] == PersistOutcome::Conflict {
            let ghost s = outcomes@;
            let ghost k = choose|k: int|
                0 <= k < s.len() && s[k] == PersistOutcome::Conflict && forall|j: int|
                    0 <= j < k ==> s[j] != PersistOutcome::Conflict;
            assert(0 <= i < s.len() && s[i as int] == PersistOutcome::Conflict);
            assert(k == i as int) by {
                if k > i {
                    assert(s[i as int] != PersistOutcome::Conflict);
                }
            }
            return Some(i);
        }
        i += 1;
    }
    None
}

/// Whether a batch is admitted, with the legacy decision it stands for, or
/// refused, with the error and the task a clarification goes to.
pub enum BundleAdmission {
    Admitted(Option<LegacySemanticDecisionEnvelope>),
    Rejected(FlowError, Option<String>),
}

/// The abstract form of a [`BundleAdmission`].
pub enum BundleAdmissionView {
    Admitted(Option<LegacySemanticDecisionEnvelopeView>),
    Rejected(FlowErrorView, Option<Seq<char>>),
}

impl View for BundleAdmission {
    type V = BundleAdmissionView;

    open spec fn view(&self) -> BundleAdmissionView {
        match self {
            BundleAdmission::Admitted(l) => BundleAdmissionView::Admitted(
                match l {
                    Some(x) => Some(x@),
                    None => None,
                },
            ),
            BundleAdmission::Rejected(e, r) => BundleAdmissionView::Rejected(e@, r.deep_view()),
        }
    }
}

/// The fate of a batch: refused at the first failed check, in the order the
/// legacy fold, the candidate check, the task-change check, the judgments'
/// records and the control action's record are taken; only a failed
/// task-change check asks the known task for a clarification.
pub open spec fn admission_spec(
    batch: SemanticDecisionBatchEnvelopeView,
    outcomes: Seq<PersistOutcome>,
    control_outcome: Option<PersistOutcome>,
) -> BundleAdmissionView {
    match legacy_decision_spec(batch) {
        Err(e) => BundleAdmissionView::Rejected(e, None),
        Ok(legacy) => {
            let unsupported = match legacy {
                Some(l) => supported_candidate_spec(l) is Err,
                None => false,
            };
            if unsupported {
                BundleAdmissionView::Rejected(
                    FlowErrorView::Harness(supported_candidate_spec(legacy->0)->Err_0),
                    None,
                )
            } else {
                match task_change_batch_spec(batch, legacy) {
                    Err(e) => BundleAdmissionView::Rejected(
                        FlowErrorView::Harness(e),
                        known_task_ref_spec(batch, legacy),
                    ),
                    Ok(()) => match first_conflict(outcomes) {
                        Some(k) => BundleAdmissionView::Rejected(
                            FlowErrorView::Harness(
                                LoomHarnessErrorView::ConflictingDecisionRef(
                                    batch.semantic_decisions[k].decision_ref,
                                ),
                            ),
                            None,
                        ),
                        None => if batch.control_action is Some && control_outcome == Some(
                            PersistOutcome::Conflict,
                        ) {
                            BundleAdmissionView::Rejected(
                                FlowErrorView::Harness(
                                    LoomHarnessErrorView::ConflictingDecisionRef(
                                        batch.control_action->0.decision_ref,
                                    ),
                                ),
                                None,
                            )
                        } else {
                            BundleAdmissionView::Admitted(legacy)
                        },
                    },
                }
            }
        },
    }
}

/// Decides whether a batch is admitted. `outcomes` holds, for each judgment
/// in order, what recording it would amount to, and `control_outcome` the
/// same for the control action.
pub fn admit_semantic_bundle(
    batch: &SemanticDecisionBatchEnvelope,
    outcomes: &Vec<PersistOutcome>,
    control_outcome: Option<PersistOutcome>,
) -> (r: BundleAdmission)
    requires
        outcomes@.len() == batch@.semantic_decisions.len(),
    ensures
        r@ == admission_spec(batch@, outcomes@, control_outcome),
{
    let legacy = match build_legacy_decision(batch) {
        Err(e) => {
            return BundleAdmission::Rejected(e, None);
        },
        Ok(legacy) => legacy,
    };
    if let Some(l) = &legacy {
        match ensure_supported_candidate(l) {
            Err(e) => {
                return BundleAdmission::Rejected(FlowError::Harness(e), None);
            },
            Ok(()) => {},
        }
    }
    match validate_request_task_change_batch(batch, legacy.as_ref()) {
        Err(e) => {
            let clarify = known_task_ref_for_clarification(batch, legacy.as_ref());
            return BundleAdmission::Rejected(FlowError::Harness(e), clarify);
        },
        Ok(()) => {},
    }
    match find_conflict(outcomes) {
        Some(k) => {
            let r = batch.semantic_decisions[k].decision_ref.clone();
            assert(batch@.semantic_decisions[k as int] == batch.semantic_decisions[k as int]@);
            return BundleAdmission::Rejected(
                FlowError::Harness(LoomHarnessError::ConflictingDecisionRef(r)),
                None,
            );
        },
        None => {},
    }
    if let Some(ca) = &batch.control_action {
        if control_outcome == Some(PersistOutcome::Conflict) {
            return BundleAdmission::Rejected(
                FlowError::Harness(LoomHarnessError::ConflictingDecisionRef(ca.decision_ref.clone())),
                None,
            );
        }
    }
    BundleAdmission::Admitted(legacy)
}

/// True when at least one judgment was newly recorded.
pub fn any_inserted(outcomes: &Vec<PersistOutcome>) -> (r: bool)
    ensures
        r == outcomes@.contains(PersistOutcome::Inserted),
{
    let mut i: usize = 0;
    while i < outcomes.len()
        invariant
            i <= outcomes@.len(),
            forall|j: int| 0 <= j < i ==> outcomes@[j] != PersistOutcome::Inserted,
        decreases outcomes.len() - i,
    {
        if outcomes[i] == PersistOutcome::Inserted {
            assert(outcomes@[i as int] == PersistOutcome::Inserted);
            return true;
        }
        i += 1;
    }
    false
}

proof fn lemma_fold_records(ds: Seq<SemanticDecisionEnvelopeView>)
    requires
        fold_decisions(ds) is Ok,
    ensures
        fold_decisions(ds)->Ok_0.refs == Seq::new(ds.len(), |k: int| ds[k].decision_ref),
        fold_decisions(ds)->Ok_0.kinds == Seq::new(ds.len(), |k: int| ds[k].decision_kind),
    decreases ds.len(),
{
    if ds.len() > 0 {
        let prev = ds.drop_last();
        lemma_fold_records(prev);
        let f = fold_decisions(prev)->Ok_0;
        let g = fold_decisions(ds)->Ok_0;
        assert(g.refs =~= f.refs.push(ds.last().decision_ref));
        assert(g.refs =~= Seq::new(ds.len(), |k: int| ds[k].decision_ref));
        assert(g.kinds =~= Seq::new(ds.len(), |k: int| ds[k].decision_kind));
    } else {
        assert(fold_decisions(ds)->Ok_0.refs =~= Seq::new(ds.len(), |k: int| ds[k].decision_ref));
        assert(fold_decisions(ds)->Ok_0.kinds =~= Seq::new(ds.len(), |k: int| ds[k].decision_kind));
    }
}

/// A batch in which two judgments share a reference, or two share a kind,
/// is refused.
pub proof fn law_repeated_judgments_are_refused(batch: SemanticDecisionBatchEnvelopeView, i: int, j: int)
    requires
        0 <= i < j < batch.semantic_decisions.len(),
        batch.semantic_decisions[i].decision_ref == batch.semantic_decisions[j].decision_ref
            || batch.semantic_decisions[i].decision_kind == batch.semantic_decisions[j].decision_kind,
    ensures
        legacy_decision_spec(batch) is Err,
{
    let ds = batch.semantic_decisions;
    lemma_fold_take_step(ds, j);
    let before = fold_decisions(ds.take(j));
    if before is Ok {
        lemma_fold_records(ds.take(j));
        let f = before->Ok_0;
        if ds[i].decision_ref == ds[j].decision_ref {
            assert(f.refs[i] == ds[i].decision_ref);
            assert(f.refs.contains(ds[j].decision_ref));
        } else {
            assert(f.kinds[i] == ds[i].decision_kind);
            assert(f.kinds.contains(ds[j].decision_kind));
        }
    }
    assert(fold_decisions(ds.take(j + 1)) is Err);
    lemma_fold_prefix_error(ds, j + 1);
}

/// What an admitted batch goes on to apply: its legacy decision when at
/// least one judgment was newly recorded, its control action when that was
/// newly recorded.
pub struct BundleEffects {
    pub apply_decision: bool,
    pub apply_control_action: bool,
}

/// Whether an admitted batch applies its decision and its control action,
/// given what recording each amounted to.
pub open spec fn bundle_effects_spec(saved: Seq<PersistOutcome>, control_saved: Option<PersistOutcome>) -> (
    bool,
    bool,
) {
    (saved.contains(PersistOutcome::Inserted), control_saved == Some(PersistOutcome::Inserted))
}

/// The effects of an admitted batch, given what recording its judgments
/// and its control action amounted to.
pub fn bundle_effects(saved: &Vec<PersistOutcome>, control_saved: Option<PersistOutcome>) -> (r: BundleEffects)
    ensures
        (r.apply_decision, r.apply_control_action) == bundle_effects_spec(saved@, control_saved),
{
    BundleEffects {
        apply_decision: any_inserted(saved),
        apply_control_action: control_saved == Some(PersistOutcome::Inserted),
    }
}

/// What recording each judgment of a batch amounts to when the store holds
/// `stored` under their references and the batch carries `replayed`.
pub open spec fn replay_outcomes(stored: Seq<Seq<char>>, replayed: Seq<Seq<char>>) -> Seq<PersistOutcome> {
    Seq::new(replayed.len(), |i: int| persist_outcome_spec(Some(stored[i]), replayed[i]))
}

/// The recording outcomes of a batch seen for the first time.
pub open spec fn fresh_outcomes(batch: SemanticDecisionBatchEnvelopeView) -> Seq<PersistOutcome> {
    Seq::new(batch.semantic_decisions.len(), |i: int| PersistOutcome::Inserted)
}

/// The recording outcome of a batch's control action seen for the first time.
pub open spec fn fresh_control(batch: SemanticDecisionBatchEnvelopeView) -> Option<PersistOutcome> {
    match batch.control_action {
        Some(_) => Some(PersistOutcome::Inserted),
        None => None,
    }
}

proof fn lemma_no_conflict(outcomes: Seq<PersistOutcome>)
    requires
        forall|i: int| 0 <= i < outcomes.len() ==> outcomes[i] != PersistOutcome::Conflict,
    ensures
        first_conflict(outcomes) is None,
{
}

/// Replaying a batch changes nothing. When the batch would be admitted as
/// new and its judgments and control action are all stored already with the
/// same payloads, it is admitted with the same decision, and neither the
/// decision nor the control action is applied again.
pub proof fn law_replayed_batches_change_nothing(
    batch: SemanticDecisionBatchEnvelopeView,
    stored: Seq<Seq<char>>,
    control_stored: Option<Seq<char>>,
)
    requires
        stored.len() == batch.semantic_decisions.len(),
        fresh_control(batch) is Some <==> control_stored is Some,
        admission_spec(batch, fresh_outcomes(batch), fresh_control(batch)) is Admitted,
    ensures
        ({
            let control = match control_stored {
                Some(c) => Some(persist_outcome_spec(Some(c), c)),
                None => None,
            };
            &&& admission_spec(batch, replay_outcomes(stored, stored), control) == admission_spec(
                batch,
                fresh_outcomes(batch),
                fresh_control(batch),
            )
            &&& bundle_effects_spec(replay_outcomes(stored, stored), control) == (false, false)
        }),
{
    let outcomes = replay_outcomes(stored, stored);
    assert forall|i: int| 0 <= i < outcomes.len() implies outcomes[i] == PersistOutcome::DuplicateSame by {}
    lemma_no_conflict(outcomes);
    lemma_no_conflict(fresh_outcomes(batch));
    assert(!outcomes.contains(PersistOutcome::Inserted));
}

/// A replayed judgment whose payload changed refuses the batch: when the
/// batch would be admitted as new, and the first judgment whose stored
/// payload differs is at `k`, the batch is refused with a conflict naming
/// that judgment's reference, whatever its control action amounts to.
pub proof fn law_changed_replay_is_refused(
    batch: SemanticDecisionBatchEnvelopeView,
    stored: Seq<Seq<char>>,
    replayed: Seq<Seq<char>>,
    control_outcome: Option<PersistOutcome>,
    k: int,
)
    requires
        stored.len() == batch.semantic_decisions.len(),
        replayed.len() == batch.semantic_decisions.len(),
        admission_spec(batch, fresh_outcomes(batch), fresh_control(batch)) is Admitted,
        0 <= k < replayed.len(),
        stored[k] != replayed[k],
        forall|j: int| 0 <= j < k ==> stored[j] == replayed[j],
    ensures
        admission_spec(batch, replay_outcomes(stored, replayed), control_outcome)
            == BundleAdmissionView::Rejected(
            FlowErrorView::Harness(
                LoomHarnessErrorView::ConflictingDecisionRef(batch.semantic_decisions[k].decision_ref),
            ),
            None,
        ),
{
    let outcomes = replay_outcomes(stored, replayed);
    lemma_no_conflict(fresh_outcomes(batch));
    assert(outcomes[k] == PersistOutcome::Conflict);
    assert forall|j: int| 0 <= j < k implies outcomes[j] != PersistOutcome::Conflict by {}
    let c = choose|m: int|
        0 <= m < outcomes.len() && outcomes[m] == PersistOutcome::Conflict && forall|j: int|
            0 <= j < m ==> outcomes[j] != PersistOutcome::Conflict;
    assert(first_conflict(outcomes) == Some(c));
    if c < k {
        assert(outcomes[c] != PersistOutcome::Conflict);
    } else if c > k {
        assert(outcomes[k] != PersistOutcome::Conflict);
    }
    assert(c == k);
}

} // verus!
