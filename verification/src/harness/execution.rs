//! What the harness makes of a host subagent's lifecycle: the command's
//! progress, the first-round review of a worker's output, and the result
//! records of a finished task.
use crate::harness::error::{FlowError, FlowErrorView};
use crate::harness::support::{
    build_recorder_command, default_pack_ref, host_command_spec, recorder_prompt_spec,
    render_hint_for_result, system_review_group_ref,
};
use crate::model::authorization::{
    AuthorizedDecisionAreaView, DecisionArea, ExecutionAuthorization, ExecutionAuthorizationView,
};
use crate::model::bridge::{HostExecutionCommand, HostExecutionCommandStatus, HostExecutionCommandView};
use crate::model::ids::{is_millis_text, is_minted_id, new_id, now_timestamp};
use crate::model::ingress::{HostSubagentStatus, SubagentEndedPayload, SubagentSpawnedPayload};
use crate::model::outbound::{
    default_render_hint, AcceptanceResult, ProofOfWorkExcerpt, ProofOfWorkExcerptView, ResultOutcome,
    ResultSummaryPayload, ResultSummaryPayloadView,
};
use crate::model::shared::WorkflowStage;
use crate::model::task::{
    AgentBinding, AgentBindingStatus, AgentBindingView, ArtifactManifestItem,
    ArtifactManifestItemView, IsolatedTaskRun, IsolatedTaskRunStatus, IsolatedTaskRunView,
    ManagedTask, ManagedTaskView, NextActionItem, NextActionItemView, ProofEvidenceRef,
    ProofEvidenceRefView, ProofOfWorkBundle, ProofOfWorkBundleView, ResultContract,
    ResultContractView, ReviewResult, ReviewResultView, ReviewSummary, ReviewSummaryView,
    AgentRoleKind, ReviewVerdict,
};
use crate::paths::{artifacts_allowed, artifacts_within_roots};
use crate::text::{
    ascii_lowercase, chars_contain, contains_seq, decimal_digits, is_blank, lowercase_chars, owned,
    push_str, split_chars, split_on, str_is_blank, to_chars, trim_bounds, trim_seq, trim_text,
    u128_to_decimal,
};
use vstd::prelude::*;

verus! {

// ---------------------------------------------------------------------------
// Command progress
// ---------------------------------------------------------------------------

/// A command whose subagent was spawned is running under the host's child
/// references.
pub open spec fn spawned_command(c: HostExecutionCommandView, p: SubagentSpawnedPayload) -> HostExecutionCommandView {
    HostExecutionCommandView {
        status: HostExecutionCommandStatus::Running,
        host_child_execution_ref: Some(p@.host_child_execution_ref),
        host_child_run_ref: p@.host_child_run_ref,
        ..c
    }
}

/// Records that the command's subagent was spawned.
pub fn apply_spawned_event(command: &mut HostExecutionCommand, payload: &SubagentSpawnedPayload)
    ensures
        final(command)@ == spawned_command(old(command)@, *payload),
{
    command.status = HostExecutionCommandStatus::Running;
    command.host_child_execution_ref = Some(payload.host_child_execution_ref.clone());
    command.host_child_run_ref = match &payload.host_child_run_ref {
        Some(r) => Some(r.clone()),
        None => None,
    };
}

/// The command status a subagent's end leaves: completed, or failed for any
/// other ending.
pub open spec fn ended_status(status: HostSubagentStatus) -> HostExecutionCommandStatus {
    match status {
        HostSubagentStatus::Completed => HostExecutionCommandStatus::Completed,
        _ => HostExecutionCommandStatus::Failed,
    }
}

/// The event recorded for a subagent's end.
pub open spec fn ended_event_name(status: HostSubagentStatus) -> Seq<char> {
    match status {
        HostSubagentStatus::Completed => "host_execution_completed"@,
        _ => "host_execution_failed"@,
    }
}

/// The event recorded for a subagent's end.
pub fn ended_event(status: HostSubagentStatus) -> (r: &'static str)
    ensures
        r@ == ended_event_name(status),
{
    match status {
        HostSubagentStatus::Completed => "host_execution_completed",
        _ => "host_execution_failed",
    }
}

/// A command whose subagent ended carries its output, artifacts and end time.
pub open spec fn ended_command(c: HostExecutionCommandView, p: SubagentEndedPayload) -> HostExecutionCommandView {
    HostExecutionCommandView {
        host_child_execution_ref: Some(p@.host_child_execution_ref),
        host_child_run_ref: p@.host_child_run_ref,
        output_summary: Some(p@.output_summary),
        artifact_refs: p@.artifact_refs,
        completed_at: Some(p@.observed_at),
        status: ended_status(p.status),
        ..c
    }
}

/// Records that the command's subagent ended.
pub fn apply_ended_event(command: &mut HostExecutionCommand, payload: &SubagentEndedPayload)
    ensures
        final(command)@ == ended_command(old(command)@, *payload),
{
    command.host_child_execution_ref = Some(payload.host_child_execution_ref.clone());
    command.host_child_run_ref = match &payload.host_child_run_ref {
        Some(r) => Some(r.clone()),
        None => None,
    };
    command.output_summary = Some(payload.output_summary.clone());
    let refs = payload.artifact_refs.clone();
    assert(refs.deep_view() =~= payload.artifact_refs.deep_view());
    command.artifact_refs = refs;
    command.completed_at = Some(payload.observed_at.clone());
    command.status = match payload.status {
        HostSubagentStatus::Completed => HostExecutionCommandStatus::Completed,
        _ => HostExecutionCommandStatus::Failed,
    };
}

// ---------------------------------------------------------------------------
// The roots an authorization grants
// ---------------------------------------------------------------------------

/// The index of the first task-execution area.
#[verifier::opaque]
pub open spec fn first_execution_area(areas: Seq<AuthorizedDecisionAreaView>) -> Option<int> {
    if exists|k: int| 0 <= k < areas.len() && areas[k].decision_area == DecisionArea::TaskExecution {
        Some(
            choose|k: int|
                0 <= k < areas.len() && areas[k].decision_area == DecisionArea::TaskExecution
                    && forall|j: int|
                    0 <= j < k ==> areas[j].decision_area != DecisionArea::TaskExecution,
        )
    } else {
        None
    }
}

/// The roots the first task-execution area grants, readable then writable;
/// none without such an area.
pub open spec fn authorized_roots_spec(auth: ExecutionAuthorizationView) -> Seq<Seq<char>> {
    match first_execution_area(auth.granted_areas) {
        Some(k) => auth.granted_areas[k].readable_roots + auth.granted_areas[k].writable_roots,
        None => Seq::empty(),
    }
}

/// The index of the first task-execution area of an authorization.
pub fn find_execution_area(auth: &ExecutionAuthorization) -> (r: Option<usize>)
    ensures
        match r {
            Some(k) => k < auth@.granted_areas.len() && first_execution_area(auth@.granted_areas)
                == Some(k as int),
            None => first_execution_area(auth@.granted_areas) is None,
        },
{
    let ghost areas = auth@.granted_areas;
    let mut i: usize = 0;
    while i < auth.granted_areas.len()
        invariant
            areas == auth@.granted_areas,
            areas == auth.granted_areas.deep_view(),
            i <= areas.len(),
            forall|j: int| 0 <= j < i ==> areas[j].decision_area != DecisionArea::TaskExecution,
        decreases auth.granted_areas.len() - i,
    {
        assert(areas[i as int] == auth.granted_areas[i as int]@);
        if auth.granted_areas[i].decision_area == DecisionArea::TaskExecution {
            reveal(first_execution_area);
            let ghost k = choose|k: int|
                0 <= k < areas.len() && areas[k].decision_area == DecisionArea::TaskExecution
                    && forall|j: int|
                    0 <= j < k ==> areas[j].decision_area != DecisionArea::TaskExecution;
            assert(0 <= i < areas.len() && areas[i as int].decision_area == DecisionArea::TaskExecution);
            assert(k == i as int) by {
                if k > i {
                    assert(areas[i as int].decision_area != DecisionArea::TaskExecution);
                }
            }
            return Some(i);
        }
        i += 1;
    }
    reveal(first_execution_area);
    None
}

/// The roots the first task-execution area of an authorization grants.
pub fn authorized_roots(auth: &ExecutionAuthorization) -> (r: Vec<String>)
    ensures
        r.deep_view() == authorized_roots_spec(auth@),
{
    match find_execution_area(auth) {
        None => {
            let r: Vec<String> = Vec::new();
            assert(r.deep_view() =~= Seq::<Seq<char>>::empty());
            r
        },
        Some(k) => {
            let area = &auth.granted_areas[k];
            assert(auth@.granted_areas[k as int] == area@);
            let mut r = area.readable_roots.clone();
            let mut w = area.writable_roots.clone();
            assert(r.deep_view() =~= area.readable_roots.deep_view());
            assert(w.deep_view() =~= area.writable_roots.deep_view());
            let ghost rv = r.deep_view();
            let ghost wv = w.deep_view();
            r.append(&mut w);
            assert(r.deep_view() =~= rv + wv);
            r
        },
    }
}

/// Whether every artifact path lies under the roots the authorization grants.
pub fn artifact_refs_within_authorized_roots(refs: &Vec<String>, auth: &ExecutionAuthorization) -> (r:
    bool)
    ensures
        r == artifacts_within_roots(refs.deep_view(), authorized_roots_spec(auth@)),
{
    let roots = authorized_roots(auth);
    artifacts_allowed(refs, &roots)
}

// ---------------------------------------------------------------------------
// First-round review
// ---------------------------------------------------------------------------

/// The worker's output mentions its verification, in any letter case.
pub open spec fn mentions_verification(output: Seq<char>) -> bool {
    contains_seq(ascii_lowercase(trim_seq(output)), "verification"@)
}

/// The findings of a review, in the order they are checked.
pub open spec fn review_findings(output: Seq<char>, escaped: bool, scope_changed: bool) -> Seq<Seq<char>> {
    (if trim_seq(output).len() == 0 {
        seq!["worker returned empty output"@]
    } else {
        Seq::empty()
    }) + (if !mentions_verification(output) {
        seq!["worker output is missing the required Verification section"@]
    } else {
        Seq::empty()
    }) + (if escaped {
        seq!["worker artifacts escaped authorized roots"@]
    } else {
        Seq::empty()
    }) + (if scope_changed {
        seq!["task scope changed while worker result was in flight"@]
    } else {
        Seq::empty()
    })
}

/// A subagent that did not complete, or work that left its roots or outran
/// its scope, blocks; no findings approve; other findings ask for rework.
pub open spec fn review_verdict_spec(
    status: HostSubagentStatus,
    output: Seq<char>,
    escaped: bool,
    scope_changed: bool,
) -> ReviewVerdict {
    if status != HostSubagentStatus::Completed {
        ReviewVerdict::Blocked
    } else if escaped || scope_changed {
        ReviewVerdict::Blocked
    } else if review_findings(output, escaped, scope_changed).len() == 0 {
        ReviewVerdict::Approved
    } else {
        ReviewVerdict::ReworkRequired
    }
}

/// The summary line of a review verdict.
pub open spec fn review_summary_text(verdict: ReviewVerdict) -> Seq<char> {
    match verdict {
        ReviewVerdict::Approved => "Worker output passed the first-round review gate."@,
        ReviewVerdict::ReworkRequired => "Worker output needs another execute pass before delivery."@,
        ReviewVerdict::Blocked => "Worker output could not be accepted because execution drifted outside the approved gate."@,
    }
}

/// Each reference listed under one label.
pub open spec fn labeled_items(refs: Seq<Seq<char>>, label: Seq<char>) -> Seq<ArtifactManifestItemView> {
    Seq::new(refs.len(), |i: int| ArtifactManifestItemView { label, reference: refs[i] })
}

/// The review of a worker's end, given the review's identifier and time.
pub open spec fn review_result_spec(
    task: ManagedTaskView,
    run: IsolatedTaskRunView,
    command: HostExecutionCommandView,
    payload: SubagentEndedPayload,
    auth: ExecutionAuthorizationView,
    review_result_id: Seq<char>,
    reviewed_at: Seq<char>,
) -> ReviewResultView {
    let output = payload@.output_summary;
    let escaped = !artifacts_within_roots(payload@.artifact_refs, authorized_roots_spec(auth));
    let scope_changed = task.current_scope_ref != Some(task.spec_bundle->0.task_scope_ref);
    let findings = review_findings(output, escaped, scope_changed);
    let verdict = review_verdict_spec(payload.status, output, escaped, scope_changed);
    ReviewResultView {
        review_result_id,
        managed_task_ref: task.managed_task_ref,
        run_ref: run.run_ref,
        reviewer_group_ref: system_review_group_ref(),
        review_verdict: verdict,
        findings,
        review_artifacts: labeled_items(command.artifact_refs, "worker_artifact"@),
        summary: ReviewSummaryView {
            review_verdict: verdict,
            summary: review_summary_text(verdict),
            key_findings: findings,
            follow_up_required: payload.status != HostSubagentStatus::Completed
                || !mentions_verification(output),
        },
        reviewed_at,
    }
}

/// The failure of a flow that needs the task's spec bundle.
pub open spec fn missing_spec_bundle(task_ref: Seq<char>) -> FlowErrorView {
    FlowErrorView::Other("spec bundle missing for task "@ + task_ref)
}

fn push_text(v: &mut Vec<String>, s: &str)
    ensures
        final(v).deep_view() == old(v).deep_view().push(s@),
{
    let ghost prev = v.deep_view();
    v.push(owned(s));
    assert(v.deep_view() =~= prev.push(s@));
}

fn labeled_items_exec(refs: &Vec<String>, label: &str) -> (r: Vec<ArtifactManifestItem>)
    ensures
        r.deep_view() == labeled_items(refs.deep_view(), label@),
{
    let ghost fv = refs.deep_view();
    let mut r: Vec<ArtifactManifestItem> = Vec::new();
    let mut i: usize = 0;
    while i < refs.len()
        invariant
            fv == refs.deep_view(),
            i <= fv.len(),
            r.deep_view() == labeled_items(fv.take(i as int), label@),
        decreases refs.len() - i,
    {
        let ghost prev = r.deep_view();
        r.push(ArtifactManifestItem { label: owned(label), reference: refs[i].clone() });
        assert(fv[i as int] == refs[i as int]@);
        let ghost item = ArtifactManifestItemView { label: label@, reference: fv[i as int] };
        assert(r.deep_view() =~= prev.push(item));
        assert(labeled_items(fv.take(i + 1), label@) =~= labeled_items(fv.take(i as int), label@).push(item));
        i += 1;
    }
    assert(fv.take(fv.len() as int) =~= fv);
    r
}

/// Whether the worker's output mentions its verification.
pub fn output_mentions_verification(output: &str) -> (r: bool)
    ensures
        r == mentions_verification(output@),
{
    let v = to_chars(output);
    let (a, b) = trim_bounds(&v);
    let mut t: Vec<char> = Vec::new();
    let mut i: usize = a;
    while i < b
        invariant
            a <= i <= b <= v@.len(),
            t@ == v@.subrange(a as int, i as int),
        decreases b - i,
    {
        t.push(v[i]);
        i += 1;
        assert(t@ =~= v@.subrange(a as int, i as int));
    }
    let lower = lowercase_chars(&t);
    let needle = to_chars("verification");
    chars_contain(&lower, &needle)
}

/// Reviews a worker's end: its output must not be empty and must report its
/// verification, its artifacts must stay under the authorized roots, and the
/// task's scope must not have moved while it ran. Fails when the task has no
/// spec bundle.
pub fn build_review_result(
    task: &ManagedTask,
    run: &IsolatedTaskRun,
    command: &HostExecutionCommand,
    payload: &SubagentEndedPayload,
    auth: &ExecutionAuthorization,
) -> (r: Result<ReviewResult, FlowError>)
    ensures
        task@.spec_bundle is None ==> (r matches Err(e) && e@ == missing_spec_bundle(
            task@.managed_task_ref,
        )),
        task@.spec_bundle is Some ==> (r matches Ok(review) && review@ == review_result_spec(
            task@,
            run@,
            command@,
            *payload,
            auth@,
            review@.review_result_id,
            review@.reviewed_at,
        ) && is_minted_id(review@.review_result_id, "review"@) && is_millis_text(
            review@.reviewed_at,
        )),
{
    let spec = match &task.spec_bundle {
        None => {
            let mut m = owned("spec bundle missing for task ");
            push_str(&mut m, task.managed_task_ref.as_str());
            return Err(FlowError::Other(m));
        },
        Some(s) => s,
    };
    let output = payload.output_summary.as_str();
    let empty = str_is_blank(output);
    proof {
        crate::text::lemma_blank_trims_to_empty(output@);
    }
    let verified = output_mentions_verification(output);
    let escaped = !artifact_refs_within_authorized_roots(&payload.artifact_refs, auth);
    let scope_changed = match &task.current_scope_ref {
        Some(s) => !crate::text::str_eq(s.as_str(), spec.task_scope_ref.as_str()),
        None => true,
    };
    let mut findings: Vec<String> = Vec::new();
    if empty {
        push_text(&mut findings, "worker returned empty output");
    }
    if !verified {
        push_text(&mut findings, "worker output is missing the required Verification section");
    }
    if escaped {
        push_text(&mut findings, "worker artifacts escaped authorized roots");
    }
    if scope_changed {
        push_text(&mut findings, "task scope changed while worker result was in flight");
    }
    let ghost expected = review_findings(payload@.output_summary, escaped, scope_changed);
    assert(findings.deep_view() =~= expected);
    let verdict = if payload.status != HostSubagentStatus::Completed {
        ReviewVerdict::Blocked
    } else if escaped || scope_changed {
        ReviewVerdict::Blocked
    } else if findings.len() == 0 {
        ReviewVerdict::Approved
    } else {
        ReviewVerdict::ReworkRequired
    };
    let summary_text = match verdict {
        ReviewVerdict::Approved => owned("Worker output passed the first-round review gate."),
        ReviewVerdict::ReworkRequired => owned("Worker output needs another execute pass before delivery."),
        ReviewVerdict::Blocked => owned(
            "Worker output could not be accepted because execution drifted outside the approved gate.",
        ),
    };
    let key_findings = findings.clone();
    assert(key_findings.deep_view() =~= findings.deep_view());
    let review = ReviewResult {
        review_result_id: new_id("review"),
        managed_task_ref: task.managed_task_ref.clone(),
        run_ref: run.run_ref.clone(),
        reviewer_group_ref: owned("system.review.v0"),
        review_verdict: verdict,
        findings,
        review_artifacts: labeled_items_exec(&command.artifact_refs, "worker_artifact"),
        summary: ReviewSummary {
            review_verdict: verdict,
            summary: summary_text,
            key_findings,
            follow_up_required: payload.status != HostSubagentStatus::Completed || !verified,
        },
        reviewed_at: now_timestamp(),
    };
    proof {
        reveal_strlit("system.review.v0");
    }
    Ok(review)
}

// ---------------------------------------------------------------------------
// Result records
// ---------------------------------------------------------------------------

/// The outcome a review verdict leads to.
pub open spec fn review_outcome_spec(verdict: ReviewVerdict) -> ResultOutcome {
    match verdict {
        ReviewVerdict::Approved => ResultOutcome::Completed,
        ReviewVerdict::ReworkRequired => ResultOutcome::ReworkRequired,
        ReviewVerdict::Blocked => ResultOutcome::Blocked,
    }
}

/// The outcome a review verdict leads to.
pub fn review_outcome(verdict: ReviewVerdict) -> (r: ResultOutcome)
    ensures
        r == review_outcome_spec(verdict),
{
    match verdict {
        ReviewVerdict::Approved => ResultOutcome::Completed,
        ReviewVerdict::ReworkRequired => ResultOutcome::ReworkRequired,
        ReviewVerdict::Blocked => ResultOutcome::Blocked,
    }
}

/// The acceptance a review verdict leads to.
pub open spec fn review_acceptance_spec(verdict: ReviewVerdict) -> AcceptanceResult {
    match verdict {
        ReviewVerdict::Approved => AcceptanceResult::Accepted,
        ReviewVerdict::ReworkRequired => AcceptanceResult::ReworkRequired,
        ReviewVerdict::Blocked => AcceptanceResult::EscalatedToUser,
    }
}

/// The acceptance a review verdict leads to.
pub fn review_acceptance(verdict: ReviewVerdict) -> (r: AcceptanceResult)
    ensures
        r == review_acceptance_spec(verdict),
{
    match verdict {
        ReviewVerdict::Approved => AcceptanceResult::Accepted,
        ReviewVerdict::ReworkRequired => AcceptanceResult::ReworkRequired,
        ReviewVerdict::Blocked => AcceptanceResult::EscalatedToUser,
    }
}

/// The acceptance an outcome carries.
pub open spec fn outcome_acceptance_spec(outcome: ResultOutcome) -> AcceptanceResult {
    match outcome {
        ResultOutcome::Completed => AcceptanceResult::Accepted,
        ResultOutcome::ReworkRequired => AcceptanceResult::ReworkRequired,
        ResultOutcome::Blocked => AcceptanceResult::EscalatedToUser,
    }
}

/// The acceptance an outcome carries.
pub fn outcome_acceptance(outcome: ResultOutcome) -> (r: AcceptanceResult)
    ensures
        r == outcome_acceptance_spec(outcome),
{
    match outcome {
        ResultOutcome::Completed => AcceptanceResult::Accepted,
        ResultOutcome::ReworkRequired => AcceptanceResult::ReworkRequired,
        ResultOutcome::Blocked => AcceptanceResult::EscalatedToUser,
    }
}

/// The outcome of a recorder's end: completed, or blocked for any other
/// ending.
pub open spec fn recorder_outcome_spec(status: HostSubagentStatus) -> ResultOutcome {
    match status {
        HostSubagentStatus::Completed => ResultOutcome::Completed,
        _ => ResultOutcome::Blocked,
    }
}

/// The outcome of a recorder's end.
pub fn recorder_outcome(status: HostSubagentStatus) -> (r: ResultOutcome)
    ensures
        r == recorder_outcome_spec(status),
{
    match status {
        HostSubagentStatus::Completed => ResultOutcome::Completed,
        _ => ResultOutcome::Blocked,
    }
}

/// The summary of a recorder's result: its output when that is not blank,
/// else the review's summary.
pub open spec fn recorder_summary_spec(output: Option<Seq<char>>, review_summary: Seq<char>) -> Seq<char> {
    match output {
        Some(o) => if !is_blank(o) {
            o
        } else {
            review_summary
        },
        None => review_summary,
    }
}

/// The summary of a recorder's result.
pub fn recorder_summary(output: &Option<String>, review: &ReviewResult) -> (r: String)
    ensures
        r@ == recorder_summary_spec(output.deep_view(), review@.summary.summary),
{
    match output {
        Some(o) => if !str_is_blank(o.as_str()) {
            o.clone()
        } else {
            review.summary.summary.clone()
        },
        None => review.summary.summary.clone(),
    }
}

/// Why the result was accepted as it was.
pub open spec fn acceptance_basis_spec(outcome: ResultOutcome, review: ReviewResultView) -> Seq<Seq<char>> {
    match outcome {
        ResultOutcome::Completed => seq![
            "Review approved the worker execution."@,
            "Recorder produced a deliverable summary."@,
            review.summary.summary,
        ],
        ResultOutcome::ReworkRequired => seq![
            "Review found gaps that require another execute pass."@,
            review.summary.summary,
        ],
        ResultOutcome::Blocked => seq![
            "Execution could not remain inside the first-round closed loop."@,
            review.summary.summary,
        ],
    }
}

/// Why the result was accepted as it was.
pub fn acceptance_basis_for_outcome(outcome: ResultOutcome, review: &ReviewResult) -> (r: Vec<String>)
    ensures
        r.deep_view() == acceptance_basis_spec(outcome, review@),
{
    let mut r: Vec<String> = Vec::new();
    match outcome {
        ResultOutcome::Completed => {
            push_text(&mut r, "Review approved the worker execution.");
            push_text(&mut r, "Recorder produced a deliverable summary.");
        },
        ResultOutcome::ReworkRequired => {
            push_text(&mut r, "Review found gaps that require another execute pass.");
        },
        ResultOutcome::Blocked => {
            push_text(&mut r, "Execution could not remain inside the first-round closed loop.");
        },
    }
    let ghost prev = r.deep_view();
    r.push(review.summary.summary.clone());
    assert(r.deep_view() =~= prev.push(review@.summary.summary));
    assert(r.deep_view() =~= acceptance_basis_spec(outcome, review@));
    r
}

/// The first finding of a review, or a fallback text.
pub open spec fn first_finding_or(review: ReviewResultView, fallback: Seq<char>) -> Seq<char> {
    if review.findings.len() > 0 {
        review.findings[0]
    } else {
        fallback
    }
}

/// What the user is asked to do next.
pub open spec fn next_actions_spec(outcome: ResultOutcome, review: ReviewResultView) -> Seq<NextActionItemView> {
    match outcome {
        ResultOutcome::Completed => seq![
            NextActionItemView {
                title: "Verify delivered summary"@,
                details: "Confirm the WebUI result summary and artifact list match the task intent."@,
            },
        ],
        ResultOutcome::ReworkRequired => seq![
            NextActionItemView {
                title: "Schedule rework"@,
                details: first_finding_or(review, "Review requested another execute pass."@),
            },
        ],
        ResultOutcome::Blocked => seq![
            NextActionItemView {
                title: "Inspect blocked execution"@,
                details: first_finding_or(review, "Bridge or scope state prevented delivery."@),
            },
        ],
    }
}

fn first_finding_text(review: &ReviewResult, fallback: &str) -> (r: String)
    ensures
        r@ == first_finding_or(review@, fallback@),
{
    if review.findings.len() > 0 {
        assert(review@.findings[0] == review.findings[0]@);
        review.findings[0].clone()
    } else {
        owned(fallback)
    }
}

/// What the user is asked to do next.
pub fn next_actions_for_outcome(outcome: ResultOutcome, review: &ReviewResult) -> (r: Vec<NextActionItem>)
    ensures
        r.deep_view() == next_actions_spec(outcome, review@),
{
    let item = match outcome {
        ResultOutcome::Completed => NextActionItem {
            title: owned("Verify delivered summary"),
            details: owned("Confirm the WebUI result summary and artifact list match the task intent."),
        },
        ResultOutcome::ReworkRequired => NextActionItem {
            title: owned("Schedule rework"),
            details: first_finding_text(review, "Review requested another execute pass."),
        },
        ResultOutcome::Blocked => NextActionItem {
            title: owned("Inspect blocked execution"),
            details: first_finding_text(review, "Bridge or scope state prevented delivery."),
        },
    };
    let mut r: Vec<NextActionItem> = Vec::new();
    r.push(item);
    assert(r.deep_view() =~= next_actions_spec(outcome, review@));
    r
}

/// The index of the first line that is not blank.
#[verifier::opaque]
pub open spec fn first_nonblank(lines: Seq<Seq<char>>) -> Option<int> {
    if exists|k: int| 0 <= k < lines.len() && !is_blank(#[trigger] lines[k]) {
        Some(
            choose|k: int|
                0 <= k < lines.len() && !is_blank(#[trigger] lines[k]) && forall|j: int|
                    0 <= j < k ==> is_blank(#[trigger] lines[j]),
        )
    } else {
        None
    }
}

/// The first non-blank line of a text, or the whole text when every line is
/// blank.
pub open spec fn primary_line(text: Seq<char>) -> Seq<char> {
    let lines = split_on(text, '\n');
    match first_nonblank(lines) {
        Some(k) => lines[k],
        None => text,
    }
}

/// The key outcomes of a result: the summary's first non-blank line, trimmed,
/// then the task's expected outcome.
pub open spec fn key_outcomes_spec(summary: Seq<char>, expected_outcome: Seq<char>) -> Seq<Seq<char>> {
    seq![trim_seq(primary_line(summary)), expected_outcome]
}

fn primary_line_text(text: &str) -> (r: String)
    ensures
        r@ == primary_line(text@),
{
    let lines = split_chars(&to_chars(text), '\n');
    let ghost lv = lines.deep_view();
    let mut i: usize = 0;
    while i < lines.len()
        invariant
            lv == lines.deep_view(),
            lv == split_on(text@, '\n'),
            i <= lv.len(),
            forall|j: int| 0 <= j < i ==> is_blank(#[trigger] lv[j]),
        decreases lines.len() - i,
    {
        assert(lv[i as int] == lines[i as int]@) by {
            assert(lines[i as int].deep_view() =~= lines[i as int]@);
        }
        if !crate::text::chars_blank(&lines[i]) {
            proof {
                reveal(first_nonblank);
                let k = choose|k: int|
                    0 <= k < lv.len() && !is_blank(#[trigger] lv[k]) && forall|j: int|
                        0 <= j < k ==> is_blank(#[trigger] lv[j]);
                assert(0 <= i < lv.len() && !is_blank(lv[i as int]));
                assert(k == i as int) by {
                    if k > i {
                        assert(is_blank(lv[i as int]));
                    }
                }
            }
            return crate::text::chars_to_string(&lines[i]);
        }
        i += 1;
    }
    proof {
        reveal(first_nonblank);
    }
    owned(text)
}

/// The key outcomes of a result.
pub fn build_key_outcomes(summary: &str, task: &ManagedTask) -> (r: Vec<String>)
    ensures
        r.deep_view() == key_outcomes_spec(summary@, task@.expected_outcome),
{
    let line = primary_line_text(summary);
    let mut r: Vec<String> = Vec::new();
    r.push(trim_text(line.as_str()));
    r.push(task.expected_outcome.clone());
    assert(r.deep_view() =~= key_outcomes_spec(summary@, task@.expected_outcome));
    r
}

/// The proof of work of a result, given its identifier and time.
pub open spec fn proof_of_work_spec(
    task: ManagedTaskView,
    run: IsolatedTaskRunView,
    summary_text: Seq<char>,
    artifact_refs: Seq<Seq<char>>,
    review: ReviewResultView,
    outcome: ResultOutcome,
    acceptance: AcceptanceResult,
    proof_of_work_id: Seq<char>,
    accepted_at: Seq<char>,
) -> ProofOfWorkBundleView {
    ProofOfWorkBundleView {
        proof_of_work_id,
        managed_task_ref: task.managed_task_ref,
        run_ref: run.run_ref,
        acceptance_verdict: acceptance,
        acceptance_basis: acceptance_basis_spec(outcome, review),
        accepted_by_ref: system_review_group_ref(),
        accepted_at,
        accepted_scope_version: result_scope_version(task),
        review_summary: review.summary,
        artifact_manifest: labeled_items(artifact_refs, "artifact"@),
        evidence_refs: seq![
            ProofEvidenceRefView { label: "run_ref"@, reference: run.run_ref },
            ProofEvidenceRefView { label: "review_result"@, reference: review.review_result_id },
        ],
        run_summary: summary_text,
    }
}

/// The scope version a result is delivered under: the task's current one,
/// else the first.
pub open spec fn result_scope_version(task: ManagedTaskView) -> u32 {
    match task.current_scope_version {
        Some(v) => v,
        None => 1,
    }
}

/// The result contract, given its identifier and time and the proof of work.
pub open spec fn result_contract_spec(
    task: ManagedTaskView,
    summary_text: Seq<char>,
    review: ReviewResultView,
    outcome: ResultOutcome,
    acceptance: AcceptanceResult,
    proof: ProofOfWorkBundleView,
    result_contract_id: Seq<char>,
    created_at: Seq<char>,
) -> ResultContractView {
    ResultContractView {
        result_contract_id,
        managed_task_ref: task.managed_task_ref,
        pack_ref: Some(default_pack_ref()),
        outcome,
        acceptance_verdict: acceptance,
        final_scope_version: result_scope_version(task),
        scope_revision_summary: Some("scope_version="@ + decimal_digits(result_scope_version(task) as nat)),
        summary: summary_text,
        key_outcomes: key_outcomes_spec(summary_text, task.expected_outcome),
        proof_of_work: proof,
        next_actions: next_actions_spec(outcome, review),
        created_at,
    }
}

/// The result summary shown to the user.
pub open spec fn result_summary_spec(contract: ResultContractView) -> ResultSummaryPayloadView {
    ResultSummaryPayloadView {
        managed_task_ref: contract.managed_task_ref,
        outcome: contract.outcome,
        acceptance_verdict: contract.acceptance_verdict,
        summary: contract.summary,
        final_scope_version: contract.final_scope_version,
        scope_revision_headline: contract.scope_revision_summary,
        proof_of_work_excerpt: ProofOfWorkExcerptView {
            run_summary: contract.proof_of_work.run_summary,
            evidence_refs: contract.proof_of_work.evidence_refs,
            review_summary: Some(contract.proof_of_work.review_summary),
            artifact_manifest_excerpt: contract.proof_of_work.artifact_manifest,
            acceptance_basis_excerpt: contract.proof_of_work.acceptance_basis,
        },
        next_actions_excerpt: contract.next_actions,
        render_hint: default_render_hint(),
    }
}

/// The records a finished task leaves, for the caller to store and send.
pub struct TaskResult {
    pub proof: ProofOfWorkBundle,
    pub contract: ResultContract,
    pub review: ReviewResult,
    pub summary: ResultSummaryPayload,
}

/// The task once its result is recorded.
pub open spec fn finished_task(
    task: ManagedTaskView,
    binding: AgentBindingView,
    review: ReviewResultView,
    proof: ProofOfWorkBundleView,
    contract: ResultContractView,
    updated_at: Seq<char>,
) -> ManagedTaskView {
    ManagedTaskView {
        workflow_stage: WorkflowStage::Result,
        review_result: Some(review),
        proof_of_work_bundle: Some(proof),
        result_contract: Some(contract),
        agent_binding: Some(AgentBindingView { status: AgentBindingStatus::Closed, ..binding }),
        updated_at,
        ..task
    }
}

/// Records a task's result: the proof of work, the result contract and the
/// summary for the user; the task moves to its result stage with its binding
/// closed, and the run to its result status.
pub fn finalize_task_result(
    task: &mut ManagedTask,
    run: &mut IsolatedTaskRun,
    binding: &AgentBinding,
    summary_text: String,
    artifact_refs: Vec<String>,
    review: ReviewResult,
    outcome: ResultOutcome,
    acceptance: AcceptanceResult,
) -> (r: TaskResult)
    ensures
        r.proof@ == proof_of_work_spec(
            old(task)@,
            old(run)@,
            summary_text@,
            artifact_refs.deep_view(),
            review@,
            outcome,
            acceptance,
            r.proof@.proof_of_work_id,
            r.proof@.accepted_at,
        ),
        is_minted_id(r.proof@.proof_of_work_id, "proof"@),
        is_millis_text(r.proof@.accepted_at),
        r.contract@ == result_contract_spec(
            old(task)@,
            summary_text@,
            review@,
            outcome,
            acceptance,
            r.proof@,
            r.contract@.result_contract_id,
            r.contract@.created_at,
        ),
        is_minted_id(r.contract@.result_contract_id, "result"@),
        is_millis_text(r.contract@.created_at),
        r.review@ == review@,
        r.summary@ == result_summary_spec(r.contract@),
        final(task)@ == finished_task(old(task)@, binding@, review@, r.proof@, r.contract@, final(task)@.updated_at),
        is_millis_text(final(task)@.updated_at),
        final(run)@ == (IsolatedTaskRunView {
            status: IsolatedTaskRunStatus::Result,
            updated_at: final(run)@.updated_at,
            ..old(run)@
        }),
        is_millis_text(final(run)@.updated_at),
{
    let scope_version: u32 = match task.current_scope_version {
        Some(v) => v,
        None => 1,
    };
    let manifest = labeled_items_exec(&artifact_refs, "artifact");
    let mut evidence: Vec<ProofEvidenceRef> = Vec::new();
    evidence.push(ProofEvidenceRef { label: owned("run_ref"), reference: run.run_ref.clone() });
    evidence.push(
        ProofEvidenceRef { label: owned("review_result"), reference: review.review_result_id.clone() },
    );
    let proof = ProofOfWorkBundle {
        proof_of_work_id: new_id("proof"),
        managed_task_ref: task.managed_task_ref.clone(),
        run_ref: run.run_ref.clone(),
        acceptance_verdict: acceptance,
        acceptance_basis: acceptance_basis_for_outcome(outcome, &review),
        accepted_by_ref: owned("system.review.v0"),
        accepted_at: now_timestamp(),
        accepted_scope_version: scope_version,
        review_summary: review.summary.clone(),
        artifact_manifest: manifest,
        evidence_refs: evidence,
        run_summary: summary_text.clone(),
    };
    proof {
        reveal_strlit("system.review.v0");
        assert(proof@.evidence_refs =~= seq![
            ProofEvidenceRefView { label: "run_ref"@, reference: old(run)@.run_ref },
            ProofEvidenceRefView { label: "review_result"@, reference: review@.review_result_id },
        ]);
    }
    let mut revision = owned("scope_version=");
    let digits = u128_to_decimal(scope_version as u128);
    push_str(&mut revision, digits.as_str());
    let contract = ResultContract {
        result_contract_id: new_id("result"),
        managed_task_ref: task.managed_task_ref.clone(),
        pack_ref: Some(owned("coding_pack")),
        outcome,
        acceptance_verdict: acceptance,
        final_scope_version: scope_version,
        scope_revision_summary: Some(revision),
        summary: summary_text.clone(),
        key_outcomes: build_key_outcomes(summary_text.as_str(), task),
        proof_of_work: proof.clone(),
        next_actions: next_actions_for_outcome(outcome, &review),
        created_at: now_timestamp(),
    };
    proof {
        reveal_strlit("coding_pack");
    }
    let evidence_copy = proof.evidence_refs.clone();
    assert(evidence_copy.deep_view() =~= proof.evidence_refs.deep_view());
    let manifest_copy = proof.artifact_manifest.clone();
    assert(manifest_copy.deep_view() =~= proof.artifact_manifest.deep_view());
    let basis_copy = proof.acceptance_basis.clone();
    assert(basis_copy.deep_view() =~= proof.acceptance_basis.deep_view());
    let actions_copy = contract.next_actions.clone();
    assert(actions_copy.deep_view() =~= contract.next_actions.deep_view());
    let summary = ResultSummaryPayload {
        managed_task_ref: task.managed_task_ref.clone(),
        outcome,
        acceptance_verdict: acceptance,
        summary: contract.summary.clone(),
        final_scope_version: contract.final_scope_version,
        scope_revision_headline: match &contract.scope_revision_summary {
            Some(s) => Some(s.clone()),
            None => None,
        },
        proof_of_work_excerpt: ProofOfWorkExcerpt {
            run_summary: proof.run_summary.clone(),
            evidence_refs: evidence_copy,
            review_summary: Some(proof.review_summary.clone()),
            artifact_manifest_excerpt: manifest_copy,
            acceptance_basis_excerpt: basis_copy,
        },
        next_actions_excerpt: actions_copy,
        render_hint: render_hint_for_result(),
    };
    let mut closed = binding.clone();
    closed.status = AgentBindingStatus::Closed;
    task.workflow_stage = WorkflowStage::Result;
    task.review_result = Some(review.clone());
    task.proof_of_work_bundle = Some(proof.clone());
    task.result_contract = Some(contract.clone());
    task.agent_binding = Some(closed);
    task.updated_at = now_timestamp();
    run.status = IsolatedTaskRunStatus::Result;
    run.updated_at = now_timestamp();
    TaskResult { proof, contract, review, summary }
}

// ---------------------------------------------------------------------------
// Finishing a worker or a recorder
// ---------------------------------------------------------------------------

/// What follows a worker's review: the recorder is dispatched, or the task
/// ends with its result.
pub enum WorkerFollowUp {
    Recorder(HostExecutionCommand),
    Finished(TaskResult),
}

/// The review of a worker's end and what follows it.
pub struct WorkerFinish {
    pub review: ReviewResult,
    pub follow_up: WorkerFollowUp,
}

/// The worker output handed to the recorder.
pub open spec fn worker_output_text(command: HostExecutionCommandView) -> Seq<char> {
    match command.output_summary {
        Some(o) => o,
        None => Seq::empty(),
    }
}

/// Reviews a worker's end. The task moves to review; an approved review
/// dispatches the recorder, any other ends the task with the review's
/// outcome. Fails when the task has no spec bundle.
pub fn finish_worker_execution(
    task: &mut ManagedTask,
    run: &mut IsolatedTaskRun,
    command: &HostExecutionCommand,
    payload: &SubagentEndedPayload,
    binding: &AgentBinding,
    auth: &ExecutionAuthorization,
) -> (r: Result<WorkerFinish, FlowError>)
    ensures
        old(task)@.spec_bundle is None ==> (r matches Err(e) && e@ == missing_spec_bundle(
            old(task)@.managed_task_ref,
        )),
        old(task)@.spec_bundle is Some ==> (r matches Ok(f) && {
            let review = f.review@;
            &&& review == review_result_spec(
                old(task)@,
                old(run)@,
                command@,
                *payload,
                auth@,
                review.review_result_id,
                review.reviewed_at,
            )
            &&& is_minted_id(review.review_result_id, "review"@)
            &&& is_millis_text(review.reviewed_at)
            &&& review.review_verdict == ReviewVerdict::Approved ==> (f.follow_up matches WorkerFollowUp::Recorder(c) && {
                &&& c@ == host_command_spec(
                    old(task)@,
                    old(run)@.run_ref,
                    binding@,
                    AgentRoleKind::Recorder,
                    recorder_prompt_spec(
                        old(task)@,
                        old(task)@.spec_bundle->0,
                        worker_output_text(command@),
                        review,
                    ),
                    "loom-recorder-"@ + old(task)@.managed_task_ref,
                    c@.command_id,
                    c@.issued_at,
                )
                &&& final(task)@ == (ManagedTaskView {
                    workflow_stage: WorkflowStage::Review,
                    review_result: Some(review),
                    updated_at: final(task)@.updated_at,
                    ..old(task)@
                })
                &&& final(run)@ == (IsolatedTaskRunView {
                    status: IsolatedTaskRunStatus::Review,
                    updated_at: final(run)@.updated_at,
                    ..old(run)@
                })
            })
            &&& review.review_verdict != ReviewVerdict::Approved ==> (f.follow_up matches WorkerFollowUp::Finished(res) && {
                let outcome = review_outcome_spec(review.review_verdict);
                let acceptance = review_acceptance_spec(review.review_verdict);
                &&& res.proof@ == proof_of_work_spec(
                    old(task)@,
                    old(run)@,
                    review.summary.summary,
                    command@.artifact_refs,
                    review,
                    outcome,
                    acceptance,
                    res.proof@.proof_of_work_id,
                    res.proof@.accepted_at,
                )
                &&& res.contract@ == result_contract_spec(
                    old(task)@,
                    review.summary.summary,
                    review,
                    outcome,
                    acceptance,
                    res.proof@,
                    res.contract@.result_contract_id,
                    res.contract@.created_at,
                )
                &&& res.review@ == review
                &&& res.summary@ == result_summary_spec(res.contract@)
                &&& final(task)@ == finished_task(
                    old(task)@,
                    binding@,
                    review,
                    res.proof@,
                    res.contract@,
                    final(task)@.updated_at,
                )
                &&& final(run)@ == (IsolatedTaskRunView {
                    status: IsolatedTaskRunStatus::Result,
                    updated_at: final(run)@.updated_at,
                    ..old(run)@
                })
            })
        }),
{
    task.workflow_stage = WorkflowStage::Review;
    task.updated_at = now_timestamp();
    run.status = IsolatedTaskRunStatus::Review;
    run.updated_at = now_timestamp();
    let review = match build_review_result(task, run, command, payload, auth) {
        Err(e) => {
            return Err(e);
        },
        Ok(review) => review,
    };
    task.review_result = Some(review.clone());
    if review.review_verdict == ReviewVerdict::Approved {
        let spec = match &task.spec_bundle {
            Some(s) => s.clone(),
            None => {
                return Err(FlowError::Other(owned("spec bundle missing for task")));
            },
        };
        let output = match &command.output_summary {
            Some(o) => o.clone(),
            None => String::new(),
        };
        let recorder = build_recorder_command(task, run.run_ref.as_str(), binding, &spec, output.as_str(), &review);
        return Ok(WorkerFinish { review, follow_up: WorkerFollowUp::Recorder(recorder) });
    }
    let outcome = review_outcome(review.review_verdict);
    let acceptance = review_acceptance(review.review_verdict);
    let summary_text = review.summary.summary.clone();
    let refs = command.artifact_refs.clone();
    assert(refs.deep_view() =~= command.artifact_refs.deep_view());
    let copy = review.clone();
    let res = finalize_task_result(task, run, binding, summary_text, refs, copy, outcome, acceptance);
    Ok(WorkerFinish { review, follow_up: WorkerFollowUp::Finished(res) })
}

/// The review a recorder's result rests on: the task's own, else the latest
/// one stored.
pub open spec fn recorder_review_spec(
    task: ManagedTaskView,
    stored: Option<ReviewResultView>,
) -> Option<ReviewResultView> {
    match task.review_result {
        Some(r) => Some(r),
        None => stored,
    }
}

/// Ends a task once its recorder ended: completed when the recorder
/// completed, blocked otherwise, summarised by the recorder's output when it
/// is not blank. Fails when no review can be found.
pub fn finish_recorder_execution(
    task: &mut ManagedTask,
    run: &mut IsolatedTaskRun,
    command: &HostExecutionCommand,
    payload: &SubagentEndedPayload,
    binding: &AgentBinding,
    stored_review: Option<ReviewResult>,
) -> (r: Result<TaskResult, FlowError>)
    ensures
        ({
            let sv = match stored_review {
                Some(x) => Some(x@),
                None => None,
            };
            match recorder_review_spec(old(task)@, sv) {
                None => r matches Err(e) && e@ == FlowErrorView::Other(
                    "review result missing for task "@ + old(task)@.managed_task_ref,
                ),
                Some(review) => r matches Ok(res) && {
                    let outcome = recorder_outcome_spec(payload.status);
                    let acceptance = outcome_acceptance_spec(outcome);
                    let summary = recorder_summary_spec(command@.output_summary, review.summary.summary);
                    &&& res.proof@ == proof_of_work_spec(
                        old(task)@,
                        old(run)@,
                        summary,
                        command@.artifact_refs,
                        review,
                        outcome,
                        acceptance,
                        res.proof@.proof_of_work_id,
                        res.proof@.accepted_at,
                    )
                    &&& res.contract@ == result_contract_spec(
                        old(task)@,
                        summary,
                        review,
                        outcome,
                        acceptance,
                        res.proof@,
                        res.contract@.result_contract_id,
                        res.contract@.created_at,
                    )
                    &&& res.review@ == review
                    &&& res.summary@ == result_summary_spec(res.contract@)
                    &&& final(task)@ == finished_task(
                        old(task)@,
                        binding@,
                        review,
                        res.proof@,
                        res.contract@,
                        final(task)@.updated_at,
                    )
                    &&& final(run)@ == (IsolatedTaskRunView {
                        status: IsolatedTaskRunStatus::Result,
                        updated_at: final(run)@.updated_at,
                        ..old(run)@
                    })
                },
            }
        }),
{
    let review = match &task.review_result {
        Some(r) => r.clone(),
        None => match stored_review {
            Some(r) => r,
            None => {
                let mut m = owned("review result missing for task ");
                push_str(&mut m, task.managed_task_ref.as_str());
                return Err(FlowError::Other(m));
            },
        },
    };
    let outcome = recorder_outcome(payload.status);
    let acceptance = outcome_acceptance(outcome);
    let summary_text = recorder_summary(&command.output_summary, &review);
    let refs = command.artifact_refs.clone();
    assert(refs.deep_view() =~= command.artifact_refs.deep_view());
    Ok(finalize_task_result(task, run, binding, summary_text, refs, review, outcome, acceptance))
}

/// A review approves exactly when the worker completed and left no finding:
/// its output is not blank and reports its verification, its artifacts stay
/// under the authorized roots, and the scope did not move. Artifacts that
/// escape or a scope that moved block the result.
pub proof fn law_review_approves_only_clean_work(
    status: HostSubagentStatus,
    output: Seq<char>,
    escaped: bool,
    scope_changed: bool,
)
    ensures
        review_verdict_spec(status, output, escaped, scope_changed) == ReviewVerdict::Approved <==> (
        status == HostSubagentStatus::Completed && trim_seq(output).len() > 0
            && mentions_verification(output) && !escaped && !scope_changed),
        (escaped || scope_changed || status != HostSubagentStatus::Completed) ==> review_verdict_spec(
            status,
            output,
            escaped,
            scope_changed,
        ) == ReviewVerdict::Blocked,
{
    let f = review_findings(output, escaped, scope_changed);
    if trim_seq(output).len() == 0 {
        assert(f.len() > 0);
    }
    if !mentions_verification(output) {
        assert(f.len() > 0);
    }
}

/// A review's verdict decides what its result records: approved work is
/// completed and accepted, work that needs redoing is recorded as rework
/// required on both counts, and blocked work is blocked and escalated to
/// the user. Only approved work is ever accepted, and the acceptance always
/// agrees with the one the outcome carries. A result built from a verdict
/// records that outcome and acceptance in its proof of work, its contract and
/// the summary shown to the user.
pub proof fn law_acceptance_follows_the_verdict(
    verdict: ReviewVerdict,
    task: ManagedTaskView,
    run: IsolatedTaskRunView,
    summary_text: Seq<char>,
    artifact_refs: Seq<Seq<char>>,
    review: ReviewResultView,
    proof_of_work_id: Seq<char>,
    accepted_at: Seq<char>,
    result_contract_id: Seq<char>,
    created_at: Seq<char>,
)
    ensures
        verdict == ReviewVerdict::Approved ==> review_outcome_spec(verdict) == ResultOutcome::Completed
            && review_acceptance_spec(verdict) == AcceptanceResult::Accepted,
        verdict == ReviewVerdict::ReworkRequired ==> review_outcome_spec(verdict)
            == ResultOutcome::ReworkRequired && review_acceptance_spec(verdict)
            == AcceptanceResult::ReworkRequired,
        verdict == ReviewVerdict::Blocked ==> review_outcome_spec(verdict) == ResultOutcome::Blocked
            && review_acceptance_spec(verdict) == AcceptanceResult::EscalatedToUser,
        review_acceptance_spec(verdict) == AcceptanceResult::Accepted <==> verdict
            == ReviewVerdict::Approved,
        review_acceptance_spec(verdict) == outcome_acceptance_spec(review_outcome_spec(verdict)),
        forall|o: ResultOutcome|
            (#[trigger] outcome_acceptance_spec(o) == AcceptanceResult::Accepted) <==> o
                == ResultOutcome::Completed,
        ({
            let outcome = review_outcome_spec(verdict);
            let acceptance = review_acceptance_spec(verdict);
            let proof = proof_of_work_spec(
                task,
                run,
                summary_text,
                artifact_refs,
                review,
                outcome,
                acceptance,
                proof_of_work_id,
                accepted_at,
            );
            let contract = result_contract_spec(
                task,
                summary_text,
                review,
                outcome,
                acceptance,
                proof,
                result_contract_id,
                created_at,
            );
            &&& proof.acceptance_verdict == acceptance
            &&& contract.outcome == outcome
            &&& contract.acceptance_verdict == acceptance
            &&& result_summary_spec(contract).outcome == outcome
            &&& result_summary_spec(contract).acceptance_verdict == acceptance
        }),
{
}

/// What follows a subagent's end, by the role it ran.
#[derive(Clone, Copy, Debug, PartialEq, Eq, Structural)]
pub enum EndedFollowUp {
    FinishWorker,
    FinishRecorder,
    Nothing,
}

/// What follows a subagent's end: a worker is reviewed, a recorder's result
/// is recorded, and the coordinating agent's end needs nothing further.
pub fn follow_up_for_role(role: AgentRoleKind) -> (r: EndedFollowUp)
    ensures
        r == match role {
            AgentRoleKind::Worker => EndedFollowUp::FinishWorker,
            AgentRoleKind::Recorder => EndedFollowUp::FinishRecorder,
            AgentRoleKind::Net => EndedFollowUp::Nothing,
        },
{
    match role {
        AgentRoleKind::Worker => EndedFollowUp::FinishWorker,
        AgentRoleKind::Recorder => EndedFollowUp::FinishRecorder,
        AgentRoleKind::Net => EndedFollowUp::Nothing,
    }
}

} // verus!
