//! Builders shared by the harness flows: requirement items, the spec bundle,
//! the default phase plan, the agent binding, host execution commands and
//! status notices.
use crate::harness::error::{FlowError, FlowErrorView};
use crate::model::bridge::{HostExecutionCommand, HostExecutionCommandStatus, HostExecutionCommandView};
use crate::model::ids::{is_millis_text, is_minted_id, new_id, now_timestamp};
use crate::model::ingress::{ControlActionKind, RequirementItemDraft, RequirementItemDraftView};
use crate::model::outbound::{
    default_render_hint, HostTextMode, RenderEmphasis, RenderHint, RenderHintView, RenderTone,
    StatusNoticeKind, StatusNoticePayload, StatusNoticePayloadView,
};
use crate::model::shared::WorkflowStage;
use crate::model::task::{
    AgentBinding, AgentBindingMember, AgentBindingMemberView, AgentBindingStatus,
    AgentBindingView, AgentExecutionMode, AgentRoleKind, ManagedTask, ManagedTaskView,
    PhaseEntryOrigin, PhasePlan, PhasePlanEntry, PhasePlanEntryView, PhasePlanMetadata,
    PhasePlanMutationPolicy, PhasePlanSource, PhasePlanView, RequirementItem,
    RequirementItemView, RequirementOrigin, RequirementStatus, ReviewResult, ReviewResultView,
    SpecBundle, SpecBundleView, StageVisibility, TaskScopeSnapshot, TaskScopeSnapshotView,
};
use crate::text::{decimal_digits, join_seq, join_strings, owned, push_str, str_eq, u128_to_decimal};
use vstd::prelude::*;

verus! {

/// The pack every first-round task runs under.
pub open spec fn default_pack_ref() -> Seq<char> {
    "coding_pack"@
}

/// The group under which results are accepted.
pub open spec fn system_review_group_ref() -> Seq<char> {
    "system.review.v0"@
}

/// Control actions that consume a pending decision window and therefore must
/// carry its decision token.
pub open spec fn requires_decision_token_spec(kind: ControlActionKind) -> bool {
    match kind {
        ControlActionKind::ApproveStart | ControlActionKind::ModifyCandidate
        | ControlActionKind::CancelCandidate | ControlActionKind::KeepCurrentTask
        | ControlActionKind::ReplaceActive | ControlActionKind::ApproveRequest
        | ControlActionKind::RejectRequest => true,
        _ => false,
    }
}

/// See [`requires_decision_token_spec`].
pub fn requires_decision_token(kind: &ControlActionKind) -> (r: bool)
    ensures
        r == requires_decision_token_spec(*kind),
{
    match kind {
        ControlActionKind::ApproveStart | ControlActionKind::ModifyCandidate
        | ControlActionKind::CancelCandidate | ControlActionKind::KeepCurrentTask
        | ControlActionKind::ReplaceActive | ControlActionKind::ApproveRequest
        | ControlActionKind::RejectRequest => true,
        _ => false,
    }
}

/// A requirement item freshly accepted with the given identifier.
pub open spec fn accepted_requirement(
    requirement_id: Seq<char>,
    text: Seq<char>,
    origin: RequirementOrigin,
) -> RequirementItemView {
    RequirementItemView {
        requirement_id,
        text,
        status: RequirementStatus::Accepted,
        origin,
        superseded_by: None,
        deferred_reason: None,
    }
}

impl RequirementItem {
    /// A newly accepted requirement with a fresh `req-` identifier.
    pub fn accepted(text: String, origin: RequirementOrigin) -> (r: Self)
        ensures
            r@ == accepted_requirement(r@.requirement_id, text@, origin),
            is_minted_id(r@.requirement_id, "req"@),
    {
        RequirementItem {
            requirement_id: new_id("req"),
            text,
            status: RequirementStatus::Accepted,
            origin,
            superseded_by: None,
            deferred_reason: None,
        }
    }
}

/// `items` are the drafts accepted in order with the given origin, each under
/// its own fresh `req-` identifier.
pub open spec fn accepts_drafts(
    items: Seq<RequirementItemView>,
    drafts: Seq<RequirementItemDraftView>,
    origin: RequirementOrigin,
) -> bool {
    &&& items.len() == drafts.len()
    &&& forall|i: int|
        0 <= i < items.len() ==> #[trigger] items[i] == accepted_requirement(
            items[i].requirement_id,
            drafts[i].text,
            origin,
        ) && is_minted_id(items[i].requirement_id, "req"@)
}

/// Accepts each draft as a requirement item with the given origin.
pub fn to_requirement_items(drafts: &Vec<RequirementItemDraft>, origin: RequirementOrigin) -> (r:
    Vec<RequirementItem>)
    ensures
        accepts_drafts(r.deep_view(), drafts.deep_view(), origin),
{
    let mut r: Vec<RequirementItem> = Vec::new();
    let mut i: usize = 0;
    while i < drafts.len()
        invariant
            i <= drafts@.len(),
            r@.len() == i,
            forall|k: int|
                0 <= k < i ==> #[trigger] r.deep_view()[k] == accepted_requirement(
                    r.deep_view()[k].requirement_id,
                    drafts.deep_view()[k].text,
                    origin,
                ) && is_minted_id(r.deep_view()[k].requirement_id, "req"@),
        decreases drafts.len() - i,
    {
        let item = RequirementItem::accepted(drafts[i].text.clone(), origin);
        let ghost prev = r.deep_view();
        r.push(item);
        assert(r.deep_view() =~= prev.push(item@));
        i += 1;
    }
    r
}

/// `text` prefixed by `label`.
pub fn labeled(label: &str, value: &str) -> (r: String)
    ensures
        r@ == label@ + value@,
{
    let mut r = owned(label);
    push_str(&mut r, value);
    r
}

/// Appends a line to a list of lines.
pub fn push_line(lines: &mut Vec<String>, line: String)
    ensures
        final(lines).deep_view() == old(lines).deep_view().push(line@),
{
    lines.push(line);
    assert(lines.deep_view() =~= old(lines).deep_view().push(line@));
}

/// The value of an optional text, or `default` when there is none.
pub open spec fn text_or(value: Option<Seq<char>>, default: Seq<char>) -> Seq<char> {
    match value {
        Some(v) => v,
        None => default,
    }
}

/// One `- text` line per requirement.
pub open spec fn requirement_lines(items: Seq<RequirementItemView>) -> Seq<Seq<char>> {
    Seq::new(items.len(), |i: int| "- "@ + items[i].text)
}

/// The scope document of a spec bundle.
pub open spec fn scope_doc_spec(task: ManagedTaskView, scope: TaskScopeSnapshotView) -> Seq<char> {
    join_seq(
        seq![
            "Task ref: "@ + task.managed_task_ref,
            "Scope version: "@ + decimal_digits(scope.scope_version as nat),
            "Workspace: "@ + text_or(scope.workspace_ref, "(none)"@),
            "Repo: "@ + text_or(scope.repo_ref, "(none)"@),
            "Allowed roots: "@ + join_seq(scope.allowed_roots, ", "@),
            "Secret classes: "@ + join_seq(scope.secret_classes, ", "@),
            "Requirements:"@,
        ] + requirement_lines(scope.requirement_items),
        "\n"@,
    )
}

/// The plan document of a spec bundle.
pub open spec fn plan_doc_spec(task: ManagedTaskView) -> Seq<char> {
    join_seq(
        seq![
            "Phase sequence: clarify -> execute -> review -> deliver"@,
            "Title: "@ + task.title,
            "Summary: "@ + task.summary,
            "Expected outcome: "@ + task.expected_outcome,
            "Execution contract: produce a concise implementation summary, changed artifacts, and a verification section."@,
        ],
        "\n"@,
    )
}

/// The verification document of a spec bundle.
pub open spec fn verification_doc_spec() -> Seq<char> {
    join_seq(
        seq![
            "Return a section starting with `Verification:`."@,
            "Include checks actually run, or `Verification: not run` with reason."@,
            "List changed files using absolute or workspace-relative paths."@,
        ],
        "\n"@,
    )
}

/// The spec bundle of a task under a scope.
pub open spec fn spec_bundle_spec(
    task: ManagedTaskView,
    scope: TaskScopeSnapshotView,
    spec_bundle_id: Seq<char>,
    created_at: Seq<char>,
) -> SpecBundleView {
    SpecBundleView {
        spec_bundle_id,
        managed_task_ref: task.managed_task_ref,
        task_scope_ref: scope.scope_id,
        summary: scope.scope_summary,
        scope_doc: scope_doc_spec(task, scope),
        plan_doc: plan_doc_spec(task),
        verification_doc: verification_doc_spec(),
        created_at,
    }
}

fn optional_text_or(value: &Option<String>, default: &str) -> (r: String)
    ensures
        r@ == text_or(value.deep_view(), default@),
{
    match value {
        Some(v) => v.clone(),
        None => owned(default),
    }
}

fn scope_doc(task: &ManagedTask, scope: &TaskScopeSnapshot) -> (r: String)
    ensures
        r@ == scope_doc_spec(task@, scope@),
{
    let mut lines: Vec<String> = Vec::new();
    push_line(&mut lines, labeled("Task ref: ", task.managed_task_ref.as_str()));
    let version = u128_to_decimal(scope.scope_version as u128);
    push_line(&mut lines, labeled("Scope version: ", version.as_str()));
    let workspace = optional_text_or(&scope.workspace_ref, "(none)");
    push_line(&mut lines, labeled("Workspace: ", workspace.as_str()));
    let repo = optional_text_or(&scope.repo_ref, "(none)");
    push_line(&mut lines, labeled("Repo: ", repo.as_str()));
    let roots = join_strings(&scope.allowed_roots, ", ");
    push_line(&mut lines, labeled("Allowed roots: ", roots.as_str()));
    let classes = join_strings(&scope.secret_classes, ", ");
    push_line(&mut lines, labeled("Secret classes: ", classes.as_str()));
    push_line(&mut lines, owned("Requirements:"));
    let ghost head = lines.deep_view();
    let ghost items = scope.requirement_items.deep_view();
    let mut i: usize = 0;
    while i < scope.requirement_items.len()
        invariant
            items == scope.requirement_items.deep_view(),
            i <= items.len(),
            lines.deep_view() == head + requirement_lines(items.take(i as int)),
        decreases scope.requirement_items.len() - i,
    {
        push_line(&mut lines, labeled("- ", scope.requirement_items[i].text.as_str()));
        assert(requirement_lines(items.take(i + 1)) =~= requirement_lines(items.take(i as int)).push(
            "- "@ + items[i as int].text,
        ));
        i += 1;
    }
    assert(items.take(items.len() as int) =~= items);
    assert(lines.deep_view() =~= seq![
        "Task ref: "@ + task@.managed_task_ref,
        "Scope version: "@ + decimal_digits(scope@.scope_version as nat),
        "Workspace: "@ + text_or(scope@.workspace_ref, "(none)"@),
        "Repo: "@ + text_or(scope@.repo_ref, "(none)"@),
        "Allowed roots: "@ + join_seq(scope@.allowed_roots, ", "@),
        "Secret classes: "@ + join_seq(scope@.secret_classes, ", "@),
        "Requirements:"@,
    ] + requirement_lines(scope@.requirement_items));
    join_strings(&lines, "\n")
}

fn plan_doc(task: &ManagedTask) -> (r: String)
    ensures
        r@ == plan_doc_spec(task@),
{
    let mut lines: Vec<String> = Vec::new();
    push_line(&mut lines, owned("Phase sequence: clarify -> execute -> review -> deliver"));
    push_line(&mut lines, labeled("Title: ", task.title.as_str()));
    push_line(&mut lines, labeled("Summary: ", task.summary.as_str()));
    push_line(&mut lines, labeled("Expected outcome: ", task.expected_outcome.as_str()));
    push_line(
        &mut lines,
        owned(
            "Execution contract: produce a concise implementation summary, changed artifacts, and a verification section.",
        ),
    );
    assert(lines.deep_view() =~= seq![
        "Phase sequence: clarify -> execute -> review -> deliver"@,
        "Title: "@ + task@.title,
        "Summary: "@ + task@.summary,
        "Expected outcome: "@ + task@.expected_outcome,
        "Execution contract: produce a concise implementation summary, changed artifacts, and a verification section."@,
    ]);
    join_strings(&lines, "\n")
}

fn verification_doc() -> (r: String)
    ensures
        r@ == verification_doc_spec(),
{
    let mut lines: Vec<String> = Vec::new();
    push_line(&mut lines, owned("Return a section starting with `Verification:`."));
    push_line(
        &mut lines,
        owned("Include checks actually run, or `Verification: not run` with reason."),
    );
    push_line(&mut lines, owned("List changed files using absolute or workspace-relative paths."));
    assert(lines.deep_view() =~= seq![
        "Return a section starting with `Verification:`."@,
        "Include checks actually run, or `Verification: not run` with reason."@,
        "List changed files using absolute or workspace-relative paths."@,
    ]);
    join_strings(&lines, "\n")
}

/// Writes the spec bundle of a task under a scope with a fresh `spec-`
/// identifier, stamped now.
pub fn build_spec_bundle(task: &ManagedTask, scope: &TaskScopeSnapshot) -> (r: SpecBundle)
    ensures
        r@ == spec_bundle_spec(task@, scope@, r@.spec_bundle_id, r@.created_at),
        is_minted_id(r@.spec_bundle_id, "spec"@),
        is_millis_text(r@.created_at),
{
    let scope_doc = scope_doc(task, scope);
    let plan_doc = plan_doc(task);
    let verification_doc = verification_doc();
    SpecBundle {
        spec_bundle_id: new_id("spec"),
        managed_task_ref: task.managed_task_ref.clone(),
        task_scope_ref: scope.scope_id.clone(),
        summary: scope.scope_summary.clone(),
        scope_doc,
        plan_doc,
        verification_doc,
        created_at: now_timestamp(),
    }
}

/// One entry of the default phase plan.
pub open spec fn phase_entry(
    entry_id: Seq<char>,
    stage: Seq<char>,
    sequence_no: u16,
    visibility: StageVisibility,
    origin: PhaseEntryOrigin,
    rework_target: Option<Seq<char>>,
) -> PhasePlanEntryView {
    PhasePlanEntryView {
        entry_id,
        stage_package_id: stage,
        sequence_no,
        visibility,
        origin,
        required: true,
        skip_allowed: false,
        rework_target,
    }
}

/// The default phase plan: clarify, execute, review (internal, reworking into
/// execute) and deliver, under the coding pack.
pub open spec fn default_phase_plan_spec(
    managed_task_ref: Seq<char>,
    phase_plan_id: Seq<char>,
    entry_ids: Seq<Seq<char>>,
    created_at: Seq<char>,
) -> PhasePlanView {
    PhasePlanView {
        phase_plan_id,
        managed_task_ref,
        plan_source: PhasePlanSource::SystemDefault,
        plan_entries: seq![
            phase_entry(entry_ids[0], "clarify"@, 1, StageVisibility::UserVisible, PhaseEntryOrigin::SystemInserted, None),
            phase_entry(entry_ids[1], "execute"@, 2, StageVisibility::UserVisible, PhaseEntryOrigin::PackDefault, None),
            phase_entry(entry_ids[2], "review"@, 3, StageVisibility::Internal, PhaseEntryOrigin::SystemInserted, Some(entry_ids[1])),
            phase_entry(entry_ids[3], "deliver"@, 4, StageVisibility::UserVisible, PhaseEntryOrigin::SystemInserted, None),
        ],
        mutation_policy: crate::model::task::PhasePlanMutationPolicyView {
            user_adjustment_allowed: false,
            system_insert_allowed: true,
        },
        metadata: crate::model::task::PhasePlanMetadataView {
            pack_ref: Some(default_pack_ref()),
            default_stage_sequence: seq!["clarify"@, "execute"@, "review"@, "deliver"@],
        },
        created_at,
    }
}

/// The identifiers of the entries of a plan, in order.
pub open spec fn entry_ids_of(plan: PhasePlanView) -> Seq<Seq<char>> {
    Seq::new(plan.plan_entries.len(), |i: int| plan.plan_entries[i].entry_id)
}

fn make_entry(
    entry_id: String,
    stage: &str,
    sequence_no: u16,
    visibility: StageVisibility,
    origin: PhaseEntryOrigin,
    rework_target: Option<String>,
) -> (r: PhasePlanEntry)
    ensures
        r@ == phase_entry(entry_id@, stage@, sequence_no, visibility, origin, rework_target.deep_view()),
{
    PhasePlanEntry {
        entry_id,
        stage_package_id: owned(stage),
        sequence_no,
        visibility,
        origin,
        required: true,
        skip_allowed: false,
        rework_target,
    }
}

/// The default phase plan with fresh `phase-plan-` and `phase-entry-`
/// identifiers, stamped now.
pub fn build_default_phase_plan(managed_task_ref: &str) -> (r: PhasePlan)
    ensures
        r@ == default_phase_plan_spec(managed_task_ref@, r@.phase_plan_id, entry_ids_of(r@), r@.created_at),
        is_minted_id(r@.phase_plan_id, "phase-plan"@),
        forall|i: int| 0 <= i < 4 ==> is_minted_id(#[trigger] r@.plan_entries[i].entry_id, "phase-entry"@),
        is_millis_text(r@.created_at),
{
    let clarify_entry_id = new_id("phase-entry");
    let execute_entry_id = new_id("phase-entry");
    let review_entry_id = new_id("phase-entry");
    let deliver_entry_id = new_id("phase-entry");
    let mut entries: Vec<PhasePlanEntry> = Vec::new();
    entries.push(make_entry(clarify_entry_id, "clarify", 1, StageVisibility::UserVisible, PhaseEntryOrigin::SystemInserted, None));
    entries.push(make_entry(execute_entry_id.clone(), "execute", 2, StageVisibility::UserVisible, PhaseEntryOrigin::PackDefault, None));
    entries.push(make_entry(review_entry_id, "review", 3, StageVisibility::Internal, PhaseEntryOrigin::SystemInserted, Some(execute_entry_id)));
    entries.push(make_entry(deliver_entry_id, "deliver", 4, StageVisibility::UserVisible, PhaseEntryOrigin::SystemInserted, None));
    let mut sequence: Vec<String> = Vec::new();
    push_line(&mut sequence, owned("clarify"));
    push_line(&mut sequence, owned("execute"));
    push_line(&mut sequence, owned("review"));
    push_line(&mut sequence, owned("deliver"));
    let plan = PhasePlan {
        phase_plan_id: new_id("phase-plan"),
        managed_task_ref: owned(managed_task_ref),
        plan_source: PhasePlanSource::SystemDefault,
        plan_entries: entries,
        mutation_policy: PhasePlanMutationPolicy {
            user_adjustment_allowed: false,
            system_insert_allowed: true,
        },
        metadata: PhasePlanMetadata {
            pack_ref: Some(owned("coding_pack")),
            default_stage_sequence: sequence,
        },
        created_at: now_timestamp(),
    };
    assert(plan@.plan_entries =~= default_phase_plan_spec(managed_task_ref@, plan@.phase_plan_id, entry_ids_of(plan@), plan@.created_at).plan_entries);
    assert(plan@.metadata.default_stage_sequence =~= seq!["clarify"@, "execute"@, "review"@, "deliver"@]);
    plan
}

/// The phase-plan stage a workflow stage corresponds to (none once closed).
pub open spec fn stage_package_spec(stage: WorkflowStage) -> Option<Seq<char>> {
    match stage {
        WorkflowStage::Candidate => Some("clarify"@),
        WorkflowStage::Execute => Some("execute"@),
        WorkflowStage::Review => Some("review"@),
        WorkflowStage::Result => Some("deliver"@),
        WorkflowStage::Closed => None,
    }
}

/// See [`stage_package_spec`].
pub fn stage_package_for_workflow_stage(workflow_stage: &WorkflowStage) -> (r: Option<&'static str>)
    ensures
        r.deep_view() == stage_package_spec(*workflow_stage),
{
    match workflow_stage {
        WorkflowStage::Candidate => Some("clarify"),
        WorkflowStage::Execute => Some("execute"),
        WorkflowStage::Review => Some("review"),
        WorkflowStage::Result => Some("deliver"),
        WorkflowStage::Closed => None,
    }
}

/// A required binding member mapped to the host agent of the same name.
pub open spec fn binding_member(
    role_kind: AgentRoleKind,
    agent: Seq<char>,
    responsibility: Seq<char>,
    execution_mode: AgentExecutionMode,
) -> AgentBindingMemberView {
    AgentBindingMemberView {
        role_kind,
        profile_ref: agent,
        host_mapping_ref: Some(agent),
        responsibilities: seq![responsibility],
        execution_mode,
        required: true,
    }
}

/// The fixed first-round binding: the main agent inline, the coder as a
/// background worker and the product analyst as recorder.
pub open spec fn agent_binding_spec(
    task: ManagedTaskView,
    run_ref: Seq<char>,
    capability_snapshot_ref: Seq<char>,
    binding_id: Seq<char>,
    issued_at: Seq<char>,
) -> AgentBindingView {
    AgentBindingView {
        binding_id,
        managed_task_ref: task.managed_task_ref,
        run_ref,
        stage_run_ref: None,
        pack_ref: Some(default_pack_ref()),
        capability_snapshot_ref,
        members: seq![
            binding_member(AgentRoleKind::Net, "main"@, "Host bridge coordination"@, AgentExecutionMode::Inline),
            binding_member(AgentRoleKind::Worker, "coder"@, "Implement the approved task scope"@, AgentExecutionMode::BackgroundWorker),
            binding_member(AgentRoleKind::Recorder, "product_analyst"@, "Summarize outcome and proof of work"@, AgentExecutionMode::RecorderOnly),
        ],
        status: AgentBindingStatus::Active,
        issued_reason: "approve_start fixed first-round binding"@,
        issued_at,
        supersedes: None,
    }
}

fn make_member(
    role_kind: AgentRoleKind,
    agent: &str,
    responsibility: &str,
    execution_mode: AgentExecutionMode,
) -> (r: AgentBindingMember)
    ensures
        r@ == binding_member(role_kind, agent@, responsibility@, execution_mode),
{
    let mut responsibilities: Vec<String> = Vec::new();
    push_line(&mut responsibilities, owned(responsibility));
    assert(responsibilities.deep_view() =~= seq![responsibility@]);
    AgentBindingMember {
        role_kind,
        profile_ref: owned(agent),
        host_mapping_ref: Some(owned(agent)),
        responsibilities,
        execution_mode,
        required: true,
    }
}

/// The first-round binding with a fresh `binding-` identifier, issued now.
pub fn build_agent_binding(managed_task: &ManagedTask, run_ref: &str, capability_snapshot_ref: &str) -> (r:
    AgentBinding)
    ensures
        r@ == agent_binding_spec(managed_task@, run_ref@, capability_snapshot_ref@, r@.binding_id, r@.issued_at),
        is_minted_id(r@.binding_id, "binding"@),
        is_millis_text(r@.issued_at),
{
    let mut members: Vec<AgentBindingMember> = Vec::new();
    members.push(make_member(AgentRoleKind::Net, "main", "Host bridge coordination", AgentExecutionMode::Inline));
    members.push(make_member(AgentRoleKind::Worker, "coder", "Implement the approved task scope", AgentExecutionMode::BackgroundWorker));
    members.push(make_member(AgentRoleKind::Recorder, "product_analyst", "Summarize outcome and proof of work", AgentExecutionMode::RecorderOnly));
    let binding = AgentBinding {
        binding_id: new_id("binding"),
        managed_task_ref: managed_task.managed_task_ref.clone(),
        run_ref: owned(run_ref),
        stage_run_ref: None,
        pack_ref: Some(owned("coding_pack")),
        capability_snapshot_ref: owned(capability_snapshot_ref),
        members,
        status: AgentBindingStatus::Active,
        issued_reason: owned("approve_start fixed first-round binding"),
        issued_at: now_timestamp(),
        supersedes: None,
    };
    assert(binding@.members =~= agent_binding_spec(managed_task@, run_ref@, capability_snapshot_ref@, binding@.binding_id, binding@.issued_at).members);
    binding
}

/// The host agent that plays a role when the binding does not map it.
pub open spec fn default_host_agent(role_kind: AgentRoleKind) -> Seq<char> {
    match role_kind {
        AgentRoleKind::Net => "main"@,
        AgentRoleKind::Worker => "coder"@,
        AgentRoleKind::Recorder => "product_analyst"@,
    }
}

/// The index of the first member with the given role, if any.
pub open spec fn first_member_index(members: Seq<AgentBindingMemberView>, role_kind: AgentRoleKind) -> Option<int>
    decreases members.len(),
{
    if members.len() == 0 {
        None
    } else {
        match first_member_index(members.drop_last(), role_kind) {
            Some(i) => Some(i),
            None => if members.last().role_kind == role_kind {
                Some(members.len() - 1)
            } else {
                None
            },
        }
    }
}

/// The host agent for a role: the mapping of the first member with that role,
/// or the role's default agent when there is no such member or it maps none.
pub open spec fn host_agent_for_role_spec(binding: AgentBindingView, role_kind: AgentRoleKind) -> Seq<char> {
    match first_member_index(binding.members, role_kind) {
        Some(i) => text_or(binding.members[i].host_mapping_ref, default_host_agent(role_kind)),
        None => default_host_agent(role_kind),
    }
}

fn default_host_agent_exec(role_kind: AgentRoleKind) -> (r: String)
    ensures
        r@ == default_host_agent(role_kind),
{
    match role_kind {
        AgentRoleKind::Net => owned("main"),
        AgentRoleKind::Worker => owned("coder"),
        AgentRoleKind::Recorder => owned("product_analyst"),
    }
}

/// See [`host_agent_for_role_spec`].
pub fn host_agent_for_role(binding: &AgentBinding, role_kind: AgentRoleKind) -> (r: String)
    ensures
        r@ == host_agent_for_role_spec(binding@, role_kind),
{
    let ghost members = binding@.members;
    let mut i: usize = 0;
    while i < binding.members.len()
        invariant
            members == binding@.members,
            i <= members.len(),
            first_member_index(members.take(i as int), role_kind) is None,
        decreases binding.members.len() - i,
    {
        assert(members.take(i + 1).drop_last() =~= members.take(i as int));
        if binding.members[i].role_kind == role_kind {
            assert(first_member_index(members.take(i + 1), role_kind) == Some(i as int));
            proof {
                lemma_first_member_index_extends(members, i as int + 1, i as int, role_kind);
            }
            return match &binding.members[i].host_mapping_ref {
                Some(agent) => agent.clone(),
                None => default_host_agent_exec(role_kind),
            };
        }
        i += 1;
    }
    assert(members.take(members.len() as int) =~= members);
    default_host_agent_exec(role_kind)
}

proof fn lemma_first_member_index_extends(
    members: Seq<AgentBindingMemberView>,
    n: int,
    found: int,
    role_kind: AgentRoleKind,
)
    requires
        0 <= n <= members.len(),
        first_member_index(members.take(n), role_kind) == Some(found),
    ensures
        first_member_index(members, role_kind) == Some(found),
    decreases members.len() - n,
{
    if n < members.len() {
        assert(members.take(n + 1).drop_last() =~= members.take(n));
        lemma_first_member_index_extends(members, n + 1, found, role_kind);
    } else {
        assert(members.take(n) =~= members);
    }
}

/// The prompt of a worker command.
pub open spec fn worker_prompt_spec(task: ManagedTaskView, spec: SpecBundleView) -> Seq<char> {
    join_seq(
        seq![
            "Role: worker"@,
            "Execute the approved managed task and do not discuss governance internals."@,
            ""@,
            "Scope doc:"@,
            spec.scope_doc,
            ""@,
            "Plan doc:"@,
            spec.plan_doc,
            ""@,
            "Verification doc:"@,
            spec.verification_doc,
            ""@,
            "Output format:"@,
            "1. Summary: ..."@,
            "2. Changed files: ..."@,
            "3. Verification: ..."@,
            ""@,
            "Expected outcome: "@ + task.expected_outcome,
        ],
        "\n"@,
    )
}

/// The prompt of a recorder command.
pub open spec fn recorder_prompt_spec(
    task: ManagedTaskView,
    spec: SpecBundleView,
    worker_output_summary: Seq<char>,
    review: ReviewResultView,
) -> Seq<char> {
    join_seq(
        seq![
            "Role: recorder"@,
            "Summarize the completed task for the user with concise evidence."@,
            ""@,
            "Spec summary:"@,
            spec.summary,
            ""@,
            "Worker output summary:"@,
            worker_output_summary,
            ""@,
            "Review summary:"@,
            review.summary.summary,
            ""@,
            "Output format:"@,
            "1. Summary: ..."@,
            "2. Key outcomes: ..."@,
            "3. Proof excerpt: ..."@,
            "4. Next actions: ..."@,
            ""@,
            "Task title: "@ + task.title,
        ],
        "\n"@,
    )
}

/// A pending host execution command for a role of the binding.
pub open spec fn host_command_spec(
    task: ManagedTaskView,
    run_ref: Seq<char>,
    binding: AgentBindingView,
    role_kind: AgentRoleKind,
    prompt: Seq<char>,
    label: Seq<char>,
    command_id: Seq<char>,
    issued_at: Seq<char>,
) -> HostExecutionCommandView {
    HostExecutionCommandView {
        command_id,
        managed_task_ref: task.managed_task_ref,
        run_ref,
        binding_id: binding.binding_id,
        role_kind,
        host_session_id: task.host_session_id,
        host_agent_id: host_agent_for_role_spec(binding, role_kind),
        prompt,
        label,
        status: HostExecutionCommandStatus::Pending,
        host_child_execution_ref: None,
        host_child_run_ref: None,
        output_summary: None,
        artifact_refs: Seq::empty(),
        issued_at,
        acked_at: None,
        completed_at: None,
    }
}

fn pending_command(
    task: &ManagedTask,
    run_ref: &str,
    binding: &AgentBinding,
    role_kind: AgentRoleKind,
    prompt: String,
    label: String,
) -> (r: HostExecutionCommand)
    ensures
        r@ == host_command_spec(task@, run_ref@, binding@, role_kind, prompt@, label@, r@.command_id, r@.issued_at),
        is_minted_id(r@.command_id, "exec"@),
        is_millis_text(r@.issued_at),
{
    let command = HostExecutionCommand {
        command_id: new_id("exec"),
        managed_task_ref: task.managed_task_ref.clone(),
        run_ref: owned(run_ref),
        binding_id: binding.binding_id.clone(),
        role_kind,
        host_session_id: task.host_session_id.clone(),
        host_agent_id: host_agent_for_role(binding, role_kind),
        prompt,
        label,
        status: HostExecutionCommandStatus::Pending,
        host_child_execution_ref: None,
        host_child_run_ref: None,
        output_summary: None,
        artifact_refs: Vec::new(),
        issued_at: now_timestamp(),
        acked_at: None,
        completed_at: None,
    };
    assert(command@.artifact_refs =~= Seq::<Seq<char>>::empty());
    command
}

/// The worker command for a run, with a fresh `exec-` identifier.
pub fn build_worker_command(task: &ManagedTask, run_ref: &str, binding: &AgentBinding, spec: &SpecBundle) -> (r:
    HostExecutionCommand)
    ensures
        r@ == host_command_spec(
            task@,
            run_ref@,
            binding@,
            AgentRoleKind::Worker,
            worker_prompt_spec(task@, spec@),
            "loom-worker-"@ + task@.managed_task_ref,
            r@.command_id,
            r@.issued_at,
        ),
        is_minted_id(r@.command_id, "exec"@),
        is_millis_text(r@.issued_at),
{
    let mut lines: Vec<String> = Vec::new();
    push_line(&mut lines, owned("Role: worker"));
    push_line(&mut lines, owned("Execute the approved managed task and do not discuss governance internals."));
    push_line(&mut lines, owned(""));
    push_line(&mut lines, owned("Scope doc:"));
    push_line(&mut lines, spec.scope_doc.clone());
    push_line(&mut lines, owned(""));
    push_line(&mut lines, owned("Plan doc:"));
    push_line(&mut lines, spec.plan_doc.clone());
    push_line(&mut lines, owned(""));
    push_line(&mut lines, owned("Verification doc:"));
    push_line(&mut lines, spec.verification_doc.clone());
    push_line(&mut lines, owned(""));
    push_line(&mut lines, owned("Output format:"));
    push_line(&mut lines, owned("1. Summary: ..."));
    push_line(&mut lines, owned("2. Changed files: ..."));
    push_line(&mut lines, owned("3. Verification: ..."));
    push_line(&mut lines, owned(""));
    push_line(&mut lines, labeled("Expected outcome: ", task.expected_outcome.as_str()));
    assert(lines.deep_view() =~= seq![
        "Role: worker"@,
        "Execute the approved managed task and do not discuss governance internals."@,
        ""@,
        "Scope doc:"@,
        spec@.scope_doc,
        ""@,
        "Plan doc:"@,
        spec@.plan_doc,
        ""@,
        "Verification doc:"@,
        spec@.verification_doc,
        ""@,
        "Output format:"@,
        "1. Summary: ..."@,
        "2. Changed files: ..."@,
        "3. Verification: ..."@,
        ""@,
        "Expected outcome: "@ + task@.expected_outcome,
    ]);
    let prompt = join_strings(&lines, "\n");
    let label = labeled("loom-worker-", task.managed_task_ref.as_str());
    pending_command(task, run_ref, binding, AgentRoleKind::Worker, prompt, label)
}

/// The recorder command for a run, with a fresh `exec-` identifier.
pub fn build_recorder_command(
    task: &ManagedTask,
    run_ref: &str,
    binding: &AgentBinding,
    spec: &SpecBundle,
    worker_output_summary: &str,
    review: &ReviewResult,
) -> (r: HostExecutionCommand)
    ensures
        r@ == host_command_spec(
            task@,
            run_ref@,
            binding@,
            AgentRoleKind::Recorder,
            recorder_prompt_spec(task@, spec@, worker_output_summary@, review@),
            "loom-recorder-"@ + task@.managed_task_ref,
            r@.command_id,
            r@.issued_at,
        ),
        is_minted_id(r@.command_id, "exec"@),
        is_millis_text(r@.issued_at),
{
    let mut lines: Vec<String> = Vec::new();
    push_line(&mut lines, owned("Role: recorder"));
    push_line(&mut lines, owned("Summarize the completed task for the user with concise evidence."));
    push_line(&mut lines, owned(""));
    push_line(&mut lines, owned("Spec summary:"));
    push_line(&mut lines, spec.summary.clone());
    push_line(&mut lines, owned(""));
    push_line(&mut lines, owned("Worker output summary:"));
    push_line(&mut lines, owned(worker_output_summary));
    push_line(&mut lines, owned(""));
    push_line(&mut lines, owned("Review summary:"));
    push_line(&mut lines, review.summary.summary.clone());
    push_line(&mut lines, owned(""));
    push_line(&mut lines, owned("Output format:"));
    push_line(&mut lines, owned("1. Summary: ..."));
    push_line(&mut lines, owned("2. Key outcomes: ..."));
    push_line(&mut lines, owned("3. Proof excerpt: ..."));
    push_line(&mut lines, owned("4. Next actions: ..."));
    push_line(&mut lines, owned(""));
    push_line(&mut lines, labeled("Task title: ", task.title.as_str()));
    assert(lines.deep_view() =~= seq![
        "Role: recorder"@,
        "Summarize the completed task for the user with concise evidence."@,
        ""@,
        "Spec summary:"@,
        spec@.summary,
        ""@,
        "Worker output summary:"@,
        worker_output_summary@,
        ""@,
        "Review summary:"@,
        review@.summary.summary,
        ""@,
        "Output format:"@,
        "1. Summary: ..."@,
        "2. Key outcomes: ..."@,
        "3. Proof excerpt: ..."@,
        "4. Next actions: ..."@,
        ""@,
        "Task title: "@ + task@.title,
    ]);
    let prompt = join_strings(&lines, "\n");
    let label = labeled("loom-recorder-", task.managed_task_ref.as_str());
    pending_command(task, run_ref, binding, AgentRoleKind::Recorder, prompt, label)
}

/// The render hint of a result summary.
pub fn render_hint_for_result() -> (r: RenderHint)
    ensures
        r@ == default_render_hint(),
{
    RenderHint::default()
}

/// The render hint of a status notice.
pub open spec fn status_notice_hint(kind: StatusNoticeKind) -> RenderHintView {
    match kind {
        StatusNoticeKind::StageEntered => RenderHintView {
            tone: RenderTone::Neutral,
            emphasis: RenderEmphasis::Minimal,
            host_text_mode: HostTextMode::StructuredText,
        },
        StatusNoticeKind::Blocked => RenderHintView {
            tone: RenderTone::Blocking,
            emphasis: RenderEmphasis::Strong,
            host_text_mode: HostTextMode::StructuredText,
        },
    }
}

/// See [`status_notice_hint`].
pub fn render_hint_for_status_notice(notice_kind: StatusNoticeKind) -> (r: RenderHint)
    ensures
        r@ == status_notice_hint(notice_kind),
{
    match notice_kind {
        StatusNoticeKind::StageEntered => RenderHint {
            tone: RenderTone::Neutral,
            emphasis: RenderEmphasis::Minimal,
            host_text_mode: HostTextMode::StructuredText,
        },
        StatusNoticeKind::Blocked => RenderHint {
            tone: RenderTone::Blocking,
            emphasis: RenderEmphasis::Strong,
            host_text_mode: HostTextMode::StructuredText,
        },
    }
}

/// The index of the first plan entry for a stage package, if any.
pub open spec fn first_entry_index(entries: Seq<PhasePlanEntryView>, stage: Seq<char>) -> Option<int>
    decreases entries.len(),
{
    if entries.len() == 0 {
        None
    } else {
        match first_entry_index(entries.drop_last(), stage) {
            Some(i) => Some(i),
            None => if entries.last().stage_package_id == stage {
                Some(entries.len() - 1)
            } else {
                None
            },
        }
    }
}

/// A status notice about a stage of the plan: refused when the plan has no
/// entry for the stage, and, for a stage-entered notice, when that entry is
/// internal.
pub open spec fn status_notice_spec(
    managed_task_ref: Seq<char>,
    plan: PhasePlanView,
    stage_package_id: Seq<char>,
    notice_kind: StatusNoticeKind,
    headline: Seq<char>,
    summary: Seq<char>,
    detail: Option<Seq<char>>,
) -> Result<StatusNoticePayloadView, FlowErrorView> {
    match first_entry_index(plan.plan_entries, stage_package_id) {
        None => Err(FlowErrorView::Other("phase entry missing for stage package: "@ + stage_package_id)),
        Some(i) => if notice_kind == StatusNoticeKind::StageEntered && plan.plan_entries[i].visibility
            != StageVisibility::UserVisible {
            Err(FlowErrorView::Other("stage_entered notice requires user-visible phase entry: "@ + stage_package_id))
        } else {
            Ok(StatusNoticePayloadView {
                managed_task_ref,
                notice_kind,
                stage_ref: plan.plan_entries[i].entry_id,
                headline,
                summary,
                detail,
                render_hint: status_notice_hint(notice_kind),
            })
        },
    }
}

proof fn lemma_first_entry_index_extends(
    entries: Seq<PhasePlanEntryView>,
    n: int,
    found: int,
    stage: Seq<char>,
)
    requires
        0 <= n <= entries.len(),
        first_entry_index(entries.take(n), stage) == Some(found),
    ensures
        first_entry_index(entries, stage) == Some(found),
    decreases entries.len() - n,
{
    if n < entries.len() {
        assert(entries.take(n + 1).drop_last() =~= entries.take(n));
        lemma_first_entry_index_extends(entries, n + 1, found, stage);
    } else {
        assert(entries.take(n) =~= entries);
    }
}

/// See [`status_notice_spec`].
pub fn build_status_notice(
    managed_task_ref: &str,
    phase_plan: &PhasePlan,
    stage_package_id: &str,
    notice_kind: StatusNoticeKind,
    headline: &str,
    summary: &str,
    detail: Option<&str>,
) -> (r: Result<StatusNoticePayload, FlowError>)
    ensures
        match r {
            Ok(p) => status_notice_spec(managed_task_ref@, phase_plan@, stage_package_id@, notice_kind, headline@, summary@, detail.deep_view()) == Ok::<StatusNoticePayloadView, FlowErrorView>(p@),
            Err(e) => status_notice_spec(managed_task_ref@, phase_plan@, stage_package_id@, notice_kind, headline@, summary@, detail.deep_view()) == Err::<StatusNoticePayloadView, FlowErrorView>(e@),
        },
{
    let ghost entries = phase_plan@.plan_entries;
    let mut i: usize = 0;
    while i < phase_plan.plan_entries.len()
        invariant
            entries == phase_plan@.plan_entries,
            i <= entries.len(),
            first_entry_index(entries.take(i as int), stage_package_id@) is None,
        decreases phase_plan.plan_entries.len() - i,
    {
        assert(entries.take(i + 1).drop_last() =~= entries.take(i as int));
        if str_eq(phase_plan.plan_entries[i].stage_package_id.as_str(), stage_package_id) {
            assert(first_entry_index(entries.take(i + 1), stage_package_id@) == Some(i as int));
            proof {
                lemma_first_entry_index_extends(entries, i as int + 1, i as int, stage_package_id@);
            }
            let entry = &phase_plan.plan_entries[i];
            if notice_kind == StatusNoticeKind::StageEntered && entry.visibility != StageVisibility::UserVisible {
                return Err(FlowError::Other(labeled("stage_entered notice requires user-visible phase entry: ", stage_package_id)));
            }
            let detail_text: Option<String> = match detail {
                Some(d) => Some(owned(d)),
                None => None,
            };
            return Ok(StatusNoticePayload {
                managed_task_ref: owned(managed_task_ref),
                notice_kind,
                stage_ref: entry.entry_id.clone(),
                headline: owned(headline),
                summary: owned(summary),
                detail: detail_text,
                render_hint: render_hint_for_status_notice(notice_kind),
            });
        }
        i += 1;
    }
    assert(entries.take(entries.len() as int) =~= entries);
    Err(FlowError::Other(labeled("phase entry missing for stage package: ", stage_package_id)))
}

} // verus!
