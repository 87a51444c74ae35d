//! The control surface a session currently shows: the one open decision
//! window among its tasks.
use crate::harness::error::{FlowError, FlowErrorView};
use crate::model::bridge::{
    ControlSurfaceType, CurrentControlSurfaceProjection, CurrentControlSurfaceProjectionView,
};
use crate::model::task::{
    ManagedTask, ManagedTaskView, PendingDecisionWindow, PendingDecisionWindowKind,
    PendingDecisionWindowStatus, PendingDecisionWindowView,
};
use crate::text::{decimal_digits, owned, push_str, u128_to_decimal};
use vstd::prelude::*;

verus! {

/// The surface a window is shown as.
pub open spec fn surface_type_spec(kind: PendingDecisionWindowKind) -> ControlSurfaceType {
    match kind {
        PendingDecisionWindowKind::StartCandidate => ControlSurfaceType::StartCard,
        PendingDecisionWindowKind::BoundaryConfirmation => ControlSurfaceType::BoundaryCard,
        PendingDecisionWindowKind::ApprovalRequest => ControlSurfaceType::ApprovalRequest,
    }
}

/// The surface a window is shown as.
pub fn map_surface_type(kind: PendingDecisionWindowKind) -> (r: ControlSurfaceType)
    ensures
        r == surface_type_spec(kind),
{
    match kind {
        PendingDecisionWindowKind::StartCandidate => ControlSurfaceType::StartCard,
        PendingDecisionWindowKind::BoundaryConfirmation => ControlSurfaceType::BoundaryCard,
        PendingDecisionWindowKind::ApprovalRequest => ControlSurfaceType::ApprovalRequest,
    }
}

/// The debug name of a window status.
pub open spec fn window_status_name(status: PendingDecisionWindowStatus) -> Seq<char> {
    match status {
        PendingDecisionWindowStatus::Open => "Open"@,
        PendingDecisionWindowStatus::Consumed => "Consumed"@,
        PendingDecisionWindowStatus::Superseded => "Superseded"@,
        PendingDecisionWindowStatus::Expired => "Expired"@,
        PendingDecisionWindowStatus::Cancelled => "Cancelled"@,
    }
}

fn window_status_text(status: PendingDecisionWindowStatus) -> (r: &'static str)
    ensures
        r@ == window_status_name(status),
{
    match status {
        PendingDecisionWindowStatus::Open => "Open",
        PendingDecisionWindowStatus::Consumed => "Consumed",
        PendingDecisionWindowStatus::Superseded => "Superseded",
        PendingDecisionWindowStatus::Expired => "Expired",
        PendingDecisionWindowStatus::Cancelled => "Cancelled",
    }
}

/// The surface an open window of a task is shown as.
pub open spec fn surface_of(task: ManagedTaskView, w: PendingDecisionWindowView) -> CurrentControlSurfaceProjectionView {
    CurrentControlSurfaceProjectionView {
        host_session_id: task.host_session_id,
        surface_type: surface_type_spec(w.kind),
        managed_task_ref: w.managed_task_ref,
        decision_token: w.decision_token,
        allowed_actions: w.allowed_actions,
    }
}

/// The text of a task pointing at a window that does not exist.
pub open spec fn missing_window_text(task_ref: Seq<char>, window_id: Seq<char>) -> Seq<char> {
    "control surface query conflict: managed_task_ref="@ + task_ref
        + " points to missing pending decision window "@ + window_id
}

/// The text of a task pointing at a window that is no longer open.
pub open spec fn closed_window_text(
    task_ref: Seq<char>,
    window_id: Seq<char>,
    status: PendingDecisionWindowStatus,
) -> Seq<char> {
    "control surface query conflict: managed_task_ref="@ + task_ref
        + " points to non-open pending decision window "@ + window_id + " with status "@
        + window_status_name(status)
}

/// The text of a session with more than one open window.
pub open spec fn too_many_surfaces_text(host_session_id: Seq<char>, n: nat) -> Seq<char> {
    "control surface query conflict: host_session_id="@ + host_session_id + " has "@
        + decimal_digits(n) + " open windows"@
}

/// Gathering the surfaces of the tasks in order, each with the window found
/// under its pending reference; a missing or closed window is refused.
pub open spec fn gather_surfaces(
    tasks: Seq<ManagedTaskView>,
    windows: Seq<Option<PendingDecisionWindowView>>,
) -> Result<Seq<CurrentControlSurfaceProjectionView>, FlowErrorView>
    decreases tasks.len(),
{
    if tasks.len() == 0 || windows.len() == 0 {
        Ok(Seq::empty())
    } else {
        match gather_surfaces(tasks.drop_last(), windows.drop_last()) {
            Err(e) => Err(e),
            Ok(s) => {
                let t = tasks.last();
                match t.current_pending_window_ref {
                    None => Ok(s),
                    Some(id) => match windows.last() {
                        None => Err(FlowErrorView::Other(missing_window_text(t.managed_task_ref, id))),
                        Some(w) => if w.status != PendingDecisionWindowStatus::Open {
                            Err(
                                FlowErrorView::Other(
                                    closed_window_text(t.managed_task_ref, id, w.status),
                                ),
                            )
                        } else {
                            Ok(s.push(surface_of(t, w)))
                        },
                    },
                }
            },
        }
    }
}

/// The session's control surface: none without an open window, the one
/// open window's surface, or a refusal when there are several.
pub open spec fn control_surface_spec(
    host_session_id: Seq<char>,
    tasks: Seq<ManagedTaskView>,
    windows: Seq<Option<PendingDecisionWindowView>>,
) -> Result<Option<CurrentControlSurfaceProjectionView>, FlowErrorView> {
    match gather_surfaces(tasks, windows) {
        Err(e) => Err(e),
        Ok(s) => if s.len() == 0 {
            Ok(None)
        } else if s.len() == 1 {
            Ok(Some(s[0]))
        } else {
            Err(FlowErrorView::Other(too_many_surfaces_text(host_session_id, s.len())))
        },
    }
}

/// The windows found, each by its abstract form.
pub open spec fn window_views(windows: Seq<Option<PendingDecisionWindow>>) -> Seq<Option<PendingDecisionWindowView>> {
    Seq::new(
        windows.len(),
        |i: int|
            match windows[i] {
                Some(x) => Some(x@),
                None => None,
            },
    )
}

/// The session's control surface, given the session's tasks with a pending
/// window and, for each, the window found under its reference.
pub fn resolve_control_surface(
    host_session_id: &str,
    tasks: &Vec<ManagedTask>,
    windows: &Vec<Option<PendingDecisionWindow>>,
) -> (r: Result<Option<CurrentControlSurfaceProjection>, FlowError>)
    requires
        tasks@.len() == windows@.len(),
    ensures
        match control_surface_spec(
            host_session_id@,
            tasks.deep_view(),
            window_views(windows@),
        ) {
            Ok(None) => r matches Ok(None),
            Ok(Some(p)) => r matches Ok(Some(x)) && x@ == p,
            Err(e) => r matches Err(x) && x@ == e,
        },
{
    let ghost tv = tasks.deep_view();
    let ghost wv = window_views(windows@);
    let mut surfaces: Vec<CurrentControlSurfaceProjection> = Vec::new();
    let mut i: usize = 0;
    proof {
        assert(tv.take(0) =~= Seq::<ManagedTaskView>::empty());
        assert(surfaces.deep_view() =~= Seq::<CurrentControlSurfaceProjectionView>::empty());
    }
    while i < tasks.len()
        invariant
            tv == tasks.deep_view(),
            wv == window_views(windows@),
            wv.len() == tv.len(),
            tv.len() == windows@.len(),
            forall|k: int|
                0 <= k < wv.len() ==> #[trigger] wv[k] == match windows@[k] {
                    Some(x) => Some(x@),
                    None => None,
                },
            i <= tv.len(),
            gather_surfaces(tv.take(i as int), wv.take(i as int)) == Ok::<
                Seq<CurrentControlSurfaceProjectionView>,
                FlowErrorView,
            >(surfaces.deep_view()),
        decreases tasks.len() - i,
    {
        proof {
            assert(tv.take(i + 1).drop_last() =~= tv.take(i as int));
            assert(wv.take(i + 1).drop_last() =~= wv.take(i as int));
            assert(tv.take(i + 1).last() == tv[i as int]);
            assert(wv.take(i + 1).last() == wv[i as int]);
        }
        let t = &tasks[i];
        assert(tv[i as int] == t@);
        let ghost wi = wv[i as int];
        match &t.current_pending_window_ref {
            None => {},
            Some(id) => match &windows[i] {
                None => {
                    let mut m = owned("control surface query conflict: managed_task_ref=");
                    push_str(&mut m, t.managed_task_ref.as_str());
                    push_str(&mut m, " points to missing pending decision window ");
                    push_str(&mut m, id.as_str());
                    proof {
                        assert(wv[i as int] is None);
                        assert(m@ =~= missing_window_text(t@.managed_task_ref, id@));
                        lemma_gather_error_persists(tv, wv, i as int + 1);
                    }
                    return Err(FlowError::Other(m));
                },
                Some(w) => {
                    if w.status != PendingDecisionWindowStatus::Open {
                        let mut m = owned("control surface query conflict: managed_task_ref=");
                        push_str(&mut m, t.managed_task_ref.as_str());
                        push_str(&mut m, " points to non-open pending decision window ");
                        push_str(&mut m, id.as_str());
                        push_str(&mut m, " with status ");
                        push_str(&mut m, window_status_text(w.status));
                        proof {
                            assert(wv[i as int] == Some(w@));
                            assert(m@ =~= closed_window_text(t@.managed_task_ref, id@, w@.status));
                            lemma_gather_error_persists(tv, wv, i as int + 1);
                        }
                        return Err(FlowError::Other(m));
                    }
                    let actions = w.allowed_actions.clone();
                    assert(actions@ =~= w.allowed_actions@);
                    let p = CurrentControlSurfaceProjection {
                        host_session_id: t.host_session_id.clone(),
                        surface_type: map_surface_type(w.kind),
                        managed_task_ref: w.managed_task_ref.clone(),
                        decision_token: w.decision_token.clone(),
                        allowed_actions: actions,
                    };
                    let ghost prev = surfaces.deep_view();
                    assert(wv[i as int] == Some(w@));
                    surfaces.push(p);
                    assert(surfaces.deep_view() =~= prev.push(p@));
                },
            },
        }
        i += 1;
    }
    proof {
        assert(tv.take(tv.len() as int) =~= tv);
        assert(wv.take(wv.len() as int) =~= wv);
    }
    if surfaces.len() == 0 {
        Ok(None)
    } else if surfaces.len() == 1 {
        let p = surfaces.remove(0);
        Ok(Some(p))
    } else {
        let mut m = owned("control surface query conflict: host_session_id=");
        push_str(&mut m, host_session_id);
        push_str(&mut m, " has ");
        let n = u128_to_decimal(surfaces.len() as u128);
        push_str(&mut m, n.as_str());
        push_str(&mut m, " open windows");
        Err(FlowError::Other(m))
    }
}

/// Once gathering a prefix is refused, gathering everything is refused the
/// same way.
proof fn lemma_gather_error_persists(
    tasks: Seq<ManagedTaskView>,
    windows: Seq<Option<PendingDecisionWindowView>>,
    n: int,
)
    requires
        0 < n <= tasks.len(),
        tasks.len() == windows.len(),
        gather_surfaces(tasks.take(n), windows.take(n)) is Err,
    ensures
        gather_surfaces(tasks, windows) == gather_surfaces(tasks.take(n), windows.take(n)),
    decreases tasks.len() - n,
{
    if n < tasks.len() {
        assert(tasks.take(n + 1).drop_last() =~= tasks.take(n));
        assert(windows.take(n + 1).drop_last() =~= windows.take(n));
        lemma_gather_error_persists(tasks, windows, n + 1);
    } else {
        assert(tasks.take(n) =~= tasks);
        assert(windows.take(n) =~= windows);
    }
}


/// The task at `k` points at a window that was found open.
pub open spec fn points_at_open_window(
    tasks: Seq<ManagedTaskView>,
    windows: Seq<Option<PendingDecisionWindowView>>,
    k: int,
) -> bool {
    &&& tasks[k].current_pending_window_ref is Some
    &&& windows[k] matches Some(w) && w.status == PendingDecisionWindowStatus::Open
}

/// How many of the tasks point at a window that was found open.
pub open spec fn open_window_count(
    tasks: Seq<ManagedTaskView>,
    windows: Seq<Option<PendingDecisionWindowView>>,
) -> nat
    decreases tasks.len(),
{
    if tasks.len() == 0 || windows.len() == 0 {
        0
    } else {
        open_window_count(tasks.drop_last(), windows.drop_last()) + if points_at_open_window(
            tasks,
            windows,
            tasks.len() - 1,
        ) {
            1nat
        } else {
            0nat
        }
    }
}

/// Gathering that succeeds yields one surface per task pointing at an open
/// window.
proof fn lemma_gathered_surfaces_count_open_windows(
    tasks: Seq<ManagedTaskView>,
    windows: Seq<Option<PendingDecisionWindowView>>,
)
    requires
        tasks.len() == windows.len(),
    ensures
        gather_surfaces(tasks, windows) matches Ok(s) ==> s.len() == open_window_count(tasks, windows),
    decreases tasks.len(),
{
    if tasks.len() > 0 {
        lemma_gathered_surfaces_count_open_windows(tasks.drop_last(), windows.drop_last());
    }
}

/// Two tasks pointing at open windows count at least two.
proof fn lemma_two_open_windows_count_two(
    tasks: Seq<ManagedTaskView>,
    windows: Seq<Option<PendingDecisionWindowView>>,
    i: int,
    j: int,
)
    requires
        tasks.len() == windows.len(),
        0 <= i < j < tasks.len(),
        points_at_open_window(tasks, windows, i),
        points_at_open_window(tasks, windows, j),
    ensures
        open_window_count(tasks, windows) >= 2,
    decreases tasks.len(),
{
    let n = tasks.len() - 1;
    let (t, w) = (tasks.drop_last(), windows.drop_last());
    assert(t[i] == tasks[i] && w[i] == windows[i]);
    if j == n {
        lemma_open_window_counts_one(t, w, i);
    } else {
        assert(t[j] == tasks[j] && w[j] == windows[j]);
        lemma_two_open_windows_count_two(t, w, i, j);
    }
}

/// A task pointing at an open window counts at least one.
proof fn lemma_open_window_counts_one(
    tasks: Seq<ManagedTaskView>,
    windows: Seq<Option<PendingDecisionWindowView>>,
    i: int,
)
    requires
        tasks.len() == windows.len(),
        0 <= i < tasks.len(),
        points_at_open_window(tasks, windows, i),
    ensures
        open_window_count(tasks, windows) >= 1,
    decreases tasks.len(),
{
    let n = tasks.len() - 1;
    if i < n {
        let (t, w) = (tasks.drop_last(), windows.drop_last());
        assert(t[i] == tasks[i] && w[i] == windows[i]);
        lemma_open_window_counts_one(t, w, i);
    }
}

/// The control surface fails closed: when two of a session's tasks point at
/// windows that are open, the query is refused rather than answered with
/// either of them.
pub proof fn law_control_surface_fails_closed(
    host_session_id: Seq<char>,
    tasks: Seq<ManagedTaskView>,
    windows: Seq<Option<PendingDecisionWindowView>>,
    i: int,
    j: int,
)
    requires
        tasks.len() == windows.len(),
        0 <= i < j < tasks.len(),
        points_at_open_window(tasks, windows, i),
        points_at_open_window(tasks, windows, j),
    ensures
        control_surface_spec(host_session_id, tasks, windows) is Err,
{
    lemma_gathered_surfaces_count_open_windows(tasks, windows);
    lemma_two_open_windows_count_two(tasks, windows, i, j);
}

} // verus!
