//! Handing host execution commands to the host and recording its
//! acknowledgements.
use crate::model::bridge::{HostExecutionCommand, HostExecutionCommandStatus, HostExecutionCommandView};
use crate::model::ids::{is_millis_text, now_timestamp};
use crate::text::str_eq;
use vstd::prelude::*;

verus! {

/// A command waits for the host when it is still pending for the session.
pub open spec fn is_waiting(c: HostExecutionCommandView, host_session_id: Seq<char>) -> bool {
    c.host_session_id == host_session_id && c.status == HostExecutionCommandStatus::Pending
}

/// The first command, in queue order, waiting for the session.
#[verifier::opaque]
pub open spec fn first_waiting(cs: Seq<HostExecutionCommandView>, host_session_id: Seq<char>) -> Option<int> {
    if exists|k: int| 0 <= k < cs.len() && is_waiting(#[trigger] cs[k], host_session_id) {
        Some(
            choose|k: int|
                0 <= k < cs.len() && is_waiting(#[trigger] cs[k], host_session_id) && forall|j: int|
                    0 <= j < k ==> !is_waiting(#[trigger] cs[j], host_session_id),
        )
    } else {
        None
    }
}

/// The index of the first command, in queue order, waiting for the session.
pub fn select_next_command(commands: &Vec<HostExecutionCommand>, host_session_id: &str) -> (r: Option<
    usize,
>)
    ensures
        match r {
            Some(k) => k < commands@.len() && first_waiting(commands.deep_view(), host_session_id@)
                == Some(k as int),
            None => first_waiting(commands.deep_view(), host_session_id@) is None,
        },
{
    let ghost cs = commands.deep_view();
    let mut i: usize = 0;
    while i < commands.len()
        invariant
            cs == commands.deep_view(),
            i <= cs.len(),
            forall|j: int| 0 <= j < i ==> !is_waiting(#[trigger] cs[j], host_session_id@),
        decreases commands.len() - i,
    {
        let c = &commands[i];
        assert(cs[i as int] == c@);
        if c.status == HostExecutionCommandStatus::Pending && str_eq(
            c.host_session_id.as_str(),
            host_session_id,
        ) {
            proof {
                reveal(first_waiting);
                let k = choose|k: int|
                    0 <= k < cs.len() && is_waiting(#[trigger] cs[k], host_session_id@) && forall|j: int|
                        0 <= j < k ==> !is_waiting(#[trigger] cs[j], host_session_id@);
                assert(0 <= i < cs.len() && is_waiting(cs[i as int], host_session_id@));
                assert(k == i as int) by {
                    if k > i {
                        assert(!is_waiting(cs[i as int], host_session_id@));
                    }
                }
            }
            return Some(i);
        }
        i += 1;
    }
    proof {
        reveal(first_waiting);
    }
    None
}

/// Acknowledges a command: one already acknowledged is left as it is; a
/// pending one becomes dispatched; either way its acknowledgement time is
/// set. Returns whether the command was dispatched by this acknowledgement.
pub fn acknowledge_command(c: &mut HostExecutionCommand) -> (dispatched: bool)
    ensures
        old(c)@.acked_at is Some ==> (!dispatched && final(c)@ == old(c)@),
        old(c)@.acked_at is None ==> {
            &&& dispatched == (old(c)@.status == HostExecutionCommandStatus::Pending)
            &&& final(c)@ == (HostExecutionCommandView {
                status: if dispatched {
                    HostExecutionCommandStatus::Dispatched
                } else {
                    old(c)@.status
                },
                acked_at: final(c)@.acked_at,
                ..old(c)@
            })
            &&& final(c)@.acked_at matches Some(t) && is_millis_text(t)
        },
{
    if c.acked_at.is_some() {
        return false;
    }
    let dispatched = c.status == HostExecutionCommandStatus::Pending;
    if dispatched {
        c.status = HostExecutionCommandStatus::Dispatched;
    }
    c.acked_at = Some(now_timestamp());
    dispatched
}

} // verus!
