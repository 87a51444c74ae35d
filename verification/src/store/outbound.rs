//! The life of an outbound delivery: queued, handed to the host, then
//! acknowledged, retried or given up on.
use crate::model::ids::{is_millis_text, is_minted_id, new_id, now_timestamp};
use crate::model::outbound::{
    DeliveryStatus, KernelOutboundPayload, KernelOutboundPayloadView, OutboundDelivery,
    OutboundDeliveryView,
};
use crate::text::{chars_to_string, leading_number, leading_number_capped, str_eq, to_chars};
use vstd::prelude::*;

verus! {

/// How many times a delivery is handed to the host before it is given up.
pub const DEFAULT_OUTBOUND_MAX_ATTEMPTS: u32 = 6;

/// The task an outbound payload concerns, if it concerns one.
pub open spec fn payload_task_ref(payload: KernelOutboundPayloadView) -> Option<Seq<char>> {
    match payload {
        KernelOutboundPayloadView::StartCard(p) => Some(p.managed_task_ref),
        KernelOutboundPayloadView::BoundaryCard(p) => Some(p.managed_task_ref),
        KernelOutboundPayloadView::ResultSummary(p) => Some(p.managed_task_ref),
        KernelOutboundPayloadView::ApprovalRequest(p) => Some(p.managed_task_ref),
        KernelOutboundPayloadView::SuppressHostMessage(_) => None,
        KernelOutboundPayloadView::ToolDecision(p) => Some(p.managed_task_ref),
        KernelOutboundPayloadView::StatusNotice(p) => Some(p.managed_task_ref),
    }
}

/// The task an outbound payload concerns, if it concerns one.
pub fn managed_task_ref_from_payload(payload: &KernelOutboundPayload) -> (r: Option<String>)
    ensures
        r.deep_view() == payload_task_ref(payload@),
{
    match payload {
        KernelOutboundPayload::StartCard(p) => Some(p.managed_task_ref.clone()),
        KernelOutboundPayload::BoundaryCard(p) => Some(p.managed_task_ref.clone()),
        KernelOutboundPayload::ResultSummary(p) => Some(p.managed_task_ref.clone()),
        KernelOutboundPayload::ApprovalRequest(p) => Some(p.managed_task_ref.clone()),
        KernelOutboundPayload::SuppressHostMessage(_) => None,
        KernelOutboundPayload::ToolDecision(p) => Some(p.managed_task_ref.clone()),
        KernelOutboundPayload::StatusNotice(p) => Some(p.managed_task_ref.clone()),
    }
}

/// A freshly queued delivery of a payload to a session.
pub open spec fn queued_delivery(
    host_session_id: Seq<char>,
    payload: KernelOutboundPayloadView,
    delivery_id: Seq<char>,
    correlation_id: Seq<char>,
    created_at: Seq<char>,
) -> OutboundDeliveryView {
    OutboundDeliveryView {
        delivery_id,
        host_session_id,
        managed_task_ref: payload_task_ref(payload),
        correlation_id,
        causation_id: None,
        payload,
        delivery_status: DeliveryStatus::Pending,
        attempts: 0,
        max_attempts: DEFAULT_OUTBOUND_MAX_ATTEMPTS,
        next_attempt_at: None,
        expires_at: None,
        last_error: None,
        created_at,
        acked_at: None,
    }
}

/// Queues a payload for a session: pending, never attempted, with fresh
/// `delivery-` and `corr-` identifiers.
pub fn new_outbound_delivery(host_session_id: String, payload: KernelOutboundPayload) -> (r:
    OutboundDelivery)
    ensures
        r@ == queued_delivery(
            host_session_id@,
            payload@,
            r@.delivery_id,
            r@.correlation_id,
            r@.created_at,
        ),
        is_minted_id(r@.delivery_id, "delivery"@),
        is_minted_id(r@.correlation_id, "corr"@),
        is_millis_text(r@.created_at),
{
    let task_ref = managed_task_ref_from_payload(&payload);
    OutboundDelivery {
        delivery_id: new_id("delivery"),
        host_session_id,
        managed_task_ref: task_ref,
        correlation_id: new_id("corr"),
        causation_id: None,
        payload,
        delivery_status: DeliveryStatus::Pending,
        attempts: 0,
        max_attempts: DEFAULT_OUTBOUND_MAX_ATTEMPTS,
        next_attempt_at: None,
        expires_at: None,
        last_error: None,
        created_at: now_timestamp(),
        acked_at: None,
    }
}

/// A character SQLite skips before the number it reads from text.
pub open spec fn is_sql_space(c: char) -> bool {
    c == ' ' || c == '\t' || c == '\n' || c == '\x0b' || c == '\x0c' || c == '\r'
}

/// The text after the leading whitespace.
pub open spec fn sql_space_skipped(s: Seq<char>) -> Seq<char>
    decreases s.len(),
{
    if s.len() > 0 && is_sql_space(s[0]) {
        sql_space_skipped(s.drop_first())
    } else {
        s
    }
}

/// The integer SQLite's `CAST(text AS INTEGER)` reads: after leading
/// whitespace, an optional sign and the longest run of digits (0 without
/// one), held to the range of a 64-bit signed integer.
pub open spec fn sql_integer(s: Seq<char>) -> int {
    let rest = sql_space_skipped(s);
    let signed = rest.len() > 0 && (rest[0] == '-' || rest[0] == '+');
    let negative = rest.len() > 0 && rest[0] == '-';
    let v = leading_number(if signed { rest.skip(1) } else { rest });
    if negative {
        if v > 0x8000_0000_0000_0000 { i64::MIN as int } else { -v }
    } else {
        if v > i64::MAX { i64::MAX as int } else { v as int }
    }
}

/// The integer SQLite's `CAST(text AS INTEGER)` reads from `s`.
pub fn sql_integer_value(s: &str) -> (r: i64)
    ensures
        r as int == sql_integer(s@),
{
    let v = to_chars(s);
    let mut i: usize = 0;
    assert(v@.skip(0) =~= v@);
    while i < v.len() && (v[i] == ' ' || v[i] == '\t' || v[i] == '\n' || v[i] == '\x0b' || v[i] == '\x0c'
        || v[i] == '\r')
        invariant
            v@ == s@,
            i <= v@.len(),
            sql_space_skipped(v@.skip(i as int)) == sql_space_skipped(s@),
        decreases v.len() - i,
    {
        assert(v@.skip(i as int).drop_first() =~= v@.skip(i + 1));
        i += 1;
    }
    assert(sql_space_skipped(v@.skip(i as int)) == v@.skip(i as int));
    let ghost rest = v@.skip(i as int);
    let negative = i < v.len() && v[i] == '-';
    let signed = i < v.len() && (v[i] == '-' || v[i] == '+');
    let start = if signed { i + 1 } else { i };
    let mut digits: Vec<char> = Vec::new();
    let mut k: usize = start;
    while k < v.len()
        invariant
            v@ == s@,
            start <= k <= v@.len(),
            digits@ == v@.subrange(start as int, k as int),
        decreases v.len() - k,
    {
        digits.push(v[k]);
        k += 1;
        assert(digits@ =~= v@.subrange(start as int, k as int));
    }
    assert(digits@ =~= (if signed { rest.skip(1) } else { rest }));
    let text = chars_to_string(&digits);
    let capped = leading_number_capped(text.as_str());
    if negative {
        if capped >= 0x8000_0000_0000_0000 {
            i64::MIN
        } else {
            -(capped as i64)
        }
    } else {
        if capped > 0x7fff_ffff_ffff_ffff {
            i64::MAX
        } else {
            capped as i64
        }
    }
}

/// A delivery is due for a session at time `now` when it is pending, or
/// scheduled for a retry whose time has come (times compared as SQLite
/// reads them with `CAST(... AS INTEGER)`).
pub open spec fn is_due(d: OutboundDeliveryView, host_session_id: Seq<char>, now: Seq<char>) -> bool {
    &&& d.host_session_id == host_session_id
    &&& (d.delivery_status == DeliveryStatus::Pending || (d.delivery_status
        == DeliveryStatus::RetryScheduled && match d.next_attempt_at {
        None => true,
        Some(t) => sql_integer(t) <= sql_integer(now),
    }))
}

/// The first delivery due, in queue order.
#[verifier::opaque]
pub open spec fn first_due(ds: Seq<OutboundDeliveryView>, host_session_id: Seq<char>, now: Seq<char>) -> Option<
    int,
> {
    if exists|k: int| 0 <= k < ds.len() && is_due(#[trigger] ds[k], host_session_id, now) {
        Some(
            choose|k: int|
                0 <= k < ds.len() && is_due(#[trigger] ds[k], host_session_id, now) && forall|j: int|
                    0 <= j < k ==> !is_due(#[trigger] ds[j], host_session_id, now),
        )
    } else {
        None
    }
}

/// Whether a delivery is due for a session at time `now`.
pub fn delivery_is_due(d: &OutboundDelivery, host_session_id: &str, now: &str) -> (r: bool)
    ensures
        r == is_due(d@, host_session_id@, now@),
{
    if !str_eq(d.host_session_id.as_str(), host_session_id) {
        return false;
    }
    match d.delivery_status {
        DeliveryStatus::Pending => true,
        DeliveryStatus::RetryScheduled => match &d.next_attempt_at {
            None => true,
            Some(t) => sql_integer_value(t.as_str()) <= sql_integer_value(now),
        },
        _ => false,
    }
}

/// The index of the first delivery, in queue order, due for a session at
/// time `now`.
pub fn select_next_outbound(deliveries: &Vec<OutboundDelivery>, host_session_id: &str, now: &str) -> (r:
    Option<usize>)
    ensures
        match r {
            Some(k) => k < deliveries@.len() && first_due(deliveries.deep_view(), host_session_id@, now@)
                == Some(k as int),
            None => first_due(deliveries.deep_view(), host_session_id@, now@) is None,
        },
{
    let ghost ds = deliveries.deep_view();
    let mut i: usize = 0;
    while i < deliveries.len()
        invariant
            ds == deliveries.deep_view(),
            i <= ds.len(),
            forall|j: int| 0 <= j < i ==> !is_due(#[trigger] ds[j], host_session_id@, now@),
        decreases deliveries.len() - i,
    {
        assert(ds[i as int] == deliveries[i as int]@);
        if delivery_is_due(&deliveries[i], host_session_id, now) {
            proof {
                reveal(first_due);
                let k = choose|k: int|
                    0 <= k < ds.len() && is_due(#[trigger] ds[k], host_session_id@, now@) && forall|j: int|
                        0 <= j < k ==> !is_due(#[trigger] ds[j], host_session_id@, now@);
                assert(0 <= i < ds.len() && is_due(ds[i as int], host_session_id@, now@));
                assert(k == i as int) by {
                    if k > i {
                        assert(!is_due(ds[i as int], host_session_id@, now@));
                    }
                }
            }
            return Some(i);
        }
        i += 1;
    }
    proof {
        reveal(first_due);
    }
    None
}

/// A delivery handed to the host: delivering, one more attempt, no retry
/// time.
pub open spec fn delivering(d: OutboundDeliveryView) -> OutboundDeliveryView {
    OutboundDeliveryView {
        delivery_status: DeliveryStatus::Delivering,
        attempts: (d.attempts + 1) as u32,
        next_attempt_at: None,
        ..d
    }
}

/// Marks a delivery as handed to the host.
pub fn mark_delivering(d: &mut OutboundDelivery)
    requires
        old(d)@.attempts < u32::MAX,
    ensures
        final(d)@ == delivering(old(d)@),
{
    d.delivery_status = DeliveryStatus::Delivering;
    d.attempts = d.attempts + 1;
    d.next_attempt_at = None;
}

/// A delivery is given up once acknowledged as expired or failed for good.
pub open spec fn is_terminal_failure(status: DeliveryStatus) -> bool {
    status == DeliveryStatus::Expired || status == DeliveryStatus::TerminalFailed
}

/// Acknowledges a delivery: an acknowledged one stays as it is and counts as
/// acknowledged; an expired or finally failed one is refused and left as it
/// is; any other becomes acknowledged now.
pub fn acknowledge_delivery(d: &mut OutboundDelivery) -> (r: bool)
    ensures
        old(d)@.delivery_status == DeliveryStatus::Acked ==> r && final(d)@ == old(d)@,
        is_terminal_failure(old(d)@.delivery_status) ==> !r && final(d)@ == old(d)@,
        old(d)@.delivery_status != DeliveryStatus::Acked && !is_terminal_failure(
            old(d)@.delivery_status,
        ) ==> (r && final(d)@ == (OutboundDeliveryView {
            delivery_status: DeliveryStatus::Acked,
            acked_at: final(d)@.acked_at,
            ..old(d)@
        }) && (final(d)@.acked_at matches Some(t) && is_millis_text(t))),
{
    match d.delivery_status {
        DeliveryStatus::Acked => true,
        DeliveryStatus::Expired | DeliveryStatus::TerminalFailed => false,
        _ => {
            d.delivery_status = DeliveryStatus::Acked;
            d.acked_at = Some(now_timestamp());
            true
        },
    }
}

/// A failed hand-over: once the attempts reach the limit the delivery fails
/// for good and is not retried; otherwise it is scheduled for another try.
/// Either way the error is kept.
pub open spec fn after_failed_attempt(
    d: OutboundDeliveryView,
    next_attempt_at: Seq<char>,
    last_error: Seq<char>,
) -> OutboundDeliveryView {
    if d.attempts >= d.max_attempts {
        OutboundDeliveryView {
            delivery_status: DeliveryStatus::TerminalFailed,
            next_attempt_at: None,
            last_error: Some(last_error),
            ..d
        }
    } else {
        OutboundDeliveryView {
            delivery_status: DeliveryStatus::RetryScheduled,
            next_attempt_at: Some(next_attempt_at),
            last_error: Some(last_error),
            ..d
        }
    }
}

/// Records a failed hand-over of a delivery.
pub fn schedule_retry(d: &mut OutboundDelivery, next_attempt_at: String, last_error: String)
    ensures
        final(d)@ == after_failed_attempt(old(d)@, next_attempt_at@, last_error@),
{
    if d.attempts >= d.max_attempts {
        d.delivery_status = DeliveryStatus::TerminalFailed;
        d.next_attempt_at = None;
        d.last_error = Some(last_error);
    } else {
        d.delivery_status = DeliveryStatus::RetryScheduled;
        d.next_attempt_at = Some(next_attempt_at);
        d.last_error = Some(last_error);
    }
}

/// A delivery that failed for good is never due again, whatever the time.
pub proof fn law_failed_delivery_is_never_due(
    d: OutboundDeliveryView,
    next_attempt_at: Seq<char>,
    last_error: Seq<char>,
    host_session_id: Seq<char>,
    now: Seq<char>,
)
    requires
        d.attempts >= d.max_attempts,
    ensures
        after_failed_attempt(d, next_attempt_at, last_error).delivery_status
            == DeliveryStatus::TerminalFailed,
        !is_due(after_failed_attempt(d, next_attempt_at, last_error), host_session_id, now),
{
}

/// A delivery with attempts left is due again exactly once its retry time
/// has come.
pub proof fn law_retry_waits_for_its_time(
    d: OutboundDeliveryView,
    next_attempt_at: Seq<char>,
    last_error: Seq<char>,
    now: Seq<char>,
)
    requires
        d.attempts < d.max_attempts,
    ensures
        is_due(after_failed_attempt(d, next_attempt_at, last_error), d.host_session_id, now) <==> sql_integer(
            next_attempt_at,
        ) <= sql_integer(now),
{
}

/// Handing a delivery over counts one attempt, so a delivery that keeps
/// failing is handed over at most its limit of times: once handed over that
/// many times, its next failure ends it.
pub proof fn law_attempts_are_bounded(d: OutboundDeliveryView, next_attempt_at: Seq<char>, last_error: Seq<char>)
    requires
        d.attempts < u32::MAX,
        d.attempts + 1 >= d.max_attempts,
    ensures
        delivering(d).attempts == d.attempts + 1,
        after_failed_attempt(delivering(d), next_attempt_at, last_error).delivery_status
            == DeliveryStatus::TerminalFailed,
{
}

} // verus!
