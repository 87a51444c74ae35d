//! Identifier and timestamp conventions.
use crate::text::{decimal_digits, owned, push_str, u128_to_decimal, parse_u128_spec};
use vstd::prelude::*;

verus! {

pub type Timestamp = String;
pub type ManagedTaskRef = String;
pub type DecisionToken = String;
pub type PendingDecisionWindowId = String;
pub type PendingDecisionWindowRef = String;
pub type TaskScopeId = String;
pub type PhasePlanId = String;
pub type PhasePlanEntryId = String;
pub type RiskAssessmentId = String;
pub type RiskAssessmentRef = String;
pub type ExecutionAuthorizationId = String;
pub type ExecutionAuthorizationRef = String;
pub type HostCapabilitySnapshotRef = String;
pub type IsolatedTaskRunRef = String;
pub type AgentBindingId = String;
pub type AgentBindingRef = String;
pub type ProofOfWorkBundleId = String;
pub type HostExecutionCommandId = String;
pub type OutboundDeliveryId = String;
pub type ControlActionId = String;
pub type SemanticDecisionEnvelopeId = String;
pub type HostSessionId = String;
pub type HostMessageRef = String;
pub type RequirementId = String;
pub type StageRunRef = String;
pub type PackRef = String;
pub type SpecBundleId = String;
pub type ReviewResultId = String;
pub type ResultContractId = String;
pub type BridgeInstanceId = String;
pub type BridgeBootstrapTicketId = String;
pub type BridgeCredentialId = String;
pub type BridgeSecretRef = String;
pub type BridgeNonce = String;
pub type BridgeSignature = String;
pub type BridgeBootstrapSecret = String;
pub type BridgeSessionSecret = String;
pub type AdapterId = String;

/// True for a lower-case hexadecimal digit.
pub open spec fn is_lower_hex(c: char) -> bool {
    ('0' <= c && c <= '9') || ('a' <= c && c <= 'f')
}

/// The text of a random (version 4) UUID in its hyphenated lower-case form:
/// 36 characters, hyphens at 8, 13, 18 and 23, the version digit `4` at 14,
/// a variant digit out of `8`, `9`, `a`, `b` at 19, lower-case hex elsewhere.
pub open spec fn is_v4_uuid_text(u: Seq<char>) -> bool {
    &&& u.len() == 36
    &&& forall|i: int|
        0 <= i < 36 ==> if i == 8 || i == 13 || i == 18 || i == 23 {
            #[trigger] u[i] == '-'
        } else {
            is_lower_hex(u[i])
        }
    &&& u[14] == '4'
    &&& (u[19] == '8' || u[19] == '9' || u[19] == 'a' || u[19] == 'b')
}

/// An identifier minted by [`new_id`] for `prefix`: the prefix, a hyphen, then
/// the text of a random UUID.
pub open spec fn is_minted_id(id: Seq<char>, prefix: Seq<char>) -> bool {
    &&& id.len() == prefix.len() + 37
    &&& id.subrange(0, prefix.len() as int) == prefix
    &&& id[prefix.len() as int] == '-'
    &&& is_v4_uuid_text(id.subrange(prefix.len() as int + 1, id.len() as int))
}

/// A timestamp as [`now_timestamp`] writes it: the decimal spelling of a count
/// of milliseconds that fits in a `u128`.
pub open spec fn is_millis_text(t: Seq<char>) -> bool {
    exists|m: nat| m <= u128::MAX && t == decimal_digits(m)
}

/// Calls `uuid::Uuid::new_v4` and writes the UUID with `to_string`, whose
/// `Display` form is the hyphenated lower-case text; the crate sets the version
/// and variant bits of every v4 UUID. The bits are random, so nothing more is
/// stated. (The call panics if the operating system gives no random bytes.)
#[verifier::external_body]
fn random_uuid_text() -> (u: String)
    ensures
        is_v4_uuid_text(u@),
{
    uuid::Uuid::new_v4().to_string()
}

/// Reads the system clock: milliseconds since the Unix epoch, or 0 when the
/// clock reads earlier than the epoch. The value depends on the time, so no
/// clause is stated.
#[verifier::external_body]
fn unix_time_millis() -> u128 {
    std::time::SystemTime::now().duration_since(std::time::UNIX_EPOCH).unwrap_or_default().as_millis()
}

/// A fresh identifier: `prefix`, a hyphen and a random UUID.
pub fn new_id(prefix: &str) -> (id: String)
    ensures
        is_minted_id(id@, prefix@),
{
    let mut id = owned(prefix);
    push_str(&mut id, "-");
    let u = random_uuid_text();
    push_str(&mut id, u.as_str());
    proof {
        reveal_strlit("-");
        let p = prefix@;
        assert(id@ == p + seq!['-'] + u@);
        assert(id@.subrange(0, p.len() as int) =~= p);
        assert(id@.subrange(p.len() as int + 1, id@.len() as int) =~= u@);
    }
    id
}

/// The current time as decimal milliseconds since the Unix epoch.
pub fn now_timestamp() -> (t: Timestamp)
    ensures
        is_millis_text(t@),
{
    let millis = unix_time_millis();
    let t = u128_to_decimal(millis);
    assert(t@ == decimal_digits(millis as nat));
    t
}

/// The timestamp `delta_ms` milliseconds after `now`: `now` read as a `u128`
/// (0 when it is not one), plus `delta_ms`, capped at `u128::MAX`.
pub open spec fn timestamp_after_spec(now: Seq<char>, delta_ms: u128) -> Seq<char> {
    let base: nat = match parse_u128_spec(now) {
        Some(v) => v as nat,
        None => 0,
    };
    let sum: nat = base + delta_ms as nat;
    decimal_digits(if sum <= u128::MAX { sum } else { u128::MAX as nat })
}

/// Adds `delta_ms` milliseconds to a timestamp (see [`timestamp_after_spec`]).
pub fn timestamp_after(now: &str, delta_ms: u128) -> (t: Timestamp)
    ensures
        t@ == timestamp_after_spec(now@, delta_ms),
{
    let base = match crate::text::parse_u128(now) {
        Some(v) => v,
        None => 0,
    };
    let sum = if base > u128::MAX - delta_ms {
        u128::MAX
    } else {
        base + delta_ms
    };
    u128_to_decimal(sum)
}

/// The timestamp `delta_ms` milliseconds from now.
pub fn future_timestamp_ms(delta_ms: u128) -> (t: Timestamp)
    ensures
        exists|now: Seq<char>| is_millis_text(now) && t@ == timestamp_after_spec(now, delta_ms),
{
    let now = now_timestamp();
    timestamp_after(now.as_str(), delta_ms)
}

} // verus!
