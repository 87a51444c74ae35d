//! Bootstrapping the bridge: tickets written for the host adapter, and the
//! exchange of a ticket for a session credential.
use crate::bridge::auth::{bridge_ticket_matches_secret, credential_check_spec, hash_secret, secret_hash_spec};
use crate::model::bridge::BridgeAuthEnvelopeView;
use crate::model::bridge::{
    BridgeBootstrapAck, BridgeBootstrapAckView, BridgeBootstrapMaterial, BridgeBootstrapMaterialView,
    BridgeBootstrapRequest, BridgeBootstrapTicket, BridgeBootstrapTicketView, BridgeCredentialStatus,
    BridgeHealthResponse, BridgeHealthResponseView, BridgeSessionCredential,
    BridgeSessionCredentialView,
};
use crate::model::ids::{future_timestamp_ms, is_millis_text, is_minted_id, new_id, now_timestamp, timestamp_after_spec};
use crate::text::{owned, str_eq};
use vstd::prelude::*;

verus! {

/// The adapter the bridge issues its first ticket for.
pub const DEFAULT_ADAPTER_ID: &'static str = "loom-openclaw";

/// Where, under the runtime root, the adapter finds its bootstrap material.
pub const BOOTSTRAP_TICKET_RELATIVE_PATH: &'static str = "bootstrap/openclaw/bootstrap-ticket.json";

/// How long a bootstrap ticket stays valid, in milliseconds.
pub open spec fn ticket_lifetime_ms() -> u128 {
    600000
}

/// A new ticket and the material handed to the adapter for it.
pub struct IssuedTicket {
    pub ticket: BridgeBootstrapTicket,
    pub material: BridgeBootstrapMaterial,
}

/// Issues a bootstrap ticket for an adapter of a bridge instance: a fresh
/// `ticket-` identifier and `ticket-secret-` secret, pending bootstrap, valid
/// for ten minutes; the ticket keeps only the secret's hash, the material
/// the secret itself.
pub fn issue_bootstrap_ticket(bridge_instance_id: &str, adapter_id: &str) -> (r: IssuedTicket)
    ensures
        r.ticket@ == (BridgeBootstrapTicketView {
            ticket_id: r.ticket@.ticket_id,
            bridge_instance_id: bridge_instance_id@,
            adapter_id: adapter_id@,
            issued_at: r.ticket@.issued_at,
            expires_at: r.ticket@.expires_at,
            ticket_secret_hash: secret_hash_spec(r.material@.ticket_secret),
            status: BridgeCredentialStatus::PendingBootstrap,
        }),
        is_minted_id(r.ticket@.ticket_id, "ticket"@),
        is_minted_id(r.material@.ticket_secret, "ticket-secret"@),
        is_millis_text(r.ticket@.issued_at),
        exists|now: Seq<char>|
            is_millis_text(now) && r.ticket@.expires_at == timestamp_after_spec(now, ticket_lifetime_ms()),
        r.material@ == (BridgeBootstrapMaterialView {
            bridge_instance_id: bridge_instance_id@,
            adapter_id: adapter_id@,
            ticket_id: r.ticket@.ticket_id,
            ticket_secret: r.material@.ticket_secret,
            issued_at: r.ticket@.issued_at,
            expires_at: r.ticket@.expires_at,
        }),
{
    let ticket_secret = new_id("ticket-secret");
    let ticket = BridgeBootstrapTicket {
        ticket_id: new_id("ticket"),
        bridge_instance_id: owned(bridge_instance_id),
        adapter_id: owned(adapter_id),
        issued_at: now_timestamp(),
        expires_at: future_timestamp_ms(600000),
        ticket_secret_hash: hash_secret(ticket_secret.as_str()),
        status: BridgeCredentialStatus::PendingBootstrap,
    };
    let material = BridgeBootstrapMaterial {
        bridge_instance_id: owned(bridge_instance_id),
        adapter_id: owned(adapter_id),
        ticket_id: ticket.ticket_id.clone(),
        ticket_secret,
        issued_at: ticket.issued_at.clone(),
        expires_at: ticket.expires_at.clone(),
    };
    IssuedTicket { ticket, material }
}

/// The outcome of a bootstrap request.
#[derive(Clone, Copy, Debug, PartialEq, Eq, Structural)]
pub enum BootstrapVerdict {
    /// No ticket has the requested identifier.
    TicketNotFound,
    /// The ticket was used already; a fresh ticket is issued.
    TicketConsumed,
    /// The ticket or the request names another bridge instance.
    InstanceMismatch,
    /// The ticket was issued for another adapter.
    AdapterMismatch,
    /// The secret is not the ticket's; the refusal is audited.
    SecretMismatch,
    /// The ticket is exchanged for a session credential.
    Accepted,
}

/// The outcome of a bootstrap request, given the ticket found under its
/// identifier and this bridge's instance.
pub open spec fn bootstrap_verdict_spec(
    ticket: Option<BridgeBootstrapTicketView>,
    request_instance: Seq<char>,
    request_adapter: Seq<char>,
    request_secret: Seq<char>,
    bridge_instance_id: Seq<char>,
) -> BootstrapVerdict {
    match ticket {
        None => BootstrapVerdict::TicketNotFound,
        Some(t) => if t.status != BridgeCredentialStatus::PendingBootstrap {
            BootstrapVerdict::TicketConsumed
        } else if t.bridge_instance_id != request_instance || request_instance != bridge_instance_id {
            BootstrapVerdict::InstanceMismatch
        } else if t.adapter_id != request_adapter {
            BootstrapVerdict::AdapterMismatch
        } else if t.ticket_secret_hash != secret_hash_spec(request_secret) {
            BootstrapVerdict::SecretMismatch
        } else {
            BootstrapVerdict::Accepted
        },
    }
}

/// Judges a bootstrap request.
pub fn judge_bootstrap(
    ticket: Option<&BridgeBootstrapTicket>,
    request: &BridgeBootstrapRequest,
    bridge_instance_id: &str,
) -> (r: BootstrapVerdict)
    ensures
        r == bootstrap_verdict_spec(
            match ticket {
                Some(t) => Some(t@),
                None => None,
            },
            request@.bridge_instance_id,
            request@.adapter_id,
            request@.ticket_secret,
            bridge_instance_id@,
        ),
{
    let t = match ticket {
        None => {
            return BootstrapVerdict::TicketNotFound;
        },
        Some(t) => t,
    };
    if t.status != BridgeCredentialStatus::PendingBootstrap {
        return BootstrapVerdict::TicketConsumed;
    }
    if !str_eq(t.bridge_instance_id.as_str(), request.bridge_instance_id.as_str()) || !str_eq(
        request.bridge_instance_id.as_str(),
        bridge_instance_id,
    ) {
        return BootstrapVerdict::InstanceMismatch;
    }
    if !str_eq(t.adapter_id.as_str(), request.adapter_id.as_str()) {
        return BootstrapVerdict::AdapterMismatch;
    }
    if !bridge_ticket_matches_secret(t, request.ticket_secret.as_str()) {
        return BootstrapVerdict::SecretMismatch;
    }
    BootstrapVerdict::Accepted
}

/// The text a refused bootstrap is answered with.
pub open spec fn bootstrap_refusal_text(v: BootstrapVerdict) -> Seq<char> {
    match v {
        BootstrapVerdict::TicketNotFound => "bootstrap ticket not found"@,
        BootstrapVerdict::TicketConsumed => "bootstrap ticket already consumed; refresh bootstrap material and retry"@,
        BootstrapVerdict::InstanceMismatch => "bridge instance mismatch"@,
        BootstrapVerdict::AdapterMismatch => "adapter mismatch"@,
        BootstrapVerdict::SecretMismatch => "bootstrap secret mismatch"@,
        BootstrapVerdict::Accepted => Seq::empty(),
    }
}

/// The text a refused bootstrap is answered with.
pub fn bootstrap_refusal(v: BootstrapVerdict) -> (r: String)
    ensures
        r@ == bootstrap_refusal_text(v),
{
    match v {
        BootstrapVerdict::TicketNotFound => owned("bootstrap ticket not found"),
        BootstrapVerdict::TicketConsumed => owned(
            "bootstrap ticket already consumed; refresh bootstrap material and retry",
        ),
        BootstrapVerdict::InstanceMismatch => owned("bridge instance mismatch"),
        BootstrapVerdict::AdapterMismatch => owned("adapter mismatch"),
        BootstrapVerdict::SecretMismatch => owned("bootstrap secret mismatch"),
        BootstrapVerdict::Accepted => String::new(),
    }
}

/// The steps that follow the judgment of a bootstrap request. When it is
/// accepted, a credential and a new ticket are issued; a used ticket is
/// refused and a new ticket issued; a wrong secret is refused and noted in
/// the audit trail; any other refusal is only answered.
pub struct BootstrapActions {
    pub issue_credential: bool,
    pub issue_fresh_ticket: bool,
    pub audit_secret_mismatch: bool,
    pub refusal: Option<String>,
}

/// The actions that follow a bootstrap verdict.
pub fn bootstrap_actions(verdict: BootstrapVerdict) -> (r: BootstrapActions)
    ensures
        r.issue_credential == (verdict == BootstrapVerdict::Accepted),
        r.issue_fresh_ticket == (verdict == BootstrapVerdict::Accepted || verdict
            == BootstrapVerdict::TicketConsumed),
        r.audit_secret_mismatch == (verdict == BootstrapVerdict::SecretMismatch),
        match r.refusal {
            None => verdict == BootstrapVerdict::Accepted,
            Some(t) => verdict != BootstrapVerdict::Accepted && t@ == bootstrap_refusal_text(verdict),
        },
{
    let accepted = verdict == BootstrapVerdict::Accepted;
    BootstrapActions {
        issue_credential: accepted,
        issue_fresh_ticket: accepted || verdict == BootstrapVerdict::TicketConsumed,
        audit_secret_mismatch: verdict == BootstrapVerdict::SecretMismatch,
        refusal: if accepted {
            None
        } else {
            Some(bootstrap_refusal(verdict))
        },
    }
}

/// The rotation epoch after the highest one issued so far: the first, 1,
/// when none was.
pub open spec fn next_epoch_spec(highest: Option<u32>) -> int {
    match highest {
        Some(h) => h + 1,
        None => 1,
    }
}

/// A credential of this epoch revokes those issued before it: every epoch
/// after the first.
pub open spec fn revokes_spec(rotation_epoch: int) -> bool {
    rotation_epoch > 1
}

/// The rotation epoch after the highest one issued so far (the first when
/// none was).
pub fn next_rotation_epoch(highest: Option<u32>) -> (r: u32)
    requires
        match highest {
            Some(h) => h < u32::MAX,
            None => true,
        },
    ensures
        r == next_epoch_spec(highest),
{
    match highest {
        Some(h) => h + 1,
        None => 1,
    }
}

/// A session credential and the secret it was issued for.
pub struct IssuedCredential {
    pub credential: BridgeSessionCredential,
    pub session_secret: String,
}

/// Issues a session credential for an adapter of a bridge instance under a
/// rotation epoch: fresh `credential-` and `secret-ref-` identifiers, a
/// fresh `session-secret-` secret of which only the hash is kept, active,
/// with no expiry.
pub fn issue_session_credential(bridge_instance_id: &str, adapter_id: &str, rotation_epoch: u32) -> (r:
    IssuedCredential)
    ensures
        r.credential@ == (BridgeSessionCredentialView {
            credential_id: r.credential@.credential_id,
            bridge_instance_id: bridge_instance_id@,
            adapter_id: adapter_id@,
            secret_ref: r.credential@.secret_ref,
            secret_hash: secret_hash_spec(r.session_secret@),
            rotation_epoch,
            issued_at: r.credential@.issued_at,
            expires_at: None,
            status: BridgeCredentialStatus::Active,
        }),
        is_minted_id(r.credential@.credential_id, "credential"@),
        is_minted_id(r.credential@.secret_ref, "secret-ref"@),
        is_minted_id(r.session_secret@, "session-secret"@),
        is_millis_text(r.credential@.issued_at),
{
    let session_secret = new_id("session-secret");
    let credential = BridgeSessionCredential {
        credential_id: new_id("credential"),
        bridge_instance_id: owned(bridge_instance_id),
        adapter_id: owned(adapter_id),
        secret_ref: new_id("secret-ref"),
        secret_hash: hash_secret(session_secret.as_str()),
        rotation_epoch,
        issued_at: now_timestamp(),
        expires_at: None,
        status: BridgeCredentialStatus::Active,
    };
    IssuedCredential { credential, session_secret }
}

/// Credentials issued before this one are revoked once it is not the first
/// rotation.
pub fn revokes_earlier_credentials(rotation_epoch: u32) -> (r: bool)
    ensures
        r == revokes_spec(rotation_epoch as int),
{
    rotation_epoch > 1
}

/// Marks a ticket as used.
pub fn consume_ticket(ticket: &mut BridgeBootstrapTicket)
    ensures
        final(ticket)@ == (BridgeBootstrapTicketView {
            status: BridgeCredentialStatus::Consumed,
            ..old(ticket)@
        }),
{
    ticket.status = BridgeCredentialStatus::Consumed;
}

/// Marks a credential as revoked.
pub fn revoke_credential(credential: &mut BridgeSessionCredential)
    ensures
        final(credential)@ == (BridgeSessionCredentialView {
            status: BridgeCredentialStatus::Revoked,
            ..old(credential)@
        }),
{
    credential.status = BridgeCredentialStatus::Revoked;
}

/// The answer to an accepted bootstrap.
pub fn bootstrap_ack(bridge_instance_id: &str, issued: &IssuedCredential) -> (r: BridgeBootstrapAck)
    ensures
        r@ == (BridgeBootstrapAckView {
            bridge_instance_id: bridge_instance_id@,
            credential_id: issued.credential@.credential_id,
            secret_ref: issued.credential@.secret_ref,
            rotation_epoch: issued.credential@.rotation_epoch,
            session_secret: issued.session_secret@,
            issued_at: issued.credential@.issued_at,
            expires_at: issued.credential@.expires_at,
        }),
{
    BridgeBootstrapAck {
        bridge_instance_id: owned(bridge_instance_id),
        credential_id: issued.credential.credential_id.clone(),
        secret_ref: issued.credential.secret_ref.clone(),
        rotation_epoch: issued.credential.rotation_epoch,
        session_secret: issued.session_secret.clone(),
        issued_at: issued.credential.issued_at.clone(),
        expires_at: match &issued.credential.expires_at {
            Some(e) => Some(e.clone()),
            None => None,
        },
    }
}

/// The bridge's answer to a health check.
pub fn health_response(bridge_instance_id: &str) -> (r: BridgeHealthResponse)
    ensures
        r@ == (BridgeHealthResponseView { bridge_instance_id: bridge_instance_id@, status: "ready"@ }),
{
    BridgeHealthResponse { bridge_instance_id: owned(bridge_instance_id), status: owned("ready") }
}

/// Bootstrapping again rotates the credentials. The material a ticket was
/// issued with is accepted for this bridge once, and the same ticket is
/// refused as consumed afterwards. The credential it yields carries the
/// epoch after the highest issued so far; when one was issued before, the
/// earlier credentials are revoked, and a request presenting a revoked
/// credential is refused.
pub proof fn law_bootstrap_rotates_credentials(
    ticket: BridgeBootstrapTicketView,
    secret: Seq<char>,
    bridge_instance_id: Seq<char>,
    highest: Option<u32>,
    earlier: BridgeSessionCredentialView,
    envelope: BridgeAuthEnvelopeView,
)
    requires
        ticket.ticket_secret_hash == secret_hash_spec(secret),
        ticket.status == BridgeCredentialStatus::PendingBootstrap,
        ticket.bridge_instance_id == bridge_instance_id,
        match highest {
            Some(h) => 1 <= h < u32::MAX,
            None => true,
        },
    ensures
        bootstrap_verdict_spec(
            Some(ticket),
            bridge_instance_id,
            ticket.adapter_id,
            secret,
            bridge_instance_id,
        ) == BootstrapVerdict::Accepted,
        bootstrap_verdict_spec(
            Some(BridgeBootstrapTicketView { status: BridgeCredentialStatus::Consumed, ..ticket }),
            bridge_instance_id,
            ticket.adapter_id,
            secret,
            bridge_instance_id,
        ) == BootstrapVerdict::TicketConsumed,
        match highest {
            Some(h) => next_epoch_spec(highest) == h + 1 && revokes_spec(next_epoch_spec(highest)),
            None => next_epoch_spec(highest) == 1 && !revokes_spec(next_epoch_spec(highest)),
        },
        credential_check_spec(
            envelope,
            Some(BridgeSessionCredentialView { status: BridgeCredentialStatus::Revoked, ..earlier }),
        ) is Err,
{
}

} // verus!
