//! Authenticating a request to the local bridge: a loopback peer, a complete
//! auth envelope for this bridge instance, an active session credential of
//! the right adapter and rotation, a fresh nonce, and a valid signature.
use crate::bridge::crypto::{hex_encode, hmac_sha256, hmac_sha256_spec, lower_hex, sha256_digest, sha256_spec, hex_digit};
use crate::model::bridge::{
    BridgeAuthEnvelope, BridgeAuthEnvelopeView, BridgeBootstrapTicket, BridgeCredentialStatus,
    BridgeSessionCredential, BridgeSessionCredentialView,
};
use crate::text::{
    chars_to_string, join_seq, join_strings, owned, parse_u32, parse_u32_spec, push_str, str_eq,
};
use vstd::prelude::*;

verus! {

/// The UTF-8 bytes of a text.
pub open spec fn utf8(s: Seq<char>) -> Seq<u8> {
    vstd::utf8::encode_utf8(s)
}

/// The stored form of a bridge secret: the lowercase hexadecimal SHA-256
/// digest of its UTF-8 bytes.
pub open spec fn secret_hash_spec(secret: Seq<char>) -> Seq<char> {
    lower_hex(sha256_spec(utf8(secret)))
}

fn hex_digit_exec(v: u8) -> (c: char)
    requires
        v < 16,
    ensures
        c == hex_digit(v),
{
    if v < 10 {
        (v + 48) as char
    } else {
        (v + 87) as char
    }
}

/// Bytes as lowercase hexadecimal text.
pub fn lower_hex_text(bytes: &Vec<u8>) -> (r: String)
    ensures
        r@ == lower_hex(bytes@),
{
    let mut chars: Vec<char> = Vec::new();
    let mut i: usize = 0;
    while i < bytes.len()
        invariant
            i <= bytes@.len(),
            chars@ == lower_hex(bytes@.take(i as int)),
        decreases bytes.len() - i,
    {
        let b = bytes[i];
        chars.push(hex_digit_exec(b / 16));
        chars.push(hex_digit_exec(b % 16));
        assert(bytes@.take(i + 1).drop_last() =~= bytes@.take(i as int));
        assert(chars@ =~= lower_hex(bytes@.take(i + 1)));
        i += 1;
    }
    assert(bytes@.take(bytes@.len() as int) =~= bytes@);
    chars_to_string(&chars)
}

/// The stored form of a bridge secret.
pub fn hash_secret(secret: &str) -> (r: String)
    ensures
        r@ == secret_hash_spec(secret@),
{
    let digest = sha256_digest(secret.as_bytes());
    lower_hex_text(&digest)
}

/// Whether a secret is the one a bootstrap ticket was issued for.
pub fn bridge_ticket_matches_secret(ticket: &BridgeBootstrapTicket, ticket_secret: &str) -> (r: bool)
    ensures
        r == (ticket@.ticket_secret_hash == secret_hash_spec(ticket_secret@)),
{
    let h = hash_secret(ticket_secret);
    str_eq(ticket.ticket_secret_hash.as_str(), h.as_str())
}

/// Whether a secret is the one a session credential was issued for.
pub fn bridge_credential_matches_secret(credential: &BridgeSessionCredential, session_secret: &str) -> (r:
    bool)
    ensures
        r == (credential@.secret_hash == secret_hash_spec(session_secret@)),
{
    let h = hash_secret(session_secret);
    str_eq(credential.secret_hash.as_str(), h.as_str())
}

/// Why a request was refused, with the status it is answered with, and the
/// envelope it carried when it got that far. Refusals marked `audited` are
/// recorded in the bridge's audit trail.
pub struct AuthRejection {
    pub status: u16,
    pub reason: String,
    pub envelope: Option<BridgeAuthEnvelope>,
    pub audited: bool,
}

/// The unauthorized status.
pub open spec fn unauthorized() -> u16 {
    401
}

/// An audited refusal as unauthorized.
pub open spec fn refused(r: AuthRejection, reason: Seq<char>, envelope: Option<BridgeAuthEnvelopeView>) -> bool {
    &&& r.status == unauthorized()
    &&& r.reason@ == reason
    &&& r.audited
    &&& match (r.envelope, envelope) {
        (Some(a), Some(b)) => a@ == b,
        (None, None) => true,
        _ => false,
    }
}

fn refuse(reason: &str, envelope: Option<&BridgeAuthEnvelope>) -> (r: AuthRejection)
    ensures
        refused(
            r,
            reason@,
            match envelope {
                Some(e) => Some(e@),
                None => None,
            },
        ),
{
    AuthRejection {
        status: 401,
        reason: owned(reason),
        envelope: match envelope {
            Some(e) => Some(e.clone()),
            None => None,
        },
        audited: true,
    }
}

/// A request's headers, each by its lowercase name, with its value when the
/// value is visible text.
pub type HeaderList = Vec<(String, Option<String>)>;

/// The value of the first header with the given name, if it is text.
pub open spec fn header_spec(headers: Seq<(Seq<char>, Option<Seq<char>>)>, name: Seq<char>) -> Option<Seq<char>>
    decreases headers.len(),
{
    if headers.len() == 0 {
        None
    } else if headers[0].0 == name {
        headers[0].1
    } else {
        header_spec(headers.drop_first(), name)
    }
}

/// The headers by their abstract form.
pub open spec fn headers_view(headers: Seq<(String, Option<String>)>) -> Seq<(Seq<char>, Option<Seq<char>>)> {
    Seq::new(headers.len(), |i: int| (headers[i].0@, headers[i].1.deep_view()))
}

proof fn lemma_header_skip(h: Seq<(Seq<char>, Option<Seq<char>>)>, name: Seq<char>, i: int)
    requires
        0 <= i <= h.len(),
        forall|k: int| 0 <= k < i ==> h[k].0 != name,
    ensures
        header_spec(h, name) == header_spec(h.subrange(i, h.len() as int), name),
    decreases i,
{
    if i > 0 {
        let t = h.drop_first();
        assert forall|k: int| 0 <= k < i - 1 implies t[k].0 != name by {
            assert(t[k] == h[k + 1]);
        }
        lemma_header_skip(t, name, i - 1);
        assert(t.subrange(i - 1, t.len() as int) =~= h.subrange(i, h.len() as int));
    } else {
        assert(h.subrange(0, h.len() as int) =~= h);
    }
}

/// The value of the first header with the given name, if it is text.
pub fn header_value(headers: &HeaderList, name: &str) -> (r: Option<String>)
    ensures
        r.deep_view() == header_spec(headers_view(headers@), name@),
{
    let ghost h = headers_view(headers@);
    let mut i: usize = 0;
    while i < headers.len()
        invariant
            h == headers_view(headers@),
            i <= headers@.len(),
            forall|k: int| 0 <= k < i ==> h[k].0 != name@,
        decreases headers.len() - i,
    {
        if str_eq(headers[i].0.as_str(), name) {
            proof {
                lemma_header_skip(h, name@, i as int);
                assert(h.subrange(i as int, h.len() as int)[0] == h[i as int]);
            }
            return match &headers[i].1 {
                Some(v) => Some(v.clone()),
                None => None,
            };
        }
        i += 1;
    }
    proof {
        lemma_header_skip(h, name@, i as int);
    }
    None
}

/// The text of a refusal for a missing header.
pub open spec fn missing_header_text(name: Seq<char>) -> Seq<char> {
    "missing auth header: "@ + name
}

/// The auth envelope a request's headers carry: every header must be
/// present, and the rotation epoch must read as a `u32`; the first missing
/// or unreadable one, in the order the headers are listed, is named.
pub open spec fn auth_envelope_spec(h: Seq<(Seq<char>, Option<Seq<char>>)>) -> Result<
    BridgeAuthEnvelopeView,
    Seq<char>,
> {
    let instance = header_spec(h, "x-loom-bridge-instance-id"@);
    let adapter = header_spec(h, "x-loom-adapter-id"@);
    let secret_ref = header_spec(h, "x-loom-secret-ref"@);
    let epoch = header_spec(h, "x-loom-rotation-epoch"@);
    let signed_at = header_spec(h, "x-loom-signed-at"@);
    let nonce = header_spec(h, "x-loom-nonce"@);
    let signature = header_spec(h, "x-loom-signature"@);
    if instance is None {
        Err(missing_header_text("x-loom-bridge-instance-id"@))
    } else if adapter is None {
        Err(missing_header_text("x-loom-adapter-id"@))
    } else if secret_ref is None {
        Err(missing_header_text("x-loom-secret-ref"@))
    } else if epoch is None {
        Err(missing_header_text("x-loom-rotation-epoch"@))
    } else if parse_u32_spec(epoch->0) is None {
        Err("invalid rotation epoch"@)
    } else if signed_at is None {
        Err(missing_header_text("x-loom-signed-at"@))
    } else if nonce is None {
        Err(missing_header_text("x-loom-nonce"@))
    } else if signature is None {
        Err(missing_header_text("x-loom-signature"@))
    } else {
        Ok(
            BridgeAuthEnvelopeView {
                bridge_instance_id: instance->0,
                adapter_id: adapter->0,
                secret_ref: secret_ref->0,
                rotation_epoch: parse_u32_spec(epoch->0)->0,
                signed_at: signed_at->0,
                nonce: nonce->0,
                signature: signature->0,
            },
        )
    }
}

fn required_header(headers: &HeaderList, name: &str) -> (r: Result<String, String>)
    ensures
        match header_spec(headers_view(headers@), name@) {
            Some(v) => r matches Ok(x) && x@ == v,
            None => r matches Err(m) && m@ == missing_header_text(name@),
        },
{
    match header_value(headers, name) {
        Some(v) => Ok(v),
        None => {
            let mut m = owned("missing auth header: ");
            push_str(&mut m, name);
            Err(m)
        },
    }
}

/// Reads the auth envelope from a request's headers.
pub fn parse_auth_envelope(headers: &HeaderList) -> (r: Result<BridgeAuthEnvelope, String>)
    ensures
        match auth_envelope_spec(headers_view(headers@)) {
            Ok(e) => r matches Ok(x) && x@ == e,
            Err(m) => r matches Err(x) && x@ == m,
        },
{
    proof {
        reveal_strlit("x-loom-bridge-instance-id");
    }
    let instance = match required_header(headers, "x-loom-bridge-instance-id") {
        Ok(v) => v,
        Err(m) => {
            return Err(m);
        },
    };
    let adapter = match required_header(headers, "x-loom-adapter-id") {
        Ok(v) => v,
        Err(m) => {
            return Err(m);
        },
    };
    let secret_ref = match required_header(headers, "x-loom-secret-ref") {
        Ok(v) => v,
        Err(m) => {
            return Err(m);
        },
    };
    let epoch_text = match required_header(headers, "x-loom-rotation-epoch") {
        Ok(v) => v,
        Err(m) => {
            return Err(m);
        },
    };
    let epoch = match parse_u32(epoch_text.as_str()) {
        Some(e) => e,
        None => {
            return Err(owned("invalid rotation epoch"));
        },
    };
    let signed_at = match required_header(headers, "x-loom-signed-at") {
        Ok(v) => v,
        Err(m) => {
            return Err(m);
        },
    };
    let nonce = match required_header(headers, "x-loom-nonce") {
        Ok(v) => v,
        Err(m) => {
            return Err(m);
        },
    };
    let signature = match required_header(headers, "x-loom-signature") {
        Ok(v) => v,
        Err(m) => {
            return Err(m);
        },
    };
    Ok(
        BridgeAuthEnvelope {
            bridge_instance_id: instance,
            adapter_id: adapter,
            secret_ref,
            rotation_epoch: epoch,
            signed_at,
            nonce,
            signature,
        },
    )
}

/// The first checks of a request: a peer known to be remote is refused, the
/// envelope must read, and it must be addressed to this bridge instance.
pub open spec fn precheck_spec(
    peer_is_loopback: Option<bool>,
    h: Seq<(Seq<char>, Option<Seq<char>>)>,
    bridge_instance_id: Seq<char>,
) -> Result<BridgeAuthEnvelopeView, (Seq<char>, Option<BridgeAuthEnvelopeView>)> {
    if peer_is_loopback == Some(false) {
        Err(("bridge only accepts loopback peers"@, None))
    } else {
        match auth_envelope_spec(h) {
            Err(m) => Err((m, None)),
            Ok(e) => if e.bridge_instance_id != bridge_instance_id {
                Err(("bridge instance mismatch"@, Some(e)))
            } else {
                Ok(e)
            },
        }
    }
}

/// The first checks of a request; `peer_is_loopback` is whether the peer
/// address, when known, is a loopback address.
pub fn precheck_request(
    peer_is_loopback: Option<bool>,
    headers: &HeaderList,
    bridge_instance_id: &str,
) -> (r: Result<BridgeAuthEnvelope, AuthRejection>)
    ensures
        match precheck_spec(peer_is_loopback, headers_view(headers@), bridge_instance_id@) {
            Ok(e) => r matches Ok(x) && x@ == e,
            Err((reason, env)) => r matches Err(x) && refused(x, reason, env),
        },
{
    if peer_is_loopback == Some(false) {
        return Err(refuse("bridge only accepts loopback peers", None));
    }
    let envelope = match parse_auth_envelope(headers) {
        Ok(e) => e,
        Err(m) => {
            return Err(AuthRejection { status: 401, reason: m, envelope: None, audited: true });
        },
    };
    if !str_eq(envelope.bridge_instance_id.as_str(), bridge_instance_id) {
        return Err(refuse("bridge instance mismatch", Some(&envelope)));
    }
    Ok(envelope)
}

/// The credential named by the envelope must exist, be active, and belong
/// to the envelope's adapter and rotation epoch.
pub open spec fn credential_check_spec(
    e: BridgeAuthEnvelopeView,
    credential: Option<crate::model::bridge::BridgeSessionCredentialView>,
) -> Result<(), Seq<char>> {
    match credential {
        None => Err("session credential not found"@),
        Some(c) => if c.status != BridgeCredentialStatus::Active {
            Err("session credential is not active"@)
        } else if c.adapter_id != e.adapter_id {
            Err("adapter id mismatch"@)
        } else if c.rotation_epoch != e.rotation_epoch {
            Err("rotation epoch mismatch"@)
        } else {
            Ok(())
        },
    }
}

/// Checks the credential found under the envelope's secret reference.
pub fn check_credential(envelope: &BridgeAuthEnvelope, credential: Option<&BridgeSessionCredential>) -> (r:
    Result<(), AuthRejection>)
    ensures
        match credential_check_spec(
            envelope@,
            match credential {
                Some(c) => Some(c@),
                None => None,
            },
        ) {
            Ok(()) => r is Ok,
            Err(reason) => r matches Err(x) && refused(x, reason, Some(envelope@)),
        },
{
    let c = match credential {
        None => {
            return Err(refuse("session credential not found", Some(envelope)));
        },
        Some(c) => c,
    };
    if c.status != BridgeCredentialStatus::Active {
        return Err(refuse("session credential is not active", Some(envelope)));
    }
    if !str_eq(c.adapter_id.as_str(), envelope.adapter_id.as_str()) {
        return Err(refuse("adapter id mismatch", Some(envelope)));
    }
    if c.rotation_epoch != envelope.rotation_epoch {
        return Err(refuse("rotation epoch mismatch", Some(envelope)));
    }
    Ok(())
}

/// A nonce seen before under the same secret reference is a replay.
pub fn check_nonce(envelope: &BridgeAuthEnvelope, newly_recorded: bool) -> (r: Result<(), AuthRejection>)
    ensures
        newly_recorded ==> r is Ok,
        !newly_recorded ==> (r matches Err(x) && refused(x, "nonce replay detected"@, Some(envelope@))),
{
    if !newly_recorded {
        return Err(refuse("nonce replay detected", Some(envelope)));
    }
    Ok(())
}

/// The text a request's signature covers: its method, its path and query,
/// the hexadecimal SHA-256 digest of its body, and the envelope's signing
/// time and nonce, one per line.
pub open spec fn canonical_request_spec(
    method: Seq<char>,
    path: Seq<char>,
    body: Seq<u8>,
    signed_at: Seq<char>,
    nonce: Seq<char>,
) -> Seq<char> {
    join_seq(seq![method, path, lower_hex(sha256_spec(body)), signed_at, nonce], "\n"@)
}

/// The text a request's signature covers.
pub fn canonical_request(method: &str, path: &str, body: &Vec<u8>, signed_at: &str, nonce: &str) -> (r:
    String)
    ensures
        r@ == canonical_request_spec(method@, path@, body@, signed_at@, nonce@),
{
    let body_sha = lower_hex_text(&sha256_digest(body.as_slice()));
    let mut parts: Vec<String> = Vec::new();
    parts.push(owned(method));
    parts.push(owned(path));
    parts.push(body_sha);
    parts.push(owned(signed_at));
    parts.push(owned(nonce));
    assert(parts.deep_view() =~= seq![
        method@,
        path@,
        lower_hex(sha256_spec(body@)),
        signed_at@,
        nonce@,
    ]);
    join_strings(&parts, "\n")
}

/// The signature a request must carry: the lowercase hexadecimal HMAC-SHA-256
/// tag of its canonical text under the session secret.
pub open spec fn expected_signature(secret: Seq<char>, canonical: Seq<char>) -> Seq<char> {
    lower_hex(hmac_sha256_spec(utf8(secret), utf8(canonical)))
}

/// Checks a request's signature against the session secret kept for its
/// secret reference: without a secret the request is refused, and the
/// signature must be the expected one.
pub fn check_signature(
    envelope: &BridgeAuthEnvelope,
    method: &str,
    path: &str,
    body: &Vec<u8>,
    session_secret: Option<&String>,
) -> (r: Result<(), AuthRejection>)
    ensures
        match session_secret {
            None => r matches Err(x) && refused(x, "session secret unavailable"@, Some(envelope@)),
            Some(secret) => {
                let expected = expected_signature(
                    secret@,
                    canonical_request_spec(
                        method@,
                        path@,
                        body@,
                        envelope@.signed_at,
                        envelope@.nonce,
                    ),
                );
                &&& expected == envelope@.signature ==> r is Ok
                &&& expected != envelope@.signature ==> (r matches Err(x) && refused(
                    x,
                    "signature mismatch"@,
                    Some(envelope@),
                ))
            },
        },
{
    let canonical = canonical_request(
        method,
        path,
        body,
        envelope.signed_at.as_str(),
        envelope.nonce.as_str(),
    );
    let secret = match session_secret {
        None => {
            return Err(refuse("session secret unavailable", Some(envelope)));
        },
        Some(s) => s,
    };
    let tag = match hmac_sha256(secret.as_str().as_bytes(), canonical.as_str().as_bytes()) {
        Some(t) => t,
        None => {
            return Err(
                AuthRejection {
                    status: 500,
                    reason: owned("invalid hmac secret"),
                    envelope: None,
                    audited: false,
                },
            );
        },
    };
    let signature = hex_encode(tag.as_slice());
    if !str_eq(signature.as_str(), envelope.signature.as_str()) {
        return Err(refuse("signature mismatch", Some(envelope)));
    }
    Ok(())
}

/// What has been found out about a request while authenticating it: the
/// credential looked up under its secret reference, whether its nonce was
/// newly recorded, and the session secret kept for it. `None` means not yet
/// found out.
pub struct AuthFacts {
    pub credential: Option<Option<BridgeSessionCredential>>,
    pub nonce_fresh: Option<bool>,
    pub session_secret: Option<Option<String>>,
}

/// The next step of authenticating a request: find something out, or answer.
pub enum AuthStep {
    LookUpCredential { secret_ref: String },
    RecordNonce { secret_ref: String, nonce: String, signed_at: String },
    LookUpSecret { secret_ref: String },
    Accept,
    Refuse(AuthRejection),
}

/// The abstract form of an [`AuthStep`]; a refusal by its reason and the
/// envelope it carries.
pub enum AuthStepView {
    LookUpCredential(Seq<char>),
    RecordNonce(Seq<char>, Seq<char>, Seq<char>),
    LookUpSecret(Seq<char>),
    Accept,
    Refuse(Seq<char>, Option<BridgeAuthEnvelopeView>),
}

/// The step a request is at: the checks run in order (peer, envelope and
/// instance, credential, nonce, signature), each one only once the fact it
/// needs has been found out, and the first failing check refuses.
pub open spec fn auth_step_spec(
    peer_is_loopback: Option<bool>,
    h: Seq<(Seq<char>, Option<Seq<char>>)>,
    bridge_instance_id: Seq<char>,
    method: Seq<char>,
    path: Seq<char>,
    body: Seq<u8>,
    credential: Option<Option<BridgeSessionCredentialView>>,
    nonce_fresh: Option<bool>,
    session_secret: Option<Option<Seq<char>>>,
) -> AuthStepView {
    match precheck_spec(peer_is_loopback, h, bridge_instance_id) {
        Err((reason, env)) => AuthStepView::Refuse(reason, env),
        Ok(e) => match credential {
            None => AuthStepView::LookUpCredential(e.secret_ref),
            Some(c) => match credential_check_spec(e, c) {
                Err(reason) => AuthStepView::Refuse(reason, Some(e)),
                Ok(()) => match nonce_fresh {
                    None => AuthStepView::RecordNonce(e.secret_ref, e.nonce, e.signed_at),
                    Some(false) => AuthStepView::Refuse("nonce replay detected"@, Some(e)),
                    Some(true) => match session_secret {
                        None => AuthStepView::LookUpSecret(e.secret_ref),
                        Some(None) => AuthStepView::Refuse("session secret unavailable"@, Some(e)),
                        Some(Some(secret)) => if expected_signature(
                            secret,
                            canonical_request_spec(method, path, body, e.signed_at, e.nonce),
                        ) == e.signature {
                            AuthStepView::Accept
                        } else {
                            AuthStepView::Refuse("signature mismatch"@, Some(e))
                        },
                    },
                },
            },
        },
    }
}

/// A step agrees with its abstract form.
pub open spec fn step_agrees(r: AuthStep, v: AuthStepView) -> bool {
    match (r, v) {
        (AuthStep::LookUpCredential { secret_ref }, AuthStepView::LookUpCredential(x)) => secret_ref@ == x,
        (AuthStep::RecordNonce { secret_ref, nonce, signed_at }, AuthStepView::RecordNonce(a, b, c)) => {
            secret_ref@ == a && nonce@ == b && signed_at@ == c
        },
        (AuthStep::LookUpSecret { secret_ref }, AuthStepView::LookUpSecret(x)) => secret_ref@ == x,
        (AuthStep::Accept, AuthStepView::Accept) => true,
        (AuthStep::Refuse(x), AuthStepView::Refuse(reason, env)) => refused(x, reason, env),
        _ => false,
    }
}

/// Decides the next step of authenticating a request from what has been
/// found out so far.
pub fn next_auth_step(
    peer_is_loopback: Option<bool>,
    headers: &HeaderList,
    bridge_instance_id: &str,
    method: &str,
    path: &str,
    body: &Vec<u8>,
    facts: &AuthFacts,
) -> (r: AuthStep)
    ensures
        step_agrees(
            r,
            auth_step_spec(
                peer_is_loopback,
                headers_view(headers@),
                bridge_instance_id@,
                method@,
                path@,
                body@,
                match facts.credential {
                    Some(Some(c)) => Some(Some(c@)),
                    Some(None) => Some(None),
                    None => None,
                },
                facts.nonce_fresh,
                match facts.session_secret {
                    Some(Some(s)) => Some(Some(s@)),
                    Some(None) => Some(None),
                    None => None,
                },
            ),
        ),
{
    let envelope = match precheck_request(peer_is_loopback, headers, bridge_instance_id) {
        Ok(e) => e,
        Err(x) => {
            return AuthStep::Refuse(x);
        },
    };
    let credential = match &facts.credential {
        None => {
            return AuthStep::LookUpCredential { secret_ref: envelope.secret_ref.clone() };
        },
        Some(c) => c,
    };
    match check_credential(&envelope, credential.as_ref()) {
        Err(x) => {
            return AuthStep::Refuse(x);
        },
        Ok(()) => {},
    }
    match facts.nonce_fresh {
        None => {
            return AuthStep::RecordNonce {
                secret_ref: envelope.secret_ref.clone(),
                nonce: envelope.nonce.clone(),
                signed_at: envelope.signed_at.clone(),
            };
        },
        Some(fresh) => match check_nonce(&envelope, fresh) {
            Err(x) => {
                return AuthStep::Refuse(x);
            },
            Ok(()) => {},
        },
    }
    let secret = match &facts.session_secret {
        None => {
            return AuthStep::LookUpSecret { secret_ref: envelope.secret_ref.clone() };
        },
        Some(s) => s,
    };
    match check_signature(&envelope, method, path, body, secret.as_ref()) {
        Ok(()) => AuthStep::Accept,
        Err(x) => AuthStep::Refuse(x),
    }
}

} // verus!
