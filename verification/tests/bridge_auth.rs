use hmac::{Hmac, Mac};
use loom::bridge::auth::{
    bridge_credential_matches_secret, bridge_ticket_matches_secret, canonical_request,
    check_credential, check_nonce, check_signature, hash_secret, lower_hex_text,
    next_auth_step, parse_auth_envelope, precheck_request, AuthFacts, AuthStep,
};
use loom::bridge::bootstrap::{
    bootstrap_ack, bootstrap_actions, bootstrap_refusal, consume_ticket, health_response, issue_bootstrap_ticket,
    issue_session_credential, judge_bootstrap, next_rotation_epoch, revoke_credential,
    revokes_earlier_credentials, BootstrapVerdict, BOOTSTRAP_TICKET_RELATIVE_PATH,
    DEFAULT_ADAPTER_ID,
};
use loom::model::bridge::{
    BridgeAuthEnvelope, BridgeBootstrapRequest, BridgeCredentialStatus, BridgeSessionCredential,
};
use sha2::{Digest, Sha256};

fn headers(pairs: &[(&str, &str)]) -> Vec<(String, Option<String>)> {
    pairs.iter().map(|(n, v)| (n.to_string(), Some(v.to_string()))).collect()
}

fn full_headers(epoch: &str) -> Vec<(String, Option<String>)> {
    headers(&[
        ("x-loom-bridge-instance-id", "bridge-1"),
        ("x-loom-adapter-id", "loom-openclaw"),
        ("x-loom-secret-ref", "secret-ref-1"),
        ("x-loom-rotation-epoch", epoch),
        ("x-loom-signed-at", "1700000000000"),
        ("x-loom-nonce", "nonce-1"),
        ("x-loom-signature", "abc"),
    ])
}

fn envelope() -> BridgeAuthEnvelope {
    BridgeAuthEnvelope {
        bridge_instance_id: "bridge-1".into(),
        adapter_id: "loom-openclaw".into(),
        secret_ref: "secret-ref-1".into(),
        rotation_epoch: 1,
        signed_at: "1700000000000".into(),
        nonce: "nonce-1".into(),
        signature: String::new(),
    }
}

fn credential(status: BridgeCredentialStatus, epoch: u32) -> BridgeSessionCredential {
    BridgeSessionCredential {
        credential_id: "credential-1".into(),
        bridge_instance_id: "bridge-1".into(),
        adapter_id: "loom-openclaw".into(),
        secret_ref: "secret-ref-1".into(),
        secret_hash: hash_secret("session-secret-1"),
        rotation_epoch: epoch,
        issued_at: "1700000000000".into(),
        expires_at: None,
        status,
    }
}

fn sign(secret: &str, canonical: &str) -> String {
    let mut mac = Hmac::<Sha256>::new_from_slice(secret.as_bytes()).expect("key");
    mac.update(canonical.as_bytes());
    hex::encode(mac.finalize().into_bytes())
}

#[test]
fn secret_hash_is_lowercase_hex_sha256() {
    assert_eq!(
        hash_secret("abc"),
        "ba7816bf8f01cfea414140de5dae2223b00361a396177a9cb410ff61f20015ad"
    );
    assert_eq!(
        hash_secret(""),
        "e3b0c44298fc1c149afbf4c8996fb92427ae41e4649b934ca495991b7852b855"
    );
    assert_eq!(lower_hex_text(&vec![0, 15, 16, 255]), "000f10ff");
}

#[test]
fn canonical_request_covers_method_path_body_time_and_nonce() {
    let body = b"{\"a\":1}".to_vec();
    let canonical = canonical_request("POST", "/v1/ingress/current-turn", &body, "17", "n-1");
    let body_sha = format!("{:x}", Sha256::digest(&body));
    assert_eq!(canonical, format!("POST\n/v1/ingress/current-turn\n{body_sha}\n17\nn-1"));
}

#[test]
fn signature_check_accepts_the_session_signature_only() {
    let body = b"payload".to_vec();
    let mut env = envelope();
    let canonical = canonical_request("GET", "/v1/outbound/next?host_session_id=s", &body, &env.signed_at, &env.nonce);
    env.signature = sign("session-secret-1", &canonical);
    let secret = "session-secret-1".to_string();
    assert!(check_signature(&env, "GET", "/v1/outbound/next?host_session_id=s", &body, Some(&secret)).is_ok());

    let refused = check_signature(&env, "GET", "/v1/outbound/next", &body, Some(&secret)).unwrap_err();
    assert_eq!(refused.status, 401);
    assert_eq!(refused.reason, "signature mismatch");
    assert!(refused.audited);

    let other = "other-secret".to_string();
    assert_eq!(
        check_signature(&env, "GET", "/v1/outbound/next?host_session_id=s", &body, Some(&other)).unwrap_err().reason,
        "signature mismatch"
    );
    assert_eq!(
        check_signature(&env, "GET", "/v1/outbound/next?host_session_id=s", &body, None).unwrap_err().reason,
        "session secret unavailable"
    );
}

#[test]
fn hmac_matches_the_reference_vector() {
    // RFC 4231, test case 2, through the signature check.
    let mut env = envelope();
    env.signature = "5bdcc146bf60754e6a042426089575c75a003f089d2739839dec58b964ec3843".into();
    let data = "what do ya want for nothing?";
    // The canonical text is fixed by its parts, so sign it directly.
    let canonical = canonical_request("M", "P", &Vec::new(), &env.signed_at, &env.nonce);
    assert_eq!(sign("Jefe", data), env.signature);
    env.signature = sign("Jefe", &canonical);
    assert!(check_signature(&env, "M", "P", &Vec::new(), Some(&"Jefe".to_string())).is_ok());
}

#[test]
fn auth_envelope_is_read_from_headers_in_order() {
    let env = parse_auth_envelope(&full_headers("+3")).expect("envelope");
    assert_eq!(env.rotation_epoch, 3);
    assert_eq!(env.secret_ref, "secret-ref-1");
    assert_eq!(
        parse_auth_envelope(&full_headers("x")).unwrap_err(),
        "invalid rotation epoch"
    );
    let mut missing = full_headers("1");
    missing.retain(|(n, _)| n != "x-loom-nonce");
    assert_eq!(parse_auth_envelope(&missing).unwrap_err(), "missing auth header: x-loom-nonce");
    let mut opaque = full_headers("1");
    opaque.insert(0, ("x-loom-adapter-id".into(), None));
    assert_eq!(
        parse_auth_envelope(&opaque).unwrap_err(),
        "missing auth header: x-loom-adapter-id"
    );
    assert_eq!(
        parse_auth_envelope(&Vec::new()).unwrap_err(),
        "missing auth header: x-loom-bridge-instance-id"
    );
}

#[test]
fn authenticated_ingress_and_outbound_require_bootstrap_headers() {
    assert_eq!(
        precheck_request(Some(false), &full_headers("1"), "bridge-1").unwrap_err().reason,
        "bridge only accepts loopback peers"
    );
    let r = precheck_request(Some(true), &Vec::new(), "bridge-1").unwrap_err();
    assert_eq!(r.status, 401);
    assert_eq!(r.reason, "missing auth header: x-loom-bridge-instance-id");
    assert!(r.envelope.is_none());
    let r = precheck_request(None, &full_headers("1"), "bridge-2").unwrap_err();
    assert_eq!(r.reason, "bridge instance mismatch");
    assert!(r.envelope.is_some());
    assert!(precheck_request(None, &full_headers("1"), "bridge-1").is_ok());
}

#[test]
fn unauthorized_ingress_is_audited_with_auth_failure_reason() {
    let env = envelope();
    assert_eq!(check_credential(&env, None).unwrap_err().reason, "session credential not found");
    let revoked = credential(BridgeCredentialStatus::Revoked, 1);
    let r = check_credential(&env, Some(&revoked)).unwrap_err();
    assert_eq!(r.reason, "session credential is not active");
    assert!(r.audited);
    let rotated = credential(BridgeCredentialStatus::Active, 2);
    assert_eq!(check_credential(&env, Some(&rotated)).unwrap_err().reason, "rotation epoch mismatch");
    let mut other_adapter = credential(BridgeCredentialStatus::Active, 1);
    other_adapter.adapter_id = "other".into();
    assert_eq!(check_credential(&env, Some(&other_adapter)).unwrap_err().reason, "adapter id mismatch");
    assert!(check_credential(&env, Some(&credential(BridgeCredentialStatus::Active, 1))).is_ok());
    assert_eq!(check_nonce(&env, false).unwrap_err().reason, "nonce replay detected");
    assert!(check_nonce(&env, true).is_ok());
}

#[test]
fn health_and_bootstrap_issue_bridge_session_credentials() {
    assert_eq!(health_response("bridge-1").status, "ready");
    assert_eq!(DEFAULT_ADAPTER_ID, "loom-openclaw");
    assert_eq!(BOOTSTRAP_TICKET_RELATIVE_PATH, "bootstrap/openclaw/bootstrap-ticket.json");

    let issued = issue_bootstrap_ticket("bridge-1", DEFAULT_ADAPTER_ID);
    assert!(issued.ticket.ticket_id.starts_with("ticket-"));
    assert!(issued.material.ticket_secret.starts_with("ticket-secret-"));
    assert_eq!(issued.ticket.status, BridgeCredentialStatus::PendingBootstrap);
    assert_eq!(issued.material.ticket_id, issued.ticket.ticket_id);
    assert!(bridge_ticket_matches_secret(&issued.ticket, &issued.material.ticket_secret));
    assert!(!bridge_ticket_matches_secret(&issued.ticket, "wrong"));
    let issued_at: u128 = issued.ticket.issued_at.parse().unwrap();
    let expires_at: u128 = issued.ticket.expires_at.parse().unwrap();
    assert!(expires_at >= issued_at + 600_000);

    let request = BridgeBootstrapRequest {
        bridge_instance_id: "bridge-1".into(),
        adapter_id: DEFAULT_ADAPTER_ID.into(),
        ticket_id: issued.ticket.ticket_id.clone(),
        ticket_secret: issued.material.ticket_secret.clone(),
        requested_at: "1".into(),
    };
    assert_eq!(judge_bootstrap(Some(&issued.ticket), &request, "bridge-1"), BootstrapVerdict::Accepted);
    assert_eq!(judge_bootstrap(None, &request, "bridge-1"), BootstrapVerdict::TicketNotFound);
    assert_eq!(judge_bootstrap(Some(&issued.ticket), &request, "bridge-2"), BootstrapVerdict::InstanceMismatch);
    let wrong_secret = BridgeBootstrapRequest { ticket_secret: "nope".into(), ..request.clone() };
    assert_eq!(judge_bootstrap(Some(&issued.ticket), &wrong_secret, "bridge-1"), BootstrapVerdict::SecretMismatch);
    let wrong_adapter = BridgeBootstrapRequest { adapter_id: "other".into(), ..request.clone() };
    assert_eq!(judge_bootstrap(Some(&issued.ticket), &wrong_adapter, "bridge-1"), BootstrapVerdict::AdapterMismatch);
    assert_eq!(bootstrap_refusal(BootstrapVerdict::SecretMismatch), "bootstrap secret mismatch");
    assert_eq!(bootstrap_refusal(BootstrapVerdict::TicketNotFound), "bootstrap ticket not found");

    let cred = issue_session_credential("bridge-1", DEFAULT_ADAPTER_ID, next_rotation_epoch(None));
    assert_eq!(cred.credential.rotation_epoch, 1);
    assert_eq!(cred.credential.status, BridgeCredentialStatus::Active);
    assert!(cred.credential.secret_ref.starts_with("secret-ref-"));
    assert!(bridge_credential_matches_secret(&cred.credential, &cred.session_secret));
    let ack = bootstrap_ack("bridge-1", &cred);
    assert_eq!(ack.secret_ref, cred.credential.secret_ref);
    assert_eq!(ack.session_secret, cred.session_secret);
    assert_eq!(ack.expires_at, None);
}

#[test]
fn bootstrap_rotates_ticket_for_reconnect_and_revokes_old_credentials() {
    let mut issued = issue_bootstrap_ticket("bridge-1", DEFAULT_ADAPTER_ID);
    let request = BridgeBootstrapRequest {
        bridge_instance_id: "bridge-1".into(),
        adapter_id: DEFAULT_ADAPTER_ID.into(),
        ticket_id: issued.ticket.ticket_id.clone(),
        ticket_secret: issued.material.ticket_secret.clone(),
        requested_at: "1".into(),
    };
    consume_ticket(&mut issued.ticket);
    assert_eq!(issued.ticket.status, BridgeCredentialStatus::Consumed);
    assert_eq!(judge_bootstrap(Some(&issued.ticket), &request, "bridge-1"), BootstrapVerdict::TicketConsumed);
    assert_eq!(
        bootstrap_refusal(BootstrapVerdict::TicketConsumed),
        "bootstrap ticket already consumed; refresh bootstrap material and retry"
    );
    assert_eq!(next_rotation_epoch(Some(1)), 2);
    assert!(!revokes_earlier_credentials(1));
    assert!(revokes_earlier_credentials(2));
    let mut old = credential(BridgeCredentialStatus::Active, 1);
    revoke_credential(&mut old);
    assert_eq!(old.status, BridgeCredentialStatus::Revoked);
}

#[test]
fn authentication_steps_look_up_what_each_check_needs_then_answer() {
    let body = b"{}".to_vec();
    let canonical = canonical_request("POST", "/v1/ingress/current-turn", &body, "1700000000000", "nonce-1");
    let signature = sign("session-secret-1", &canonical);
    let mut pairs = full_headers("1");
    pairs[6].1 = Some(signature);
    let step = |facts: &AuthFacts| {
        next_auth_step(Some(true), &pairs, "bridge-1", "POST", "/v1/ingress/current-turn", &body, facts)
    };
    let mut facts = AuthFacts { credential: None, nonce_fresh: None, session_secret: None };
    assert!(matches!(step(&facts), AuthStep::LookUpCredential { ref secret_ref } if secret_ref == "secret-ref-1"));
    facts.credential = Some(Some(credential(BridgeCredentialStatus::Active, 1)));
    assert!(matches!(step(&facts), AuthStep::RecordNonce { ref nonce, .. } if nonce == "nonce-1"));
    facts.nonce_fresh = Some(true);
    assert!(matches!(step(&facts), AuthStep::LookUpSecret { .. }));
    facts.session_secret = Some(Some("session-secret-1".into()));
    assert!(matches!(step(&facts), AuthStep::Accept));

    facts.session_secret = Some(Some("another-secret".into()));
    assert!(matches!(step(&facts), AuthStep::Refuse(ref r) if r.reason == "signature mismatch" && r.status == 401));
    facts.nonce_fresh = Some(false);
    assert!(matches!(step(&facts), AuthStep::Refuse(ref r) if r.reason == "nonce replay detected" && r.audited));
    facts.credential = Some(Some(credential(BridgeCredentialStatus::Revoked, 1)));
    assert!(matches!(step(&facts), AuthStep::Refuse(ref r) if r.reason == "session credential is not active"));
    let refused = next_auth_step(Some(false), &pairs, "bridge-1", "POST", "/", &body, &facts);
    assert!(matches!(refused, AuthStep::Refuse(ref r) if r.reason == "bridge only accepts loopback peers"));
}

#[test]
fn bootstrap_verdicts_lead_to_their_actions() {
    let accepted = bootstrap_actions(BootstrapVerdict::Accepted);
    assert!(accepted.issue_credential && accepted.issue_fresh_ticket && !accepted.audit_secret_mismatch);
    assert_eq!(accepted.refusal, None);
    let consumed = bootstrap_actions(BootstrapVerdict::TicketConsumed);
    assert!(!consumed.issue_credential && consumed.issue_fresh_ticket);
    assert_eq!(consumed.refusal.as_deref(), Some("bootstrap ticket already consumed; refresh bootstrap material and retry"));
    let wrong = bootstrap_actions(BootstrapVerdict::SecretMismatch);
    assert!(wrong.audit_secret_mismatch && !wrong.issue_fresh_ticket && !wrong.issue_credential);
    assert_eq!(wrong.refusal.as_deref(), Some("bootstrap secret mismatch"));
    let missing = bootstrap_actions(BootstrapVerdict::TicketNotFound);
    assert!(!missing.audit_secret_mismatch && !missing.issue_fresh_ticket);
}
