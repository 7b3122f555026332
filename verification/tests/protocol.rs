use sha2::{Digest, Sha384};
use skr_api::binding::bind_challenge;
use skr_api::response::json_string_member;
use skr_api::kbs::{
    attest_request_body, auth_request_body, auth_url, attest_url, bearer_header_value,
    resource_path, resource_url, Attestation, Error, FetchSession, FetchStep, TeePubKey,
};
use skr_api::handshake::{CyclePhase, TokenCycle};
use skr_api::socket::{bind_precheck, parse_socket_path, socket_parent, SocketAddress};
use skr_api::tee::{evidence_audit_line, evidence_from_reply, evidence_reply, EvidenceReply, Tee, TeeClient};

fn v(s: &str) -> Vec<u8> {
    s.as_bytes().to_vec()
}

#[test]
fn tee_names_round_trip() {
    let kinds = [Tee::AzSnpVtpm, Tee::Sev, Tee::Sgx, Tee::Snp, Tee::Tdx, Tee::Sample];
    for kind in kinds {
        assert_eq!(Tee::from_name(&kind.name()), Some(kind));
    }
    assert_eq!(Tee::from_name(&v("unknown-hw")), None);
    assert_eq!(Tee::from_name(&v("")), None);
}

#[test]
fn unknown_hardware_is_fatal() {
    assert!(matches!(Tee::require_supported(&v("sgx")), Ok(Tee::Sgx)));
    assert!(matches!(Tee::require_supported(&v("enclave9000")), Err(Error::UnsupportedTee)));
}

#[test]
fn daemon_fault_is_an_evidence_collection_error() {
    assert_eq!(evidence_from_reply(Some(v("EVID")), None).unwrap(), v("EVID"));
    assert!(matches!(
        evidence_from_reply(None, Some(v("hardware fault"))),
        Err(Error::EvidenceCollection)
    ));
    assert!(matches!(evidence_from_reply(None, None), Err(Error::EvidenceCollection)));
    // a reported fault wins over any evidence beside it
    assert!(matches!(
        evidence_from_reply(Some(v("EVID")), Some(v("fault"))),
        Err(Error::EvidenceCollection)
    ));
}

#[test]
fn tee_client_reports_constant_kind() {
    let client = TeeClient::new(Tee::Sgx);
    assert_eq!(client.tee(), "sgx");
    assert_eq!(client.tee(), "sgx");
    assert_eq!(TeeClient::new(Tee::Sample).tee(), "sample");
}

#[test]
fn binding_is_deterministic() {
    let a = bind_challenge(&v("nonce"), &v("mod"), &v("exp"));
    let b = bind_challenge(&v("nonce"), &v("mod"), &v("exp"));
    assert_eq!(a, b);
    assert_eq!(a.len(), 48);
}

#[test]
fn binding_separates_inputs() {
    let base = bind_challenge(&v("n"), &v("m"), &v("e"));
    assert_ne!(base, bind_challenge(&v("x"), &v("m"), &v("e")));
    assert_ne!(base, bind_challenge(&v("n"), &v("x"), &v("e")));
    assert_ne!(base, bind_challenge(&v("n"), &v("m"), &v("x")));
    // order matters: swapping two fields changes the challenge
    assert_ne!(base, bind_challenge(&v("m"), &v("n"), &v("e")));
    // field boundaries matter: the same concatenation split differently
    assert_ne!(
        bind_challenge(&v("ab"), &v("c"), &v("e")),
        bind_challenge(&v("a"), &v("bc"), &v("e"))
    );
}

#[test]
fn binding_is_chained_sha384() {
    let h = |data: &[u8]| -> Vec<u8> { Sha384::digest(data).to_vec() };
    let mut chained = h(b"abc");
    chained.extend_from_slice(&h(b"M"));
    chained.extend_from_slice(&h(b"E"));
    let expected = h(&chained);
    assert_eq!(bind_challenge(&v("abc"), &v("M"), &v("E")), expected);
}

#[test]
fn audit_line_is_redacted_hex() {
    assert_eq!(evidence_audit_line(&vec![0x00, 0x1f, 0xab, 0xff]), v("001fabff"));
    assert_eq!(evidence_audit_line(&Vec::new()), v(""));
}

#[test]
fn evidence_reply_maps_outcomes() {
    match evidence_reply(Ok(v("EVID"))) {
        EvidenceReply::Evidence(e) => assert_eq!(e, v("EVID")),
        EvidenceReply::Internal(_) => panic!("evidence became an internal error"),
    }
    match evidence_reply(Err(v("hardware fault"))) {
        EvidenceReply::Internal(m) => assert_eq!(m, v("hardware fault")),
        EvidenceReply::Evidence(_) => panic!("a fault became evidence"),
    }
}

#[test]
fn urls_are_exact() {
    let kbs = v("http://127.0.0.1:8080");
    assert_eq!(auth_url(&kbs), v("http://127.0.0.1:8080/kbs/v0/auth"));
    assert_eq!(attest_url(&kbs), v("http://127.0.0.1:8080/kbs/v0/attest"));
    let path = resource_path(&v("a"), &v("key"), &v("v1"));
    assert_eq!(path, v("a/key/v1"));
    assert_eq!(
        resource_url(&kbs, &path),
        v("http://127.0.0.1:8080/kbs/v0/resource/a/key/v1")
    );
}

#[test]
fn auth_body_is_exact() {
    assert_eq!(auth_request_body(&Tee::Sgx.name()), v("{\"tee\":\"sgx\"}"));
}

#[test]
fn auth_body_escapes_the_name() {
    assert_eq!(auth_request_body(&v("s\"x\\")), v("{\"tee\":\"s\\\"x\\\\\"}"));
    assert_eq!(auth_request_body(&v("a\nb")), v("{\"tee\":\"a\\u000ab\"}"));
}

#[test]
fn attest_body_is_exact() {
    let attestation = Attestation {
        tee_pubkey: TeePubKey { k_mod: v("M"), k_exp: v("E") },
        tee_evidence: v("EVID"),
    };
    assert_eq!(
        attest_request_body(&attestation),
        v("{\"tee_pubkey\":{\"k_mod\":\"M\",\"k_exp\":\"E\"},\"tee_evidence\":\"EVID\"}")
    );
}

#[test]
fn bearer_header_is_exact() {
    assert_eq!(bearer_header_value(&v("T1")), v("Bearer T1"));
}

/// Drives a session against a scripted endpoint, counting the work demanded.
/// Returns (fetch attempts, token refreshes).
fn drive(session: &mut FetchSession, tokens: &mut Vec<Vec<u8>>, responses: &mut Vec<(u16, Vec<u8>)>) -> (u32, u32) {
    let mut fetches = 0u32;
    let mut refreshes = 0u32;
    loop {
        match session.step() {
            FetchStep::NeedToken => {
                refreshes += 1;
                session.on_token(tokens.remove(0));
            }
            FetchStep::NeedFetch => {
                fetches += 1;
                let (status, body) = responses.remove(0);
                session.on_response(status, body);
            }
            FetchStep::Delivered | FetchStep::Exhausted => return (fetches, refreshes),
        }
    }
}

#[test]
fn empty_cache_costs_one_refresh_before_first_fetch() {
    let mut session = FetchSession::new(None);
    assert_eq!(session.step(), FetchStep::NeedToken);
    session.on_token(v("T1"));
    // the one refresh is done; the next demanded action is the fetch itself
    assert_eq!(session.step(), FetchStep::NeedFetch);
    session.on_response(200, v("payload"));
    assert_eq!(session.step(), FetchStep::Delivered);
    assert_eq!(session.envelope().clone(), Some(v("payload")));
}

#[test]
fn populated_cache_costs_no_refresh_without_401() {
    let mut session = FetchSession::new(Some(v("T1")));
    let mut tokens: Vec<Vec<u8>> = Vec::new();
    let mut responses = vec![(500u16, Vec::new()), (503u16, Vec::new()), (200u16, v("payload"))];
    let (fetches, refreshes) = drive(&mut session, &mut tokens, &mut responses);
    // transient failures consume attempts but never an auth cycle
    assert_eq!((fetches, refreshes), (3, 0));
    assert_eq!(session.step(), FetchStep::Delivered);
    assert_eq!(session.token().clone(), Some(v("T1")));
}

#[test]
fn always_unauthorized_hits_retry_ceiling() {
    let mut session = FetchSession::new(Some(v("T0")));
    let mut tokens = vec![v("T1"), v("T2"), v("T3")];
    let mut responses =
        vec![(401u16, Vec::new()), (401u16, Vec::new()), (401u16, Vec::new())];
    let (fetches, refreshes) = drive(&mut session, &mut tokens, &mut responses);
    assert_eq!((fetches, refreshes), (3, 3));
    assert_eq!(session.step(), FetchStep::Exhausted);
    assert_eq!(session.envelope().clone(), None);
    // the surfaced failure names the resource path
    assert!(matches!(
        session.retrieval_failure(v("a/key/v1")),
        Error::ResourceRetrieval(p) if p == v("a/key/v1")
    ));
}

#[test]
fn unauthorized_once_recovers_on_second_attempt() {
    let mut session = FetchSession::new(Some(v("T0")));
    let mut tokens = vec![v("T1")];
    let mut responses = vec![(401u16, Vec::new()), (200u16, v("payload"))];
    let (fetches, refreshes) = drive(&mut session, &mut tokens, &mut responses);
    assert_eq!((fetches, refreshes), (2, 1));
    assert_eq!(session.step(), FetchStep::Delivered);
    assert_eq!(session.envelope().clone(), Some(v("payload")));
    // the cache is left populated with the refreshed token
    assert_eq!(session.token().clone(), Some(v("T1")));
}

#[test]
fn abstract_socket_path_strips_the_sigil() {
    match parse_socket_path(&v("@/run/foo.sock")) {
        SocketAddress::Abstract(name) => assert_eq!(name, v("/run/foo.sock")),
        SocketAddress::Filesystem(_) => panic!("sigil-prefixed path taken as filesystem"),
    }
    match parse_socket_path(&v("/run/foo.sock")) {
        SocketAddress::Filesystem(path) => assert_eq!(path, v("/run/foo.sock")),
        SocketAddress::Abstract(_) => panic!("plain path taken as abstract"),
    }
}

#[test]
fn daemon_refuses_missing_parent_directory() {
    assert_eq!(
        socket_parent(&v("/run/confidential-containers/attester.sock")),
        Some(v("/run/confidential-containers"))
    );
    assert_eq!(socket_parent(&v("attester.sock")), None);
    assert!(bind_precheck(true).is_ok());
    assert!(matches!(bind_precheck(false), Err(Error::DaemonStart)));
}

#[test]
fn response_member_extraction() {
    let nonce_key = v("nonce");
    let token_key = v("token");
    assert_eq!(
        json_string_member(&v("{\"nonce\":\"abc\"}"), &nonce_key),
        Some(v("abc"))
    );
    // surrounding members do not disturb the one asked for
    assert_eq!(
        json_string_member(&v("{\"extra-params\":\"x\",\"nonce\":\"N1\",\"tee\":\"sgx\"}"), &nonce_key),
        Some(v("N1"))
    );
    assert_eq!(
        json_string_member(&v("{\"token\":\"T1\"}"), &token_key),
        Some(v("T1"))
    );
    // an empty value is a value
    assert_eq!(json_string_member(&v("{\"nonce\":\"\"}"), &nonce_key), Some(v("")));
    // absent member, and a value that never closes, are malformed
    assert_eq!(json_string_member(&v("{\"tee\":\"sgx\"}"), &nonce_key), None);
    assert_eq!(json_string_member(&v("{\"nonce\":\"abc"), &nonce_key), None);
    assert_eq!(json_string_member(&v(""), &nonce_key), None);
}

// The whole handshake on one concrete session: nonce "abc", public key
// halves "M" and "E", evidence "EVID", token "T1".
#[test]
fn handshake_end_to_end() {
    let mut cycle = TokenCycle::new(
        v("http://127.0.0.1:8080"),
        Tee::Sgx.name(),
        TeePubKey { k_mod: v("M"), k_exp: v("E") },
    );
    assert_eq!(cycle.phase(), CyclePhase::Start);

    let (url, body) = cycle.auth_request();
    assert_eq!(url, v("http://127.0.0.1:8080/kbs/v0/auth"));
    assert_eq!(body, v("{\"tee\":\"sgx\"}"));

    let challenge = cycle.on_auth_response(&v("{\"nonce\":\"abc\"}")).unwrap();
    // the challenge is the chained digest of nonce, modulus, exponent
    assert_eq!(challenge, bind_challenge(&v("abc"), &v("M"), &v("E")));

    let (url, body) = cycle.attest_request(&v("EVID"));
    assert_eq!(url, v("http://127.0.0.1:8080/kbs/v0/attest"));
    assert_eq!(
        body,
        v("{\"tee_pubkey\":{\"k_mod\":\"M\",\"k_exp\":\"E\"},\"tee_evidence\":\"EVID\"}")
    );

    let token = cycle.on_attest_response(200, &v("{\"token\":\"T1\"}")).unwrap();
    assert_eq!(token, v("T1"));
    assert_eq!(cycle.phase(), CyclePhase::Finished);

    // the subsequent resource fetch carries the token as a bearer credential
    let mut session = FetchSession::new(Some(token));
    assert_eq!(session.step(), FetchStep::NeedFetch);
    let header = bearer_header_value(&session.token().clone().unwrap());
    assert_eq!(header, v("Bearer T1"));
    session.on_response(200, v("envelope"));
    assert_eq!(session.step(), FetchStep::Delivered);
}

#[test]
fn handshake_rejections() {
    // a challenge without a nonce is an auth failure
    let mut cycle = TokenCycle::new(
        v("http://k"),
        Tee::Sample.name(),
        TeePubKey { k_mod: v("M"), k_exp: v("E") },
    );
    cycle.auth_request();
    assert!(matches!(
        cycle.on_auth_response(&v("{\"tee\":\"sample\"}")),
        Err(Error::KbsAuth)
    ));
    assert_eq!(cycle.phase(), CyclePhase::Finished);

    // a non-200 attest verdict is a hard rejection
    let mut cycle = TokenCycle::new(
        v("http://k"),
        Tee::Sample.name(),
        TeePubKey { k_mod: v("M"), k_exp: v("E") },
    );
    cycle.auth_request();
    cycle.on_auth_response(&v("{\"nonce\":\"n\"}")).unwrap();
    cycle.attest_request(&v("EVID"));
    assert!(matches!(
        cycle.on_attest_response(403, &Vec::new()),
        Err(Error::AttestationRejected)
    ));

    // a 200 attest verdict without a token is malformed
    let mut cycle = TokenCycle::new(
        v("http://k"),
        Tee::Sample.name(),
        TeePubKey { k_mod: v("M"), k_exp: v("E") },
    );
    cycle.auth_request();
    cycle.on_auth_response(&v("{\"nonce\":\"n\"}")).unwrap();
    cycle.attest_request(&v("EVID"));
    assert!(matches!(
        cycle.on_attest_response(200, &v("{}")),
        Err(Error::KbsAuth)
    ));
}
