//! The KBS protocol client: endpoint URLs, request bodies, the bearer
//! credential header, and the token-cache/retry state machine that drives a
//! resource fetch. The machine decides; the HTTP round trips happen outside
//! and feed their outcomes back in as events.

use vstd::prelude::*;
use crate::encode::{spec_json_string, append_json_string, append_bytes};

verus! {

/// Fixed request timeout for outbound KBS calls, in seconds.
pub const KBS_REQ_TIMEOUT_SEC: u64 = 60;

/// Retry ceiling of a resource fetch: how many times the resource endpoint
/// is tried before the fetch fails.
pub const KBS_GET_RESOURCE_MAX_ATTEMPT: u64 = 3;

/// What went wrong, by protocol stage.
#[derive(Debug, Clone)]
pub enum Error {
    /// The reported TEE kind names no supported hardware (fatal at startup).
    UnsupportedTee,
    /// The attester could not produce evidence for a challenge.
    EvidenceCollection,
    /// The auth endpoint failed or its challenge was malformed.
    KbsAuth,
    /// The KBS refused the submitted attestation; repeating it cannot help.
    AttestationRejected,
    /// The retry ceiling was exhausted; carries the resource path.
    ResourceRetrieval(Vec<u8>),
    /// The delivered envelope could not be unwrapped with the TEE key.
    Decryption,
    /// The daemon's socket path has no existing parent directory.
    DaemonStart,
}

/// The exported public half of the TEE keypair, as sent to the KBS.
#[derive(Debug, Clone)]
pub struct TeePubKey {
    pub k_mod: Vec<u8>,
    pub k_exp: Vec<u8>,
}

/// The pair submitted to the attest endpoint: public key and evidence.
#[derive(Debug, Clone)]
pub struct Attestation {
    pub tee_pubkey: TeePubKey,
    pub tee_evidence: Vec<u8>,
}

/// Path of the auth endpoint under the KBS base URL.
pub open spec fn spec_auth_path() -> Seq<u8> {
    seq![
        '/' as u8,
        'k' as u8,
        'b' as u8,
        's' as u8,
        '/' as u8,
        'v' as u8,
        '0' as u8,
        '/' as u8,
        'a' as u8,
        'u' as u8,
        't' as u8,
        'h' as u8,
    ]
}

/// Path of the attest endpoint under the KBS base URL.
pub open spec fn spec_attest_path() -> Seq<u8> {
    seq![
        '/' as u8,
        'k' as u8,
        'b' as u8,
        's' as u8,
        '/' as u8,
        'v' as u8,
        '0' as u8,
        '/' as u8,
        'a' as u8,
        't' as u8,
        't' as u8,
        'e' as u8,
        's' as u8,
        't' as u8,
    ]
}

/// Path prefix of the resource endpoint under the KBS base URL.
pub open spec fn spec_resource_prefix() -> Seq<u8> {
    seq![
        '/' as u8,
        'k' as u8,
        'b' as u8,
        's' as u8,
        '/' as u8,
        'v' as u8,
        '0' as u8,
        '/' as u8,
        'r' as u8,
        'e' as u8,
        's' as u8,
        'o' as u8,
        'u' as u8,
        'r' as u8,
        'c' as u8,
        'e' as u8,
        '/' as u8,
    ]
}

fn append_auth_path(out: &mut Vec<u8>)
    ensures
        final(out)@ == old(out)@ + spec_auth_path(),
{
    out.push('/' as u8);
    out.push('k' as u8);
    out.push('b' as u8);
    out.push('s' as u8);
    out.push('/' as u8);
    out.push('v' as u8);
    out.push('0' as u8);
    out.push('/' as u8);
    out.push('a' as u8);
    out.push('u' as u8);
    out.push('t' as u8);
    out.push('h' as u8);
    proof {
        assert(out@ =~= old(out)@ + spec_auth_path());
    }
}

fn append_attest_path(out: &mut Vec<u8>)
    ensures
        final(out)@ == old(out)@ + spec_attest_path(),
{
    out.push('/' as u8);
    out.push('k' as u8);
    out.push('b' as u8);
    out.push('s' as u8);
    out.push('/' as u8);
    out.push('v' as u8);
    out.push('0' as u8);
    out.push('/' as u8);
    out.push('a' as u8);
    out.push('t' as u8);
    out.push('t' as u8);
    out.push('e' as u8);
    out.push('s' as u8);
    out.push('t' as u8);
    proof {
        assert(out@ =~= old(out)@ + spec_attest_path());
    }
}

fn append_resource_prefix(out: &mut Vec<u8>)
    ensures
        final(out)@ == old(out)@ + spec_resource_prefix(),
{
    out.push('/' as u8);
    out.push('k' as u8);
    out.push('b' as u8);
    out.push('s' as u8);
    out.push('/' as u8);
    out.push('v' as u8);
    out.push('0' as u8);
    out.push('/' as u8);
    out.push('r' as u8);
    out.push('e' as u8);
    out.push('s' as u8);
    out.push('o' as u8);
    out.push('u' as u8);
    out.push('r' as u8);
    out.push('c' as u8);
    out.push('e' as u8);
    out.push('/' as u8);
    proof {
        assert(out@ =~= old(out)@ + spec_resource_prefix());
    }
}

/// The auth endpoint URL for a KBS base URL.
pub fn auth_url(kbs_url: &Vec<u8>) -> (r: Vec<u8>)
    ensures
        r@ == kbs_url@ + spec_auth_path(),
{
    let mut out: Vec<u8> = Vec::new();
    append_bytes(&mut out, kbs_url);
    append_auth_path(&mut out);
    proof {
        assert(out@ =~= kbs_url@ + spec_auth_path());
    }
    out
}

/// The attest endpoint URL for a KBS base URL.
pub fn attest_url(kbs_url: &Vec<u8>) -> (r: Vec<u8>)
    ensures
        r@ == kbs_url@ + spec_attest_path(),
{
    let mut out: Vec<u8> = Vec::new();
    append_bytes(&mut out, kbs_url);
    append_attest_path(&mut out);
    proof {
        assert(out@ =~= kbs_url@ + spec_attest_path());
    }
    out
}

/// The three-part resource identity joined with slashes, used verbatim.
pub open spec fn spec_resource_path(repository: Seq<u8>, typ: Seq<u8>, tag: Seq<u8>) -> Seq<
    u8,
> {
    repository + seq!['/' as u8] + typ + seq!['/' as u8] + tag
}

/// Joins a three-part resource identity into its URL path form.
pub fn resource_path(repository: &Vec<u8>, typ: &Vec<u8>, tag: &Vec<u8>) -> (r: Vec<u8>)
    ensures
        r@ == spec_resource_path(repository@, typ@, tag@),
{
    let mut out: Vec<u8> = Vec::new();
    append_bytes(&mut out, repository);
    out.push('/' as u8);
    append_bytes(&mut out, typ);
    out.push('/' as u8);
    append_bytes(&mut out, tag);
    proof {
        assert(out@ =~= spec_resource_path(repository@, typ@, tag@));
    }
    out
}

/// The resource endpoint URL for a KBS base URL and a joined resource path.
pub fn resource_url(kbs_url: &Vec<u8>, resource: &Vec<u8>) -> (r: Vec<u8>)
    ensures
        r@ == kbs_url@ + spec_resource_prefix() + resource@,
{
    let mut out: Vec<u8> = Vec::new();
    append_bytes(&mut out, kbs_url);
    append_resource_prefix(&mut out);
    append_bytes(&mut out, resource);
    proof {
        assert(out@ =~= kbs_url@ + spec_resource_prefix() + resource@);
    }
    out
}

/// The auth request body for a TEE wire name: a JSON object with the one
/// member `tee`.
pub open spec fn spec_auth_body(tee: Seq<u8>) -> Seq<u8> {
    seq!['{' as u8, '"' as u8, 't' as u8, 'e' as u8, 'e' as u8, '"' as u8, ':' as u8]
        + spec_json_string(tee) + seq!['}' as u8]
}

/// Builds the auth request body for a TEE wire name.
pub fn auth_request_body(tee: &Vec<u8>) -> (r: Vec<u8>)
    ensures
        r@ == spec_auth_body(tee@),
{
    let mut out: Vec<u8> = Vec::new();
    out.push('{' as u8);
    out.push('"' as u8);
    out.push('t' as u8);
    out.push('e' as u8);
    out.push('e' as u8);
    out.push('"' as u8);
    out.push(':' as u8);
    append_json_string(&mut out, tee);
    out.push('}' as u8);
    proof {
        assert(out@ =~= spec_auth_body(tee@));
    }
    out
}

/// The attest request body: the public key halves and the evidence, in the
/// member order the KBS expects.
pub open spec fn spec_attest_body(k_mod: Seq<u8>, k_exp: Seq<u8>, evidence: Seq<u8>) -> Seq<
    u8,
> {
    seq![
        '{' as u8,
        '"' as u8,
        't' as u8,
        'e' as u8,
        'e' as u8,
        '_' as u8,
        'p' as u8,
        'u' as u8,
        'b' as u8,
        'k' as u8,
        'e' as u8,
        'y' as u8,
        '"' as u8,
        ':' as u8,
        '{' as u8,
        '"' as u8,
        'k' as u8,
        '_' as u8,
        'm' as u8,
        'o' as u8,
        'd' as u8,
        '"' as u8,
        ':' as u8,
    ] + spec_json_string(k_mod) + seq![
        ',' as u8,
        '"' as u8,
        'k' as u8,
        '_' as u8,
        'e' as u8,
        'x' as u8,
        'p' as u8,
        '"' as u8,
        ':' as u8,
    ] + spec_json_string(k_exp) + seq![
        '}' as u8,
        ',' as u8,
        '"' as u8,
        't' as u8,
        'e' as u8,
        'e' as u8,
        '_' as u8,
        'e' as u8,
        'v' as u8,
        'i' as u8,
        'd' as u8,
        'e' as u8,
        'n' as u8,
        'c' as u8,
        'e' as u8,
        '"' as u8,
        ':' as u8,
    ] + spec_json_string(evidence) + seq!['}' as u8]
}

/// Builds the attest request body for an attestation.
pub fn attest_request_body(attestation: &Attestation) -> (r: Vec<u8>)
    ensures
        r@ == spec_attest_body(
            attestation.tee_pubkey.k_mod@,
            attestation.tee_pubkey.k_exp@,
            attestation.tee_evidence@,
        ),
{
    attest_body(
        &attestation.tee_pubkey.k_mod,
        &attestation.tee_pubkey.k_exp,
        &attestation.tee_evidence,
    )
}

/// Builds the attest request body from the public key halves and the
/// evidence.
pub fn attest_body(k_mod: &Vec<u8>, k_exp: &Vec<u8>, evidence: &Vec<u8>) -> (r: Vec<u8>)
    ensures
        r@ == spec_attest_body(k_mod@, k_exp@, evidence@),
{
    let mut out: Vec<u8> = Vec::new();
    out.push('{' as u8);
    out.push('"' as u8);
    out.push('t' as u8);
    out.push('e' as u8);
    out.push('e' as u8);
    out.push('_' as u8);
    out.push('p' as u8);
    out.push('u' as u8);
    out.push('b' as u8);
    out.push('k' as u8);
    out.push('e' as u8);
    out.push('y' as u8);
    out.push('"' as u8);
    out.push(':' as u8);
    out.push('{' as u8);
    out.push('"' as u8);
    out.push('k' as u8);
    out.push('_' as u8);
    out.push('m' as u8);
    out.push('o' as u8);
    out.push('d' as u8);
    out.push('"' as u8);
    out.push(':' as u8);
    append_json_string(&mut out, k_mod);
    out.push(',' as u8);
    out.push('"' as u8);
    out.push('k' as u8);
    out.push('_' as u8);
    out.push('e' as u8);
    out.push('x' as u8);
    out.push('p' as u8);
    out.push('"' as u8);
    out.push(':' as u8);
    append_json_string(&mut out, k_exp);
    out.push('}' as u8);
    out.push(',' as u8);
    out.push('"' as u8);
    out.push('t' as u8);
    out.push('e' as u8);
    out.push('e' as u8);
    out.push('_' as u8);
    out.push('e' as u8);
    out.push('v' as u8);
    out.push('i' as u8);
    out.push('d' as u8);
    out.push('e' as u8);
    out.push('n' as u8);
    out.push('c' as u8);
    out.push('e' as u8);
    out.push('"' as u8);
    out.push(':' as u8);
    append_json_string(&mut out, evidence);
    out.push('}' as u8);
    proof {
        assert(out@ =~= spec_attest_body(k_mod@, k_exp@, evidence@));
    }
    out
}

/// The bearer credential header value carrying a token.
pub open spec fn spec_bearer(token: Seq<u8>) -> Seq<u8> {
    seq![
        'B' as u8,
        'e' as u8,
        'a' as u8,
        'r' as u8,
        'e' as u8,
        'r' as u8,
        ' ' as u8,
    ] + token
}

/// Builds the `Authorization` header value for a token.
pub fn bearer_header_value(token: &Vec<u8>) -> (r: Vec<u8>)
    ensures
        r@ == spec_bearer(token@),
{
    let mut out: Vec<u8> = Vec::new();
    out.push('B' as u8);
    out.push('e' as u8);
    out.push('a' as u8);
    out.push('r' as u8);
    out.push('e' as u8);
    out.push('r' as u8);
    out.push(' ' as u8);
    append_bytes(&mut out, token);
    proof {
        assert(out@ =~= spec_bearer(token@));
    }
    out
}

/// The token slot of an exec session, as a mathematical value.
pub open spec fn spec_opt_bytes(o: Option<Vec<u8>>) -> Option<Seq<u8>> {
    match o {
        Some(v) => Some(v@),
        None => None,
    }
}

/// The mathematical state of one resource fetch: the token slot as the
/// machine sees it, the fetch attempts consumed, and the delivered envelope.
pub ghost struct FetchModel {
    pub token: Option<Seq<u8>>,
    pub attempts: nat,
    pub envelope: Option<Seq<u8>>,
}

/// What the machine demands of its driver next.
#[derive(Clone, Copy, PartialEq, Eq, Structural, Debug)]
pub enum FetchStep {
    /// Run one auth + attest cycle and install the fresh token.
    NeedToken,
    /// Issue one GET of the resource with the current token and report the
    /// status and body.
    NeedFetch,
    /// A 200 body is held; the fetch succeeded.
    Delivered,
    /// The retry ceiling is exhausted; the fetch failed.
    Exhausted,
}

/// The fresh state of a fetch over a possibly-populated token cache.
pub open spec fn spec_new_model(cached: Option<Seq<u8>>) -> FetchModel {
    FetchModel { token: cached, attempts: 0, envelope: None }
}

/// The action a state demands: a held envelope ends the fetch; a missing
/// token forces a refresh; attempts below the ceiling allow a fetch; after
/// that the fetch has failed.
pub open spec fn spec_step(m: FetchModel) -> FetchStep {
    if m.envelope is Some {
        FetchStep::Delivered
    } else if m.token is None {
        FetchStep::NeedToken
    } else if m.attempts < KBS_GET_RESOURCE_MAX_ATTEMPT as nat {
        FetchStep::NeedFetch
    } else {
        FetchStep::Exhausted
    }
}

/// Installing a fresh token only fills the token slot.
pub open spec fn spec_on_token(m: FetchModel, t: Seq<u8>) -> FetchModel {
    FetchModel { token: Some(t), attempts: m.attempts, envelope: m.envelope }
}

/// A fetch response consumes one attempt; 200 delivers its body, 401
/// invalidates the token slot, any other status changes nothing else.
pub open spec fn spec_on_response(m: FetchModel, status: u16, body: Seq<u8>) -> FetchModel {
    if status == 200 {
        FetchModel { token: m.token, attempts: m.attempts + 1, envelope: Some(body) }
    } else if status == 401 {
        FetchModel { token: None, attempts: m.attempts + 1, envelope: m.envelope }
    } else {
        FetchModel { token: m.token, attempts: m.attempts + 1, envelope: m.envelope }
    }
}

/// One resource fetch against the cached token slot. The caller holds the
/// slot for the whole fetch, asks `step` what to do, performs the network
/// work, and reports the outcome through `on_token` and `on_response`.
pub struct FetchSession {
    token: Option<Vec<u8>>,
    attempts: u64,
    envelope: Option<Vec<u8>>,
}

impl View for FetchSession {
    type V = FetchModel;

    closed spec fn view(&self) -> FetchModel {
        FetchModel {
            token: spec_opt_bytes(self.token),
            attempts: self.attempts as nat,
            envelope: spec_opt_bytes(self.envelope),
        }
    }
}

impl FetchSession {
    /// Opens a fetch over the cached token slot's current contents.
    pub fn new(cached: Option<Vec<u8>>) -> (r: FetchSession)
        ensures
            r@ == spec_new_model(spec_opt_bytes(cached)),
    {
        FetchSession { token: cached, attempts: 0, envelope: None }
    }

    /// What the driver must do next.
    pub fn step(&self) -> (r: FetchStep)
        ensures
            r == spec_step(self@),
    {
        if self.envelope.is_some() {
            FetchStep::Delivered
        } else if self.token.is_none() {
            FetchStep::NeedToken
        } else if self.attempts < KBS_GET_RESOURCE_MAX_ATTEMPT {
            FetchStep::NeedFetch
        } else {
            FetchStep::Exhausted
        }
    }

    /// The token slot as the machine now sees it; what a driver writes back
    /// to the shared cache when the fetch ends.
    pub fn token(&self) -> (r: &Option<Vec<u8>>)
        ensures
            spec_opt_bytes(*r) == self@.token,
    {
        &self.token
    }

    /// The delivered envelope, if the fetch has succeeded.
    pub fn envelope(&self) -> (r: &Option<Vec<u8>>)
        ensures
            spec_opt_bytes(*r) == self@.envelope,
    {
        &self.envelope
    }

    /// Reports one finished auth + attest cycle: installs the fresh token.
    pub fn on_token(&mut self, token: Vec<u8>)
        requires
            spec_step(old(self)@) == FetchStep::NeedToken,
        ensures
            final(self)@ == spec_on_token(old(self)@, token@),
    {
        self.token = Some(token);
    }

    /// Reports one fetch response by status code and body.
    pub fn on_response(&mut self, status: u16, body: Vec<u8>)
        requires
            spec_step(old(self)@) == FetchStep::NeedFetch,
        ensures
            final(self)@ == spec_on_response(old(self)@, status, body@),
    {
        self.attempts = self.attempts + 1;
        if status == 200 {
            self.envelope = Some(body);
        } else if status == 401 {
            self.token = None;
        }
    }
}

impl FetchSession {
    /// The failure an exhausted fetch surfaces: the retry ceiling was
    /// reached, and the error names the resource path the fetch was for.
    pub fn retrieval_failure(&self, resource: Vec<u8>) -> (r: Error)
        requires
            spec_step(self@) == FetchStep::Exhausted,
        ensures
            r matches Error::ResourceRetrieval(p) && p@ == resource@,
    {
        Error::ResourceRetrieval(resource)
    }
}

/// A fetch is only ever demanded while a token is in the slot: whenever the
/// machine asks its driver to fetch, the cache holds a token.
pub proof fn lemma_fetch_needs_token(m: FetchModel)
    requires
        spec_step(m) == FetchStep::NeedFetch,
    ensures
        m.token is Some,
{
}

/// The ceiling is never overrun: however the fetch unfolds, no transition
/// pushes the attempts consumed past the ceiling, so no more than three
/// fetches are ever issued in one resource retrieval.
pub proof fn lemma_ceiling_is_invariant(m: FetchModel, status: u16, body: Seq<u8>, t: Seq<u8>)
    requires
        m.attempts <= KBS_GET_RESOURCE_MAX_ATTEMPT as nat,
    ensures
        spec_step(m) == FetchStep::NeedFetch ==> spec_on_response(m, status, body).attempts
            <= KBS_GET_RESOURCE_MAX_ATTEMPT as nat,
        spec_on_token(m, t).attempts <= KBS_GET_RESOURCE_MAX_ATTEMPT as nat,
{
}

/// An empty cache costs exactly one auth + attest cycle before the first
/// fetch: the fresh state demands a refresh and nothing else, and once the
/// token is installed the machine demands a fetch, not another refresh.
pub proof fn lemma_empty_cache_one_refresh(t: Seq<u8>)
    ensures
        spec_step(spec_new_model(None)) == FetchStep::NeedToken,
        spec_step(spec_on_token(spec_new_model(None), t)) == FetchStep::NeedFetch,
{
}

/// A populated cache costs no auth + attest cycle unless a fetch comes back
/// 401: the first demanded action is a fetch, and no response other than 401
/// ever puts the machine back into the refresh state.
pub proof fn lemma_populated_cache_no_refresh(t: Seq<u8>, m: FetchModel, status: u16, body: Seq<u8>)
    requires
        spec_step(m) == FetchStep::NeedFetch,
        status != 401,
    ensures
        spec_step(spec_new_model(Some(t))) == FetchStep::NeedFetch,
        spec_step(spec_on_response(m, status, body)) != FetchStep::NeedToken,
{
}

/// The retry ceiling: against an endpoint that always answers 401, a fetch
/// over a populated cache performs exactly three fetch attempts and exactly
/// three auth + attest refreshes, in strict alternation, and then fails.
/// The trace below is forced, because every state demands exactly one
/// action of its driver.
pub proof fn lemma_retry_ceiling(
    t0: Seq<u8>,
    t1: Seq<u8>,
    t2: Seq<u8>,
    t3: Seq<u8>,
    b1: Seq<u8>,
    b2: Seq<u8>,
    b3: Seq<u8>,
)
    ensures
        ({
            let m0 = spec_new_model(Some(t0));
            let m1 = spec_on_response(m0, 401, b1);
            let m2 = spec_on_token(m1, t1);
            let m3 = spec_on_response(m2, 401, b2);
            let m4 = spec_on_token(m3, t2);
            let m5 = spec_on_response(m4, 401, b3);
            let m6 = spec_on_token(m5, t3);
            &&& spec_step(m0) == FetchStep::NeedFetch
            &&& spec_step(m1) == FetchStep::NeedToken
            &&& spec_step(m2) == FetchStep::NeedFetch
            &&& spec_step(m3) == FetchStep::NeedToken
            &&& spec_step(m4) == FetchStep::NeedFetch
            &&& spec_step(m5) == FetchStep::NeedToken
            &&& spec_step(m6) == FetchStep::Exhausted
        }),
{
}

/// Recovery: against an endpoint that answers 401 once and then 200, the
/// fetch succeeds on the second attempt and leaves the cache populated with
/// the refreshed token.
pub proof fn lemma_recovery(t0: Seq<u8>, t1: Seq<u8>, b1: Seq<u8>, payload: Seq<u8>)
    ensures
        ({
            let m0 = spec_new_model(Some(t0));
            let m1 = spec_on_response(m0, 401, b1);
            let m2 = spec_on_token(m1, t1);
            let m3 = spec_on_response(m2, 200, payload);
            &&& spec_step(m0) == FetchStep::NeedFetch
            &&& spec_step(m1) == FetchStep::NeedToken
            &&& spec_step(m2) == FetchStep::NeedFetch
            &&& spec_step(m3) == FetchStep::Delivered
            &&& m3.envelope == Some(payload)
            &&& m3.token == Some(t1)
            &&& m3.attempts == 2
        }),
{
}

} // verus!
