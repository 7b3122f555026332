//! One auth + attest cycle: the single path by which a fresh token is
//! obtained. The cycle is strictly sequential — auth for a nonce, evidence
//! for the bound challenge, attest for the token — and the phase type makes
//! any other order impossible. The HTTP and RPC round trips happen outside
//! and feed their outcomes back in.

use vstd::prelude::*;
use crate::binding::{bind_challenge, spec_bound_challenge};
use crate::kbs::{
    attest_body, auth_request_body, auth_url, attest_url, spec_attest_body, spec_auth_body,
    spec_auth_path, spec_attest_path, Error, TeePubKey,
};
use crate::response::{json_string_member, spec_has_member_value, spec_has_unclosed_member,
    spec_member_marker, spec_no_match_before};

verus! {

/// The member of the auth challenge that carries the nonce.
pub open spec fn spec_nonce_key() -> Seq<u8> {
    seq!['n' as u8, 'o' as u8, 'n' as u8, 'c' as u8, 'e' as u8]
}

fn nonce_key() -> (r: Vec<u8>)
    ensures
        r@ == spec_nonce_key(),
{
    let mut out: Vec<u8> = Vec::new();
    out.push('n' as u8);
    out.push('o' as u8);
    out.push('n' as u8);
    out.push('c' as u8);
    out.push('e' as u8);
    proof {
        assert(out@ =~= spec_nonce_key());
    }
    out
}

/// The member of the attest response that carries the token.
pub open spec fn spec_token_key() -> Seq<u8> {
    seq!['t' as u8, 'o' as u8, 'k' as u8, 'e' as u8, 'n' as u8]
}

fn token_key() -> (r: Vec<u8>)
    ensures
        r@ == spec_token_key(),
{
    let mut out: Vec<u8> = Vec::new();
    out.push('t' as u8);
    out.push('o' as u8);
    out.push('k' as u8);
    out.push('e' as u8);
    out.push('n' as u8);
    proof {
        assert(out@ =~= spec_token_key());
    }
    out
}

/// A body carries no usable string member `key`: its marker never occurs,
/// or the value it opens never closes.
pub open spec fn spec_no_member(body: Seq<u8>, key: Seq<u8>) -> bool {
    spec_no_match_before(body, spec_member_marker(key), body.len() as int + 1)
        || spec_has_unclosed_member(body, key)
}

/// `c` is the challenge bound to the nonce that `body` carries.
pub open spec fn spec_challenge_from(
    body: Seq<u8>,
    k_mod: Seq<u8>,
    k_exp: Seq<u8>,
    c: Seq<u8>,
) -> bool {
    exists|nonce: Seq<u8>|
        #[trigger] spec_has_member_value(body, spec_nonce_key(), nonce) && c
            == spec_bound_challenge(nonce, k_mod, k_exp)
}

/// Where one cycle stands. Each phase admits exactly one next call.
#[derive(Clone, Copy, PartialEq, Eq, Structural, Debug)]
pub enum CyclePhase {
    /// Nothing sent yet; the auth request comes next.
    Start,
    /// The auth request is out; its challenge body comes next.
    AwaitNonce,
    /// The challenge is bound; the attester's evidence comes next.
    AwaitEvidence,
    /// The attest request is out; its verdict comes next.
    AwaitToken,
    /// The cycle ended, with a token or with an error.
    Finished,
}

/// The mathematical state of one cycle: the fixed inputs and the phase.
pub ghost struct CycleModel {
    pub kbs_url: Seq<u8>,
    pub tee_name: Seq<u8>,
    pub k_mod: Seq<u8>,
    pub k_exp: Seq<u8>,
    pub phase: CyclePhase,
}

/// One auth + attest cycle against a KBS, for a fixed TEE kind and public
/// key. Constructed fresh for every cycle, since the nonce it binds is
/// single-use.
pub struct TokenCycle {
    kbs_url: Vec<u8>,
    tee_name: Vec<u8>,
    pubkey: TeePubKey,
    phase: CyclePhase,
}

impl View for TokenCycle {
    type V = CycleModel;

    closed spec fn view(&self) -> CycleModel {
        CycleModel {
            kbs_url: self.kbs_url@,
            tee_name: self.tee_name@,
            k_mod: self.pubkey.k_mod@,
            k_exp: self.pubkey.k_exp@,
            phase: self.phase,
        }
    }
}

impl TokenCycle {
    /// Opens a cycle for a KBS base URL, a TEE wire name, and the exported
    /// public key half.
    pub fn new(kbs_url: Vec<u8>, tee_name: Vec<u8>, pubkey: TeePubKey) -> (r: TokenCycle)
        ensures
            r@.kbs_url == kbs_url@,
            r@.tee_name == tee_name@,
            r@.k_mod == pubkey.k_mod@,
            r@.k_exp == pubkey.k_exp@,
            r@.phase == CyclePhase::Start,
    {
        TokenCycle { kbs_url, tee_name, pubkey, phase: CyclePhase::Start }
    }

    /// The phase the cycle stands in.
    pub fn phase(&self) -> (r: CyclePhase)
        ensures
            r == self@.phase,
    {
        self.phase
    }

    /// The auth request: its URL and its body, asking the KBS to open a
    /// session for this TEE kind.
    pub fn auth_request(&mut self) -> (r: (Vec<u8>, Vec<u8>))
        requires
            old(self)@.phase == CyclePhase::Start,
        ensures
            r.0@ == old(self)@.kbs_url + spec_auth_path(),
            r.1@ == spec_auth_body(old(self)@.tee_name),
            final(self)@ == (CycleModel { phase: CyclePhase::AwaitNonce, ..old(self)@ }),
    {
        self.phase = CyclePhase::AwaitNonce;
        (auth_url(&self.kbs_url), auth_request_body(&self.tee_name))
    }

    /// Consumes the auth response: extracts the nonce and binds it with the
    /// public key halves into the attestation challenge. A body without a
    /// usable nonce is an auth failure and ends the cycle.
    pub fn on_auth_response(&mut self, body: &Vec<u8>) -> (r: Result<Vec<u8>, Error>)
        requires
            old(self)@.phase == CyclePhase::AwaitNonce,
        ensures
            r matches Ok(c) ==> spec_challenge_from(
                body@,
                old(self)@.k_mod,
                old(self)@.k_exp,
                c@,
            ) && final(self)@ == (CycleModel { phase: CyclePhase::AwaitEvidence, ..old(self)@ }),
            r matches Err(e) ==> e is KbsAuth && spec_no_member(body@, spec_nonce_key())
                && final(self)@ == (CycleModel { phase: CyclePhase::Finished, ..old(self)@ }),
    {
        let nonce = match json_string_member(body, &nonce_key()) {
            Some(n) => n,
            None => {
                self.phase = CyclePhase::Finished;
                return Err(Error::KbsAuth);
            },
        };
        let challenge = bind_challenge(&nonce, &self.pubkey.k_mod, &self.pubkey.k_exp);
        self.phase = CyclePhase::AwaitEvidence;
        proof {
            assert(spec_has_member_value(body@, spec_nonce_key(), nonce@));
            assert(spec_challenge_from(body@, self@.k_mod, self@.k_exp, challenge@));
        }
        Ok(challenge)
    }

    /// Consumes the attester's evidence: the attest request, its URL and its
    /// body carrying the public key and the evidence verbatim.
    pub fn attest_request(&mut self, evidence: &Vec<u8>) -> (r: (Vec<u8>, Vec<u8>))
        requires
            old(self)@.phase == CyclePhase::AwaitEvidence,
        ensures
            r.0@ == old(self)@.kbs_url + spec_attest_path(),
            r.1@ == spec_attest_body(old(self)@.k_mod, old(self)@.k_exp, evidence@),
            final(self)@ == (CycleModel { phase: CyclePhase::AwaitToken, ..old(self)@ }),
    {
        self.phase = CyclePhase::AwaitToken;
        (
            attest_url(&self.kbs_url),
            attest_body(&self.pubkey.k_mod, &self.pubkey.k_exp, evidence),
        )
    }

    /// Consumes the attest verdict and ends the cycle. A non-200 status is a
    /// hard rejection — repeating it without a fresh nonce cannot succeed; a
    /// 200 whose body carries no usable token is a malformed handshake
    /// response.
    pub fn on_attest_response(&mut self, status: u16, body: &Vec<u8>) -> (r: Result<
        Vec<u8>,
        Error,
    >)
        requires
            old(self)@.phase == CyclePhase::AwaitToken,
        ensures
            final(self)@ == (CycleModel { phase: CyclePhase::Finished, ..old(self)@ }),
            status != 200 ==> (r matches Err(e) && e is AttestationRejected),
            status == 200 ==> (match r {
                Ok(t) => spec_has_member_value(body@, spec_token_key(), t@),
                Err(e) => e is KbsAuth && spec_no_member(body@, spec_token_key()),
            }),
    {
        self.phase = CyclePhase::Finished;
        if status != 200 {
            return Err(Error::AttestationRejected);
        }
        match json_string_member(body, &token_key()) {
            Some(t) => Ok(t),
            None => Err(Error::KbsAuth),
        }
    }
}

} // verus!
