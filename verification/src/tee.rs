//! The closed set of TEE kinds this crate speaks for, and the evidence
//! daemon's decision logic: kind reporting, reply construction, and the
//! redacted audit line for evidence requests.

use vstd::prelude::*;
use crate::encode::{spec_hex, hex_of, bytes_eq};
use crate::kbs::Error;

verus! {

/// Hardware attestation technologies this crate knows how to speak for.
#[derive(Clone, Copy, PartialEq, Eq, Structural, Debug)]
pub enum Tee {
    AzSnpVtpm,
    Sev,
    Sgx,
    Snp,
    Tdx,
    Sample,
}

impl Tee {
    /// The wire name reported to the KBS, as bytes.
    pub open spec fn spec_name(self) -> Seq<u8> {
        match self {
            Tee::AzSnpVtpm => seq!['a' as u8, 'z' as u8, 's' as u8, 'n' as u8, 'p' as u8, 'v' as u8, 't' as u8, 'p' as u8, 'm' as u8],
            Tee::Sev => seq!['s' as u8, 'e' as u8, 'v' as u8],
            Tee::Sgx => seq!['s' as u8, 'g' as u8, 'x' as u8],
            Tee::Snp => seq!['s' as u8, 'n' as u8, 'p' as u8],
            Tee::Tdx => seq!['t' as u8, 'd' as u8, 'x' as u8],
            Tee::Sample => seq!['s' as u8, 'a' as u8, 'm' as u8, 'p' as u8, 'l' as u8, 'e' as u8],
        }
    }

    /// The wire name reported to the KBS.
    pub fn name(&self) -> (r: Vec<u8>)
        ensures
            r@ == self.spec_name(),
    {
        let mut v: Vec<u8> = Vec::new();
        match self {
            Tee::AzSnpVtpm => {
                v.push('a' as u8);
                v.push('z' as u8);
                v.push('s' as u8);
                v.push('n' as u8);
                v.push('p' as u8);
                v.push('v' as u8);
                v.push('t' as u8);
                v.push('p' as u8);
                v.push('m' as u8);
            }
            Tee::Sev => {
                v.push('s' as u8);
                v.push('e' as u8);
                v.push('v' as u8);
            }
            Tee::Sgx => {
                v.push('s' as u8);
                v.push('g' as u8);
                v.push('x' as u8);
            }
            Tee::Snp => {
                v.push('s' as u8);
                v.push('n' as u8);
                v.push('p' as u8);
            }
            Tee::Tdx => {
                v.push('t' as u8);
                v.push('d' as u8);
                v.push('x' as u8);
            }
            Tee::Sample => {
                v.push('s' as u8);
                v.push('a' as u8);
                v.push('m' as u8);
                v.push('p' as u8);
                v.push('l' as u8);
                v.push('e' as u8);
            }
        }
        proof {
            assert(v@ =~= self.spec_name());
        }
        v
    }
}

impl Tee {
    /// The wire name as text, for reporting over the RPC channel.
    pub open spec fn spec_label(self) -> Seq<char> {
        match self {
            Tee::AzSnpVtpm => "azsnpvtpm"@,
            Tee::Sev => "sev"@,
            Tee::Sgx => "sgx"@,
            Tee::Snp => "snp"@,
            Tee::Tdx => "tdx"@,
            Tee::Sample => "sample"@,
        }
    }

    /// The wire name as an owned string.
    pub fn label(&self) -> (r: String)
        ensures
            r@ == self.spec_label(),
    {
        match self {
            Tee::AzSnpVtpm => "azsnpvtpm".to_owned(),
            Tee::Sev => "sev".to_owned(),
            Tee::Sgx => "sgx".to_owned(),
            Tee::Snp => "snp".to_owned(),
            Tee::Tdx => "tdx".to_owned(),
            Tee::Sample => "sample".to_owned(),
        }
    }

    /// Recovers the kind from its wire name; `None` on any other name, which
    /// a caller treats as unsupported hardware.
    pub fn from_name(name: &Vec<u8>) -> (r: Option<Tee>)
        ensures
            match r {
                Some(t) => name@ == t.spec_name(),
                None => forall|t: Tee| name@ != t.spec_name(),
            },
    {
        if bytes_eq(name, &Tee::AzSnpVtpm.name()) {
            return Some(Tee::AzSnpVtpm);
        }
        if bytes_eq(name, &Tee::Sev.name()) {
            return Some(Tee::Sev);
        }
        if bytes_eq(name, &Tee::Sgx.name()) {
            return Some(Tee::Sgx);
        }
        if bytes_eq(name, &Tee::Snp.name()) {
            return Some(Tee::Snp);
        }
        if bytes_eq(name, &Tee::Tdx.name()) {
            return Some(Tee::Tdx);
        }
        if bytes_eq(name, &Tee::Sample.name()) {
            return Some(Tee::Sample);
        }
        proof {
            assert forall|t: Tee| name@ != t.spec_name() by {
                assert(t is AzSnpVtpm || t is Sev || t is Sgx || t is Snp || t is Tdx
                    || t is Sample);
            }
        }
        None
    }
}

impl Tee {
    /// The startup gate on the reported kind: an unknown wire name is
    /// unsupported hardware, fatal before any request is served.
    pub fn require_supported(name: &Vec<u8>) -> (r: Result<Tee, Error>)
        ensures
            r matches Ok(t) ==> name@ == t.spec_name(),
            r matches Err(e) ==> e is UnsupportedTee && (forall|t: Tee| name@ != t.spec_name()),
    {
        match Tee::from_name(name) {
            Some(t) => Ok(t),
            None => Err(Error::UnsupportedTee),
        }
    }
}

/// Naming a kind and parsing the name back always recovers the same kind.
pub proof fn lemma_tee_name_round_trip(t: Tee, u: Tee)
    requires
        t.spec_name() == u.spec_name(),
    ensures
        t == u,
{
}

/// Owner of the one attester of the process: remembers the detected TEE
/// kind; hardware probing happens before construction.
pub struct TeeClient {
    pub tee: Tee,
}

impl TeeClient {
    /// Builds the client around an already detected TEE kind.
    pub fn new(tee: Tee) -> (r: TeeClient)
        ensures
            r.tee == tee,
    {
        TeeClient { tee }
    }

    /// Reports the kind's wire name, constant for the client's lifetime.
    pub fn tee(&self) -> (r: String)
        ensures
            r@ == self.tee.spec_label(),
    {
        self.tee.label()
    }
}

/// The daemon's answer to an evidence request.
#[derive(Debug)]
pub enum EvidenceReply {
    /// The attester produced evidence; it is forwarded verbatim.
    Evidence(Vec<u8>),
    /// The attester failed; the daemon reports an internal fault carrying
    /// the attester's message.
    Internal(Vec<u8>),
}

/// Turns the attester's outcome into the daemon's RPC reply: evidence passes
/// through unchanged, a hardware fault becomes an internal error verbatim.
pub fn evidence_reply(outcome: Result<Vec<u8>, Vec<u8>>) -> (r: EvidenceReply)
    ensures
        match outcome {
            Ok(e) => r matches EvidenceReply::Evidence(v) && v@ == e@,
            Err(m) => r matches EvidenceReply::Internal(v) && v@ == m@,
        },
{
    match outcome {
        Ok(e) => EvidenceReply::Evidence(e),
        Err(m) => EvidenceReply::Internal(m),
    }
}

/// The gateway's reading of the daemon's evidence reply: a reported fault,
/// or a missing evidence field, is an evidence-collection failure; only an
/// actual evidence string succeeds, verbatim.
pub fn evidence_from_reply(evidence: Option<Vec<u8>>, fault: Option<Vec<u8>>) -> (r: Result<
    Vec<u8>,
    Error,
>)
    ensures
        fault is Some ==> (r matches Err(e) && e is EvidenceCollection),
        fault is None ==> (match evidence {
            Some(ev) => r matches Ok(v) && v@ == ev@,
            None => r matches Err(e) && e is EvidenceCollection,
        }),
{
    if fault.is_some() {
        return Err(Error::EvidenceCollection);
    }
    match evidence {
        Some(ev) => Ok(ev),
        None => Err(Error::EvidenceCollection),
    }
}

/// The redacted audit line the daemon logs for an evidence request: the
/// challenge in lower-case hexadecimal, never the raw bytes.
pub fn evidence_audit_line(challenge: &Vec<u8>) -> (r: Vec<u8>)
    ensures
        r@ == spec_hex(challenge@),
{
    hex_of(challenge)
}

} // verus!
