//! Evidence binding: the deterministic construction of the attestation
//! challenge from the session nonce and the TEE public key material, by
//! ordered hash chaining — each field is digested on its own and the digests
//! are chained, so no two fields can blur into one another the way a plain
//! concatenation would allow.

use vstd::prelude::*;
use crate::encode::append_bytes;
use sha2::Digest;

verus! {

/// The SHA-384 digest of a byte sequence. Its value is fixed by the hash
/// function alone; the library states nothing further about it.
pub uninterp spec fn spec_sha384(data: Seq<u8>) -> Seq<u8>;

/// Relies on sha2's `Sha384`: the digest is a function of the input bytes
/// alone and is 48 bytes long.
#[verifier::external_body]
fn sha384(data: &Vec<u8>) -> (r: Vec<u8>)
    ensures
        r@ == spec_sha384(data@),
        r@.len() == 48,
{
    let mut hasher = sha2::Sha384::new();
    hasher.update(data.as_slice());
    hasher.finalize().to_vec()
}

/// The challenge bound to a nonce and a public key: the digest of the three
/// field digests chained in fixed order (nonce, modulus, exponent).
pub open spec fn spec_bound_challenge(nonce: Seq<u8>, k_mod: Seq<u8>, k_exp: Seq<u8>) -> Seq<
    u8,
> {
    spec_sha384(spec_sha384(nonce) + spec_sha384(k_mod) + spec_sha384(k_exp))
}

/// Binds a session nonce and the public key halves into the attestation
/// challenge. Order-stable and side-effect-free: the same triple always
/// yields the same challenge.
pub fn bind_challenge(nonce: &Vec<u8>, k_mod: &Vec<u8>, k_exp: &Vec<u8>) -> (r: Vec<u8>)
    ensures
        r@ == spec_bound_challenge(nonce@, k_mod@, k_exp@),
        r@.len() == 48,
{
    let mut chained: Vec<u8> = sha384(nonce);
    append_bytes(&mut chained, &sha384(k_mod));
    append_bytes(&mut chained, &sha384(k_exp));
    proof {
        assert(chained@ =~= spec_sha384(nonce@) + spec_sha384(k_mod@) + spec_sha384(k_exp@));
    }
    sha384(&chained)
}

/// Evidence binding is deterministic: two calls on identical inputs yield
/// identical challenges.
pub proof fn lemma_binding_deterministic(
    n1: Seq<u8>,
    m1: Seq<u8>,
    e1: Seq<u8>,
    n2: Seq<u8>,
    m2: Seq<u8>,
    e2: Seq<u8>,
)
    requires
        n1 == n2,
        m1 == m2,
        e1 == e2,
    ensures
        spec_bound_challenge(n1, m1, e1) == spec_bound_challenge(n2, m2, e2),
{
}

} // verus!
