//! The TEE keypair and resource decryption: the keypair is generated once
//! per process, its public half goes to the KBS, and its private half
//! unwraps the symmetric key of a delivered resource envelope, which is then
//! opened with AES-256-GCM. The private half never leaves the process.

use vstd::prelude::*;
use crate::kbs::{TeePubKey, Error};
use aes_gcm::aead::Aead;
use aes_gcm::KeyInit;
use base64::Engine;
use rsa::traits::PublicKeyParts;

verus! {

#[verifier::external_type_specification]
#[verifier::external_body]
pub struct ExRsaPrivateKey(rsa::RsaPrivateKey);

/// The asymmetric keypair of this process. The private half stays inside;
/// only the exported public half is ever shown to the KBS.
pub struct TeeKey {
    key: rsa::RsaPrivateKey,
}

impl TeeKey {
    /// Relies on rsa's `RsaPrivateKey::new`: generates a fresh 2048-bit
    /// keypair from the thread's entropy; `None` when generation fails.
    /// Nothing can be promised of a random key.
    #[verifier::external_body]
    pub fn new() -> (r: Option<TeeKey>)
    {
        match rsa::RsaPrivateKey::new(&mut rand::thread_rng(), 2048) {
            Ok(key) => Some(TeeKey { key }),
            Err(_) => None,
        }
    }

    /// Relies on rsa's `PublicKeyParts` (`n`, `e`, big-endian bytes) and
    /// base64's standard engine: exports the public half as base64 text.
    /// The result depends only on the key, of which nothing is stated.
    #[verifier::external_body]
    pub fn export_pubkey(&self) -> (r: TeePubKey)
    {
        let engine = base64::engine::general_purpose::STANDARD;
        let k_mod = engine.encode(self.key.n().to_bytes_be()).into_bytes();
        let k_exp = engine.encode(self.key.e().to_bytes_be()).into_bytes();
        TeePubKey { k_mod, k_exp }
    }

    /// Relies on rsa's `RsaPrivateKey::decrypt` with PKCS#1 v1.5 padding:
    /// unwraps a key wrapped to this keypair's public half; any mismatch or
    /// malformed input is a decryption error.
    #[verifier::external_body]
    fn unwrap_key(&self, wrapped: &Vec<u8>) -> (r: Result<Vec<u8>, Error>)
        ensures
            r matches Err(e) ==> e is Decryption,
    {
        match self.key.decrypt(rsa::Pkcs1v15Encrypt, wrapped.as_slice()) {
            Ok(k) => Ok(k),
            Err(_) => Err(Error::Decryption),
        }
    }
}

/// A KBS resource envelope: the symmetric key wrapped to the TEE public
/// half, the nonce, and the AES-256-GCM ciphertext (tag included).
#[derive(Debug, Clone)]
pub struct Envelope {
    pub wrapped_key: Vec<u8>,
    pub iv: Vec<u8>,
    pub ciphertext: Vec<u8>,
}

/// The AES-256-GCM plaintext of a ciphertext under a 32-byte key and a
/// 12-byte nonce, or `None` when authentication fails. Fixed by the cipher
/// alone; the library states nothing further about it.
pub uninterp spec fn spec_aes_gcm_plaintext(key: Seq<u8>, iv: Seq<u8>, ct: Seq<u8>) -> Option<
    Seq<u8>,
>;

/// Relies on aes-gcm's `Aes256Gcm`: decryption is a function of key, nonce
/// and ciphertext alone; it fails exactly when the tag does not
/// authenticate.
#[verifier::external_body]
fn aes_gcm_decrypt(key: &Vec<u8>, iv: &Vec<u8>, ct: &Vec<u8>) -> (r: Option<Vec<u8>>)
    requires
        key@.len() == 32,
        iv@.len() == 12,
    ensures
        match r {
            Some(p) => spec_aes_gcm_plaintext(key@, iv@, ct@) == Some(p@),
            None => spec_aes_gcm_plaintext(key@, iv@, ct@) is None,
        },
{
    let cipher = match aes_gcm::Aes256Gcm::new_from_slice(key.as_slice()) {
        Ok(c) => c,
        Err(_) => return None,
    };
    let nonce = aes_gcm::Nonce::from_slice(iv.as_slice());
    cipher.decrypt(nonce, ct.as_slice()).ok()
}

/// Opens an envelope with an already unwrapped symmetric key: the key must
/// be 32 bytes and the nonce 12, and the ciphertext must authenticate;
/// exactly then the plaintext comes back, and every failure is a decryption
/// error.
pub fn open_envelope(key: &Vec<u8>, envelope: &Envelope) -> (r: Result<Vec<u8>, Error>)
    ensures
        key@.len() == 32 && envelope.iv@.len() == 12 && spec_aes_gcm_plaintext(
            key@,
            envelope.iv@,
            envelope.ciphertext@,
        ) is Some ==> (r matches Ok(p) && Some(p@) == spec_aes_gcm_plaintext(
            key@,
            envelope.iv@,
            envelope.ciphertext@,
        )),
        !(key@.len() == 32 && envelope.iv@.len() == 12 && spec_aes_gcm_plaintext(
            key@,
            envelope.iv@,
            envelope.ciphertext@,
        ) is Some) ==> (r matches Err(e) && e is Decryption),
{
    if key.len() != 32 || envelope.iv.len() != 12 {
        return Err(Error::Decryption);
    }
    match aes_gcm_decrypt(key, &envelope.iv, &envelope.ciphertext) {
        Some(p) => Ok(p),
        None => Err(Error::Decryption),
    }
}

/// Unwraps a KBS-delivered envelope with the TEE private key and opens it.
/// The plaintext, when one comes back, is the cipher's own for the unwrapped
/// key; every failure, at either stage, is a decryption error and is never
/// worth retrying.
pub fn decrypt_resource(key: &TeeKey, envelope: &Envelope) -> (r: Result<Vec<u8>, Error>)
    ensures
        r matches Ok(p) ==> (exists|k: Seq<u8>|
            k.len() == 32 && spec_aes_gcm_plaintext(k, envelope.iv@, envelope.ciphertext@) == Some(
                p@,
            )),
        r matches Err(e) ==> e is Decryption,
{
    let symmetric = match key.unwrap_key(&envelope.wrapped_key) {
        Ok(k) => k,
        Err(e) => {
            return Err(e);
        },
    };
    match open_envelope(&symmetric, envelope) {
        Ok(p) => {
            proof {
                assert(symmetric@.len() == 32 && spec_aes_gcm_plaintext(
                    symmetric@,
                    envelope.iv@,
                    envelope.ciphertext@,
                ) == Some(p@));
            }
            Ok(p)
        },
        Err(e) => Err(e),
    }
}

} // verus!
