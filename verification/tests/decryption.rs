use aes_gcm::aead::Aead;
use aes_gcm::KeyInit;
use base64::Engine;
use rsa::traits::PublicKeyParts;
use skr_api::key::{decrypt_resource, open_envelope, Envelope, TeeKey};
use skr_api::kbs::Error;

/// Rebuilds the RSA public key from the exported base64 halves, the way the
/// KBS sees it.
fn public_key_of(key: &TeeKey) -> rsa::RsaPublicKey {
    let exported = key.export_pubkey();
    let engine = base64::engine::general_purpose::STANDARD;
    let n = rsa::BigUint::from_bytes_be(&engine.decode(&exported.k_mod).unwrap());
    let e = rsa::BigUint::from_bytes_be(&engine.decode(&exported.k_exp).unwrap());
    rsa::RsaPublicKey::new(n, e).unwrap()
}

fn sealed_envelope(key: &TeeKey, symmetric: &[u8; 32], iv: &[u8; 12], payload: &[u8]) -> Envelope {
    let public = public_key_of(key);
    let wrapped_key = public
        .encrypt(&mut rand::thread_rng(), rsa::Pkcs1v15Encrypt, symmetric)
        .unwrap();
    let cipher = aes_gcm::Aes256Gcm::new_from_slice(symmetric).unwrap();
    let ciphertext = cipher.encrypt(aes_gcm::Nonce::from_slice(iv), payload).unwrap();
    Envelope { wrapped_key, iv: iv.to_vec(), ciphertext }
}

// Key generation is costly, so the one generated keypair serves every case:
// the round trip, a tampered ciphertext, and a corrupted wrapped key.
#[test]
fn envelope_decryption_with_the_tee_key() {
    let key = TeeKey::new().expect("keypair generation failed");
    let envelope = sealed_envelope(&key, &[7u8; 32], &[9u8; 12], b"the released secret");

    let plaintext = decrypt_resource(&key, &envelope).expect("decryption failed");
    assert_eq!(plaintext, b"the released secret".to_vec());

    // a flipped ciphertext byte no longer authenticates
    let mut tampered = envelope.clone();
    let last = tampered.ciphertext.len() - 1;
    tampered.ciphertext[last] ^= 0x01;
    assert!(matches!(decrypt_resource(&key, &tampered), Err(Error::Decryption)));

    // a corrupted wrapped key fails at the unwrap stage, never retried
    let mut corrupted = envelope.clone();
    corrupted.wrapped_key[0] ^= 0x01;
    assert!(matches!(decrypt_resource(&key, &corrupted), Err(Error::Decryption)));
}

#[test]
fn open_envelope_is_exact_on_sizes_and_tag() {
    let symmetric = [7u8; 32];
    let cipher = aes_gcm::Aes256Gcm::new_from_slice(&symmetric).unwrap();
    let iv = [9u8; 12];
    let ciphertext = cipher
        .encrypt(aes_gcm::Nonce::from_slice(&iv), b"secret".as_slice())
        .unwrap();
    let good = Envelope { wrapped_key: Vec::new(), iv: iv.to_vec(), ciphertext: ciphertext.clone() };
    assert_eq!(open_envelope(&symmetric.to_vec(), &good).unwrap(), b"secret".to_vec());

    // the wrong symmetric key fails authentication
    let wrong = vec![8u8; 32];
    assert!(matches!(open_envelope(&wrong, &good), Err(Error::Decryption)));
    // a key of the wrong size is refused outright
    let short_key = vec![7u8; 16];
    assert!(matches!(open_envelope(&short_key, &good), Err(Error::Decryption)));
    // so is a nonce of the wrong size
    let bad_iv = Envelope { wrapped_key: Vec::new(), iv: vec![9u8; 8], ciphertext };
    assert!(matches!(open_envelope(&symmetric.to_vec(), &bad_iv), Err(Error::Decryption)));
}
