//! Attestation-gated secret release: a client library for the Key Broker
//! Service (KBS) protocol, together with the evidence-daemon decision logic
//! that serializes access to a TEE attester.
//!
//! The library holds the protocol logic: challenge binding, request and
//! response construction, the token cache and retry state machine, socket
//! addressing, and resource decryption. Network and socket I/O live outside.

pub mod encode;
pub mod tee;
pub mod binding;
pub mod handshake;
pub mod kbs;
pub mod response;
pub mod key;
pub mod socket;
