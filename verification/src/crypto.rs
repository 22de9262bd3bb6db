//! The cryptographic primitive consumed from outside: Ed25519 signature
//! verification over a fixed 32-byte key, a message digest, and a 64-byte
//! signature.

use vstd::prelude::*;

verus! {

/// Whether `signature` is a valid Ed25519 signature over `message` under the
/// 32-byte public key `key`. Verification is a deterministic function of
/// these three values alone; a byte string that does not decode to a valid
/// public key validates no signature.
pub uninterp spec fn ed25519_valid(key: Seq<u8>, message: Seq<u8>, signature: Seq<u8>) -> bool;

/// Relies on `ed25519_dalek::VerifyingKey::{from_bytes, verify_strict}` and
/// `ed25519_dalek::Signature::from_bytes`: whether the triple verifies is a
/// deterministic function of key, message and signature, and a key whose
/// bytes do not decode to a curve point verifies nothing.
#[verifier::external_body]
pub(crate) fn ed25519_verify(key: &[u8], message: &[u8], signature: &[u8]) -> (r: bool)
    requires
        key@.len() == 32,
        signature@.len() == 64,
    ensures
        r == ed25519_valid(key@, message@, signature@),
{
    let key: &[u8; 32] = key.try_into().unwrap();
    let signature: &[u8; 64] = signature.try_into().unwrap();
    match ed25519_dalek::VerifyingKey::from_bytes(key) {
        Ok(vk) => vk.verify_strict(message, &ed25519_dalek::Signature::from_bytes(signature)).is_ok(),
        Err(_) => false,
    }
}

} // verus!
