//! Signing and verification of arbitrary byte messages under the spend key,
//! with Ed25519. Malformed public keys or signatures are ordinary
//! verification failures, never a crash.

use crate::keys::public_of;
use ed25519_dalek::Signer;
use ed25519_dalek::Verifier;
use vstd::prelude::*;
use zeroize::Zeroize;

verus! {

/// The Ed25519 signature of a message under 32 private-key bytes. Signing is
/// deterministic, so this is a function of the key and the message alone; its
/// value is named rather than written out.
pub uninterp spec fn sig_of(private: Seq<u8>, message: Seq<u8>) -> Seq<u8>;

/// Whether Ed25519 verification accepts the (public key, message, signature)
/// triple. A function of the three byte strings alone; a public key that is
/// not a valid curve point or a malformed signature encoding makes it false.
pub uninterp spec fn verifies(public: Seq<u8>, message: Seq<u8>, signature: Seq<u8>) -> bool;

/// Relies on ed25519_dalek::SigningKey (Signer::sign): signing is
/// deterministic per RFC 8032, the signature is 64 bytes, and — the scheme's
/// defining promise — it verifies against the signer's own public key and the
/// signed message.
#[verifier::external_body]
pub(crate) fn ed25519_sign(private: &[u8], message: &[u8]) -> (r: Vec<u8>)
    requires
        private@.len() == 32,
    ensures
        r@ == sig_of(private@, message@),
        r@.len() == 64,
        verifies(public_of(private@), message@, r@),
{
    let mut key = [0u8; 32];
    key.copy_from_slice(private);
    let signing = ed25519_dalek::SigningKey::from_bytes(&key);
    let signature = signing.sign(message).to_bytes().to_vec();
    key.zeroize();
    signature
}

/// Relies on ed25519_dalek::VerifyingKey::from_bytes and Verifier::verify:
/// the outcome is a deterministic function of the public key, message and
/// signature bytes, and a public key that is no valid curve point rejects
/// every signature.
#[verifier::external_body]
pub(crate) fn ed25519_verify(public: &[u8], message: &[u8], signature: &[u8]) -> (r: bool)
    requires
        public@.len() == 32,
        signature@.len() == 64,
    ensures
        r == verifies(public@, message@, signature@),
{
    let mut key = [0u8; 32];
    key.copy_from_slice(public);
    let verifying = match ed25519_dalek::VerifyingKey::from_bytes(&key) {
        Ok(k) => k,
        Err(_) => return false,
    };
    let mut sig = [0u8; 64];
    sig.copy_from_slice(signature);
    let signature = ed25519_dalek::Signature::from_bytes(&sig);
    verifying.verify(message, &signature).is_ok()
}

/// Signs a message under a 32-byte private key. The 64-byte signature is a
/// deterministic function of key and message, and verifies against the
/// corresponding public key and the same message.
pub fn fuego_sign(private: &[u8], message: &[u8]) -> (r: Vec<u8>)
    requires
        private@.len() == 32,
    ensures
        r@ == sig_of(private@, message@),
        r@.len() == 64,
        verifies(public_of(private@), message@, r@),
{
    ed25519_sign(private, message)
}

/// Verifies a signature. Returns true exactly when a well-shaped triple
/// passes Ed25519 verification; a public key that is not 32 bytes or a
/// signature that is not 64 bytes is an ordinary failure, never a crash.
pub fn fuego_verify_signature(public: &[u8], message: &[u8], signature: &[u8]) -> (r: bool)
    ensures
        r == (public@.len() == 32 && signature@.len() == 64 && verifies(
            public@,
            message@,
            signature@,
        )),
{
    if public.len() != 32 || signature.len() != 64 {
        return false;
    }
    ed25519_verify(public, message, signature)
}

} // verus!
