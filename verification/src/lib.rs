//! Wallet key-management and address-scheme core for a CryptoNote-style
//! currency: deterministic spend/view keypair derivation, Base58-with-checksum
//! address encoding and validation, message signing and verification,
//! key-image derivation, and mnemonic seed-phrase encoding of the spend key.
//!
//! Every operation is a stateless pure function over caller-supplied byte
//! buffers. The cryptographic primitives themselves (SHA-2, Ed25519, Base58,
//! the mnemonic wordlist scheme) are supplied by outside crates behind small
//! trusted wrappers; everything built on top of them is verified.

use vstd::prelude::*;

pub mod address;
pub mod hashing;
pub mod keys;
pub mod mnemonic;
pub mod signing;

verus! {

/// Failure modes of the core. Capacity failures are reported distinctly from
/// validation failures so that a caller can resize its buffer and retry.
#[derive(Clone, Copy, Debug, PartialEq, Eq, Structural)]
pub enum CryptoError {
    /// The encoded output does not fit in the caller-declared capacity.
    BufferTooSmall,
    /// A word sequence failed mnemonic validation (unknown word, wrong word
    /// count, or checksum mismatch).
    InvalidMnemonic,
}

/// Relies on str::len: the length of a string in bytes, which is the length
/// of the UTF-8 encoding of its characters (and fits in usize, since the
/// string sits in memory).
#[verifier::external_body]
pub(crate) fn str_byte_len(s: &str) -> (n: usize)
    ensures
        n == vstd::utf8::encode_utf8(s@).len(),
{
    s.len()
}

} // verus!
