//! The hashing layer: the single 512-bit digest the core uses for key
//! derivation, address checksums, key images, and the general-purpose hash
//! entry point.

use sha2::Digest;
use vstd::prelude::*;

verus! {

/// The SHA-512 digest of a byte sequence. The digest is a function of the
/// input bytes alone; its value is not written out here, only named.
pub uninterp spec fn sha512_of(data: Seq<u8>) -> Seq<u8>;

/// Relies on sha2::Sha512 (through Digest::digest): the digest depends on the
/// input bytes alone and is 64 bytes long.
#[verifier::external_body]
pub(crate) fn sha512_digest(data: &[u8]) -> (r: Vec<u8>)
    ensures
        r@ == sha512_of(data@),
        r@.len() == 64,
{
    sha2::Sha512::digest(data).to_vec()
}

/// The core's hashing primitive: the 64-byte SHA-512 digest of arbitrary
/// bytes. The same input always yields the same digest.
pub fn fuego_hash(data: &[u8]) -> (r: Vec<u8>)
    ensures
        r@ == sha512_of(data@),
        r@.len() == 64,
{
    sha512_digest(data)
}

} // verus!
