//! Key derivation: fresh spend keys from the operating system's random
//! source, the deterministic view key derived from the spend key, the
//! Ed25519 private-to-public mapping, key images, and secure erasure.

use crate::hashing::{sha512_digest, sha512_of};
use ed25519_dalek::SigningKey;
use rand::RngCore;
use vstd::prelude::*;
use zeroize::Zeroize;

verus! {

/// The Ed25519 public key derived from 32 private-key bytes. A pure one-way
/// function of the private bytes alone, named rather than written out.
pub uninterp spec fn public_of(private: Seq<u8>) -> Seq<u8>;

/// The domain tag appended to the spend key before hashing, so that the view
/// key cannot collide with any other derivation: the bytes of `view_key`.
pub open spec fn view_tag() -> Seq<u8> {
    seq![0x76u8, 0x69u8, 0x65u8, 0x77u8, 0x5fu8, 0x6bu8, 0x65u8, 0x79u8]
}

/// The view private key: the first 32 bytes of the 512-bit hash of the spend
/// private key followed by the domain tag.
pub open spec fn view_private_of(spend_private: Seq<u8>) -> Seq<u8> {
    sha512_of(spend_private + view_tag()).take(32)
}

/// The key image of a (public, private) key pair: the first 32 bytes of the
/// 512-bit hash of the concatenated pair.
pub open spec fn key_image_of(public: Seq<u8>, private: Seq<u8>) -> Seq<u8> {
    sha512_of(public + private).take(32)
}

/// Relies on ed25519_dalek::SigningKey::from_bytes and
/// SigningKey::verifying_key: every 32-byte string is accepted as a secret
/// key, and the verifying key is computed from those bytes alone as a
/// 32-byte compressed curve point.
#[verifier::external_body]
pub(crate) fn ed25519_public_key(private: &[u8]) -> (r: Vec<u8>)
    requires
        private@.len() == 32,
    ensures
        r@ == public_of(private@),
        r@.len() == 32,
{
    let mut key = [0u8; 32];
    key.copy_from_slice(private);
    let signing = SigningKey::from_bytes(&key);
    let public = signing.verifying_key().to_bytes().to_vec();
    key.zeroize();
    public
}

/// Relies on rand's OsRng (RngCore::fill_bytes): it fills the buffer from the
/// operating system's random source and aborts on failure, so nothing beyond
/// the length can be promised of the result.
#[verifier::external_body]
fn os_random_bytes(count: usize) -> (r: Vec<u8>)
    ensures
        r@.len() == count,
{
    let mut buf = vec![0u8; count];
    rand::rngs::OsRng.fill_bytes(&mut buf);
    buf
}

/// Relies on zeroize::Zeroize for byte slices: every element is set to zero
/// in place and the length is unchanged, through a write the compiler may
/// not elide.
#[verifier::external_body]
fn zeroize_bytes(buf: &mut Vec<u8>)
    ensures
        final(buf)@.len() == old(buf)@.len(),
        forall|i: int| 0 <= i < final(buf)@.len() ==> final(buf)@[i] == 0,
{
    buf.as_mut_slice().zeroize();
}

/// Securely erases secret material the caller no longer needs: afterwards the
/// buffer has its old length and holds only zero bytes.
pub fn wipe_key(buf: &mut Vec<u8>)
    ensures
        final(buf)@.len() == old(buf)@.len(),
        forall|i: int| 0 <= i < final(buf)@.len() ==> final(buf)@[i] == 0,
{
    zeroize_bytes(buf);
}

/// Draws `count` bytes from the operating system's random source.
pub fn fuego_random_bytes(count: usize) -> (r: Vec<u8>)
    ensures
        r@.len() == count,
{
    os_random_bytes(count)
}

/// The public key of a 32-byte private key: a pure, deterministic, one-way
/// mapping, so repeated calls on the same key yield identical output.
pub fn fuego_private_to_public(private: &[u8]) -> (r: Vec<u8>)
    requires
        private@.len() == 32,
    ensures
        r@ == public_of(private@),
        r@.len() == 32,
{
    ed25519_public_key(private)
}

/// Derives the view private key from the spend private key. The result is a
/// function of the spend key alone, so it is identical on every call; a view
/// key must never be accepted from any other source.
pub fn derive_view_private(spend_private: &[u8]) -> (r: Vec<u8>)
    requires
        spend_private@.len() == 32,
    ensures
        r@ == view_private_of(spend_private@),
        r@.len() == 32,
{
    let mut input: Vec<u8> = Vec::new();
    input.extend_from_slice(spend_private);
    input.push(0x76);
    input.push(0x69);
    input.push(0x65);
    input.push(0x77);
    input.push(0x5f);
    input.push(0x6b);
    input.push(0x65);
    input.push(0x79);
    assert(input@ =~= spend_private@ + view_tag());
    let mut digest = sha512_digest(&input);
    wipe_key(&mut input);
    digest.truncate(32);
    assert(digest@ =~= view_private_of(spend_private@));
    digest
}

/// The key image of a (public, private) pair: a deterministic one-way value
/// the ring-signature layer uses to detect reuse of a spendable output.
/// Identical inputs always yield the identical image.
pub fn fuego_generate_key_image(public: &[u8], private: &[u8]) -> (r: Vec<u8>)
    requires
        public@.len() == 32,
        private@.len() == 32,
    ensures
        r@ == key_image_of(public@, private@),
        r@.len() == 32,
{
    let mut input: Vec<u8> = Vec::new();
    input.extend_from_slice(public);
    input.extend_from_slice(private);
    assert(input@ =~= public@ + private@);
    let mut digest = sha512_digest(&input);
    wipe_key(&mut input);
    digest.truncate(32);
    assert(digest@ =~= key_image_of(public@, private@));
    digest
}

/// True exactly when every byte of the key is zero: the degenerate key that
/// key generation refuses to hand out without one retry.
pub fn is_zero_key(key: &[u8]) -> (r: bool)
    ensures
        r == (forall|i: int| 0 <= i < key@.len() ==> key@[i] == 0),
{
    let mut i: usize = 0;
    while i < key.len()
        invariant
            0 <= i <= key@.len(),
            forall|j: int| 0 <= j < i ==> key@[j] == 0,
        decreases key@.len() - i,
    {
        if key[i] != 0 {
            return false;
        }
        i = i + 1;
    }
    true
}

/// A freshly generated wallet: the spend pair and the view pair derived from
/// it. All four keys are 32 bytes.
pub struct WalletKeys {
    pub spend_private: Vec<u8>,
    pub view_private: Vec<u8>,
    pub spend_public: Vec<u8>,
    pub view_public: Vec<u8>,
}

impl WalletKeys {
    /// The invariant every generated wallet satisfies: all keys are 32 bytes,
    /// the view private key is derived from the spend private key, and each
    /// public key is the public counterpart of its private key.
    pub open spec fn wf(&self) -> bool {
        &&& self.spend_private@.len() == 32
        &&& self.view_private@ == view_private_of(self.spend_private@)
        &&& self.view_private@.len() == 32
        &&& self.spend_public@ == public_of(self.spend_private@)
        &&& self.spend_public@.len() == 32
        &&& self.view_public@ == public_of(self.view_private@)
        &&& self.view_public@.len() == 32
    }
}

/// Generates a wallet: 32 random bytes for the spend private key (drawn once
/// more if the random source hands back the degenerate all-zero key), the
/// view private key derived from it, and both public keys.
pub fn fuego_generate_keys() -> (r: WalletKeys)
    ensures
        r.wf(),
{
    let mut spend_private = os_random_bytes(32);
    if is_zero_key(&spend_private) {
        spend_private = os_random_bytes(32);
    }
    let view_private = derive_view_private(&spend_private);
    let spend_public = ed25519_public_key(&spend_private);
    let view_public = ed25519_public_key(&view_private);
    WalletKeys { spend_private, view_private, spend_public, view_public }
}

/// Law: the private-to-public mapping is deterministic. Any two results that
/// meet the contract of `fuego_private_to_public` for the same private key
/// are equal.
pub proof fn lemma_public_key_deterministic(private: Seq<u8>, r1: Seq<u8>, r2: Seq<u8>)
    requires
        r1 == public_of(private),
        r2 == public_of(private),
    ensures
        r1 == r2,
{
}

/// Law: view-key derivation is deterministic. Any two results that meet the
/// contract of `derive_view_private` for the same spend key are equal.
pub proof fn lemma_view_key_deterministic(spend_private: Seq<u8>, r1: Seq<u8>, r2: Seq<u8>)
    requires
        r1 == view_private_of(spend_private),
        r2 == view_private_of(spend_private),
    ensures
        r1 == r2,
{
}

/// Law: key images are deterministic. Any two results that meet the contract
/// of `fuego_generate_key_image` for the same key pair are equal.
pub proof fn lemma_key_image_deterministic(
    public: Seq<u8>,
    private: Seq<u8>,
    r1: Seq<u8>,
    r2: Seq<u8>,
)
    requires
        r1 == key_image_of(public, private),
        r2 == key_image_of(public, private),
    ensures
        r1 == r2,
{
}

} // verus!
