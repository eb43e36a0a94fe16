use fuego_crypto::keys::{fuego_generate_keys, fuego_private_to_public};
use fuego_crypto::signing::{fuego_sign, fuego_verify_signature};

/// The first standard Ed25519 test vector: secret key, its public key, and
/// the signature of the empty message.
const VECTOR_SECRET: [u8; 32] = [
    0x9d, 0x61, 0xb1, 0x9d, 0xef, 0xfd, 0x5a, 0x60, 0xba, 0x84, 0x4a, 0xf4, 0x92, 0xec, 0x2c,
    0xc4, 0x44, 0x49, 0xc5, 0x69, 0x7b, 0x32, 0x69, 0x19, 0x70, 0x3b, 0xac, 0x03, 0x1c, 0xae,
    0x7f, 0x60,
];
const VECTOR_PUBLIC: [u8; 32] = [
    0xd7, 0x5a, 0x98, 0x01, 0x82, 0xb1, 0x0a, 0xb7, 0xd5, 0x4b, 0xfe, 0xd3, 0xc9, 0x64, 0x07,
    0x3a, 0x0e, 0xe1, 0x72, 0xf3, 0xda, 0xa6, 0x23, 0x25, 0xaf, 0x02, 0x1a, 0x68, 0xf7, 0x07,
    0x51, 0x1a,
];
const VECTOR_SIGNATURE: [u8; 64] = [
    0xe5, 0x56, 0x43, 0x00, 0xc3, 0x60, 0xac, 0x72, 0x90, 0x86, 0xe2, 0xcc, 0x80, 0x6e, 0x82,
    0x8a, 0x84, 0x87, 0x7f, 0x1e, 0xb8, 0xe5, 0xd9, 0x74, 0xd8, 0x73, 0xe0, 0x65, 0x22, 0x49,
    0x01, 0x55, 0x5f, 0xb8, 0x82, 0x15, 0x90, 0xa3, 0x3b, 0xac, 0xc6, 0x1e, 0x39, 0x70, 0x1c,
    0xf9, 0xb4, 0x6b, 0xd2, 0x5b, 0xf5, 0xf0, 0x59, 0x5b, 0xbe, 0x24, 0x65, 0x51, 0x41, 0x43,
    0x8e, 0x7a, 0x10, 0x0b,
];

#[test]
fn key_derivation_matches_the_standard_vector() {
    assert_eq!(fuego_private_to_public(&VECTOR_SECRET).as_slice(), VECTOR_PUBLIC.as_slice());
}

#[test]
fn signing_matches_the_standard_vector() {
    let signature = fuego_sign(&VECTOR_SECRET, b"");
    assert_eq!(signature.as_slice(), VECTOR_SIGNATURE.as_slice());
    assert!(fuego_verify_signature(&VECTOR_PUBLIC, b"", &signature));
}

#[test]
fn signature_round_trip() {
    let keys = fuego_generate_keys();
    let message = b"transfer 10 XFG to the vendor";
    let signature = fuego_sign(&keys.spend_private, message);
    assert_eq!(signature.len(), 64);
    assert!(fuego_verify_signature(&keys.spend_public, message, &signature));
}

#[test]
fn signing_is_deterministic() {
    let private = [0x07u8; 32];
    let message = b"same message";
    assert_eq!(fuego_sign(&private, message), fuego_sign(&private, message));
}

#[test]
fn verification_rejects_an_altered_message() {
    let keys = fuego_generate_keys();
    let signature = fuego_sign(&keys.spend_private, b"pay 1");
    assert!(!fuego_verify_signature(&keys.spend_public, b"pay 2", &signature));
}

#[test]
fn verification_rejects_a_foreign_signature() {
    let keys = fuego_generate_keys();
    let other = fuego_generate_keys();
    let message = b"shared message";
    let foreign = fuego_sign(&other.spend_private, message);
    assert!(!fuego_verify_signature(&keys.spend_public, message, &foreign));
}

#[test]
fn verification_rejects_malformed_input_without_crashing() {
    let keys = fuego_generate_keys();
    let message = b"msg";
    let signature = fuego_sign(&keys.spend_private, message);
    // Wrong lengths are ordinary failures.
    assert!(!fuego_verify_signature(&keys.spend_public[..31], message, &signature));
    assert!(!fuego_verify_signature(&keys.spend_public, message, &signature[..63]));
    assert!(!fuego_verify_signature(&[], message, &[]));
    // A public key that is no curve point is an ordinary failure too.
    let bad_public = [0xFFu8; 32];
    assert!(!fuego_verify_signature(&bad_public, message, &signature));
    // A corrupted signature fails.
    let mut corrupted = signature.clone();
    corrupted[10] ^= 0x01;
    assert!(!fuego_verify_signature(&keys.spend_public, message, &corrupted));
}
