use fuego_crypto::hashing::fuego_hash;

#[test]
fn test_hash() {
    let data = b"Hello, Fuego!";
    let hash = fuego_hash(data);
    assert_eq!(hash.len(), 64);
}

#[test]
fn hash_of_known_text_is_fixed() {
    let hash = fuego_hash(b"Hello, Fuego!");
    let expected: [u8; 64] = [
        0x3a, 0x7d, 0xa7, 0xa8, 0xf0, 0xbe, 0x93, 0x70, 0xff, 0xf1, 0x9b, 0x18, 0x0e, 0xbb, 0xd2,
        0x35, 0xad, 0xeb, 0x0e, 0x8f, 0xd4, 0xff, 0x3f, 0xdc, 0x3f, 0x44, 0xe4, 0x4c, 0x2e, 0xa1,
        0x2f, 0x4e, 0xaa, 0xa6, 0x01, 0xd5, 0xd4, 0xff, 0x56, 0xea, 0x71, 0xe6, 0x4a, 0x61, 0x8a,
        0xbf, 0x0c, 0xa8, 0x32, 0xc5, 0x4a, 0xbf, 0x1c, 0x3a, 0x94, 0x01, 0x09, 0x78, 0xfa, 0x79,
        0xb1, 0xef, 0x4f, 0x18,
    ];
    assert_eq!(hash.as_slice(), expected.as_slice());
}

#[test]
fn hash_is_deterministic_and_input_sensitive() {
    let first = fuego_hash(b"message");
    let second = fuego_hash(b"message");
    let other = fuego_hash(b"messagf");
    assert_eq!(first, second);
    assert_ne!(first, other);
    assert_eq!(fuego_hash(b"").len(), 64);
}
