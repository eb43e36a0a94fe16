use fuego_crypto::mnemonic::{fuego_key_to_mnemonic, fuego_mnemonic_to_key, fuego_validate_mnemonic};
use fuego_crypto::CryptoError;

#[test]
fn mnemonic_round_trip_recovers_the_key() {
    let key = [0x5Au8; 32];
    let mnemonic = fuego_key_to_mnemonic(&key, 1024).unwrap();
    assert!(fuego_validate_mnemonic(&mnemonic));
    let recovered = fuego_mnemonic_to_key(&mnemonic).unwrap();
    assert_eq!(recovered.as_slice(), key.as_slice());
}

#[test]
fn mnemonic_of_the_zero_key_matches_the_standard_vector() {
    let mnemonic = fuego_key_to_mnemonic(&[0u8; 32], 1024).unwrap();
    let abandon = vec!["abandon"; 23].join(" ");
    assert_eq!(mnemonic, format!("{} art", abandon));
}

#[test]
fn mnemonic_encoding_is_deterministic() {
    let key = [0x99u8; 32];
    let first = fuego_key_to_mnemonic(&key, 1024).unwrap();
    let second = fuego_key_to_mnemonic(&key, 1024).unwrap();
    assert_eq!(first, second);
    assert_eq!(first.split_whitespace().count(), 24);
}

#[test]
fn mnemonic_with_an_unknown_word_is_rejected() {
    let key = [0x31u8; 32];
    let mnemonic = fuego_key_to_mnemonic(&key, 1024).unwrap();
    let mut words: Vec<&str> = mnemonic.split_whitespace().collect();
    words[3] = "fuegozz";
    let tampered = words.join(" ");
    assert!(!fuego_validate_mnemonic(&tampered));
    assert_eq!(fuego_mnemonic_to_key(&tampered).unwrap_err(), CryptoError::InvalidMnemonic);
}

#[test]
fn mnemonic_with_an_altered_checksum_word_is_rejected() {
    let key = [0x31u8; 32];
    let mnemonic = fuego_key_to_mnemonic(&key, 1024).unwrap();
    let mut words: Vec<&str> = mnemonic.split_whitespace().collect();
    let last = words.len() - 1;
    // A dictionary word, but (almost surely) the wrong checksum word; if the
    // original already ends in it, swap in another dictionary word.
    words[last] = if words[last] == "zoo" { "zebra" } else { "zoo" };
    let tampered = words.join(" ");
    assert!(!fuego_validate_mnemonic(&tampered));
    assert!(fuego_mnemonic_to_key(&tampered).is_err());
}

#[test]
fn mnemonic_with_wrong_word_count_is_rejected() {
    let key = [0x31u8; 32];
    let mnemonic = fuego_key_to_mnemonic(&key, 1024).unwrap();
    let words: Vec<&str> = mnemonic.split_whitespace().collect();
    let truncated = words[..23].join(" ");
    assert!(!fuego_validate_mnemonic(&truncated));
    // A shorter phrase that is valid for the wordlist standard still encodes
    // fewer than 32 bytes, so this core rejects it.
    let twelve = format!("{} about", vec!["abandon"; 11].join(" "));
    assert!(!fuego_validate_mnemonic(&twelve));
    assert_eq!(fuego_mnemonic_to_key(&twelve).unwrap_err(), CryptoError::InvalidMnemonic);
}

#[test]
fn mnemonic_encoding_reports_a_too_small_buffer() {
    let result = fuego_key_to_mnemonic(&[0x5Au8; 32], 8);
    assert_eq!(result.unwrap_err(), CryptoError::BufferTooSmall);
}

#[test]
fn garbage_text_is_no_mnemonic() {
    assert!(!fuego_validate_mnemonic(""));
    assert!(!fuego_validate_mnemonic("not a mnemonic at all"));
    assert!(fuego_mnemonic_to_key("").is_err());
}
