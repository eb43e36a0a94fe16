//! The mnemonic codec: a 32-byte spend private key rendered as an ordered
//! sequence of dictionary words, and the fail-closed reverse mapping. A word
//! outside the dictionary, a wrong word count, or a checksum mismatch makes a
//! word sequence invalid.

use crate::CryptoError;
use vstd::prelude::*;
use vstd::utf8::encode_utf8;
use vstd::utf8::is_ascii_chars;

verus! {

/// The word sequence that encodes a given entropy, as one string with single
/// spaces between words. A function of the entropy alone, named rather than
/// written out.
pub uninterp spec fn mnemonic_of(entropy: Seq<u8>) -> Seq<char>;

/// What mnemonic parsing makes of a string: the entropy its words encode, or
/// nothing when a word is outside the dictionary, the word count is invalid,
/// or the embedded checksum does not match.
pub uninterp spec fn entropy_of(words: Seq<char>) -> Option<Seq<u8>>;

/// Relies on bip39::Mnemonic::from_entropy_in (English wordlist) and its
/// Display rendering: 32 bytes are a valid entropy length, the word sequence
/// is a function of the entropy alone, and parsing the rendering back
/// recovers exactly the entropy it encodes. The rendering is ASCII — 24
/// lowercase words of at most 8 letters, separated by single spaces — so it
/// is at most 24 * 8 + 23 = 215 characters.
#[verifier::external_body]
pub(crate) fn bip39_encode(entropy: &[u8]) -> (r: String)
    requires
        entropy@.len() == 32,
    ensures
        r@ == mnemonic_of(entropy@),
        entropy_of(r@) == Some(entropy@),
        is_ascii_chars(r@),
        r@.len() <= 215,
{
    match bip39::Mnemonic::from_entropy_in(bip39::Language::English, entropy) {
        Ok(m) => m.to_string(),
        Err(_) => String::new(),
    }
}

/// Relies on bip39::Mnemonic::parse_in_normalized (English wordlist) and
/// Mnemonic::to_entropy: the outcome is a function of the text alone, and
/// parsing fails closed on an unknown word, a bad word count, or a checksum
/// mismatch.
#[verifier::external_body]
pub(crate) fn bip39_decode(text: &str) -> (r: Option<Vec<u8>>)
    ensures
        match r {
            Some(v) => entropy_of(text@) == Some(v@),
            None => entropy_of(text@) is None,
        },
{
    match bip39::Mnemonic::parse_in_normalized(bip39::Language::English, text) {
        Ok(m) => Some(m.to_entropy()),
        Err(_) => None,
    }
}

/// Encodes a 32-byte private key as its mnemonic word sequence. Fails only
/// when the rendering does not fit in `max_len` bytes; the rendering always
/// decodes back to exactly the given key.
pub fn fuego_key_to_mnemonic(private: &[u8], max_len: usize) -> (r: Result<String, CryptoError>)
    requires
        private@.len() == 32,
    ensures
        r matches Ok(m) ==> m@ == mnemonic_of(private@),
        r matches Ok(m) ==> entropy_of(m@) == Some(private@),
        r is Ok <==> encode_utf8(mnemonic_of(private@)).len() <= max_len,
        encode_utf8(mnemonic_of(private@)).len() <= 215,
        r matches Err(e) ==> e == CryptoError::BufferTooSmall,
{
    let rendered = bip39_encode(private);
    proof {
        vstd::utf8::is_ascii_chars_encode_utf8(rendered@);
    }
    if crate::str_byte_len(rendered.as_str()) > max_len {
        return Err(CryptoError::BufferTooSmall);
    }
    Ok(rendered)
}

/// Recovers the 32-byte private key a mnemonic encodes. Fails with
/// `InvalidMnemonic` exactly when the words do not parse or encode fewer than
/// 32 bytes of entropy.
pub fn fuego_mnemonic_to_key(mnemonic: &str) -> (r: Result<Vec<u8>, CryptoError>)
    ensures
        r is Ok <==> (entropy_of(mnemonic@) matches Some(e) && e.len() >= 32),
        r matches Ok(k) ==> (entropy_of(mnemonic@) matches Some(e) && k@ == e.take(32)),
        r matches Err(e) ==> e == CryptoError::InvalidMnemonic,
{
    let mut entropy = match bip39_decode(mnemonic) {
        Some(entropy) => entropy,
        None => {
            return Err(CryptoError::InvalidMnemonic);
        },
    };
    if entropy.len() < 32 {
        return Err(CryptoError::InvalidMnemonic);
    }
    entropy.truncate(32);
    Ok(entropy)
}

/// Validates a mnemonic without recovering the key: the same checks as
/// `fuego_mnemonic_to_key`, for input-field validation.
pub fn fuego_validate_mnemonic(mnemonic: &str) -> (r: bool)
    ensures
        r == (entropy_of(mnemonic@) matches Some(e) && e.len() >= 32),
{
    match bip39_decode(mnemonic) {
        Some(entropy) => entropy.len() >= 32,
        None => false,
    }
}

/// Law: the mnemonic round trip recovers the key. A mnemonic that meets the
/// contract of `fuego_key_to_mnemonic` for a 32-byte key makes
/// `fuego_mnemonic_to_key` succeed, and what that contract then says is
/// returned is the original key.
pub proof fn lemma_mnemonic_round_trip(key: Seq<u8>, mnemonic: Seq<char>, recovered: Seq<u8>)
    requires
        key.len() == 32,
        entropy_of(mnemonic) == Some(key),
        entropy_of(mnemonic) matches Some(e) && recovered == e.take(32),
    ensures
        recovered == key,
{
    assert(key.take(32) =~= key);
}

} // verus!
