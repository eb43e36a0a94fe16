//! The address codec. An address is a plaintext prefix string followed by the
//! Base58 encoding of 69 raw bytes: one network byte, the 32-byte spend
//! public key, the 32-byte view public key, and a 4-byte checksum over the
//! first 65 bytes. Validation recomputes the checksum and fails closed on any
//! mismatch.

use crate::hashing::{sha512_digest, sha512_of};
use crate::CryptoError;
use vstd::prelude::*;
use vstd::slice::{slice_subrange, slice_to_vec};
use vstd::string::StringExecFns;
use vstd::utf8::encode_utf8;
use vstd::utf8::is_ascii_chars;
use vstd::utf8::is_ascii_chars_encode_utf8;

verus! {

/// The network/version discriminator embedded as the first payload byte of a
/// mainnet address.
pub const FUEGO_NETWORK_BYTE: u8 = 0x1E;

/// The Base58 rendering (bitcoin alphabet) of a byte string, as ASCII bytes.
/// A function of the input alone; its value is named rather than written out.
pub uninterp spec fn b58_of(data: Seq<u8>) -> Seq<u8>;

/// What Base58 decoding makes of a byte string of text: the decoded bytes, or
/// nothing when some byte is outside the alphabet.
pub uninterp spec fn b58_decode_of(text: Seq<u8>) -> Option<Seq<u8>>;

/// Relies on bs58::encode with the default bitcoin alphabet: the rendering is
/// a function of the input bytes alone, every output byte is an ASCII
/// character of that alphabet ('1', 0x31, through 'z', 0x7a), bs58::decode
/// maps the rendering back to the input, and the rendering grows by at most
/// the usual Base58 expansion factor (one character per input byte of value
/// zero, log(256)/log(58) < 1.37 otherwise; bs58 itself reserves
/// `len + (len + 1) / 2` bytes).
#[verifier::external_body]
pub(crate) fn b58_encode(data: &[u8]) -> (r: Vec<u8>)
    ensures
        r@ == b58_of(data@),
        r@.len() <= data@.len() * 137 / 100 + 1,
        forall|i: int| 0 <= i < r@.len() ==> 0x31 <= #[trigger] r@[i] <= 0x7a,
        b58_decode_of(r@) == Some(data@),
{
    bs58::encode(data).into_string().into_bytes()
}

/// Relies on bs58::decode with the default bitcoin alphabet: the outcome is a
/// function of the input bytes alone; text holding a byte outside the
/// alphabet fails.
#[verifier::external_body]
pub(crate) fn b58_decode(text: &[u8]) -> (r: Option<Vec<u8>>)
    ensures
        match r {
            Some(v) => b58_decode_of(text@) == Some(v@),
            None => b58_decode_of(text@) is None,
        },
{
    bs58::decode(text).into_vec().ok()
}

/// Relies on String::from_utf8: ASCII bytes are valid UTF-8, and come back as
/// the string whose characters are exactly those bytes.
#[verifier::external_body]
fn string_from_ascii(bytes: Vec<u8>) -> (r: String)
    requires
        forall|i: int| 0 <= i < bytes@.len() ==> bytes@[i] < 0x80,
    ensures
        r@ == bytes@.map_values(|b: u8| b as char),
{
    match String::from_utf8(bytes) {
        Ok(s) => s,
        Err(_) => String::new(),
    }
}

/// ASCII bytes read as characters.
pub open spec fn bytes_to_chars(data: Seq<u8>) -> Seq<char> {
    data.map_values(|b: u8| b as char)
}

/// ASCII characters read as bytes.
pub open spec fn chars_to_bytes(text: Seq<char>) -> Seq<u8> {
    text.map_values(|c: char| c as u8)
}

/// The textual prefix a mainnet address carries in front of the Base58
/// payload: the characters of `FUEGO`.
pub open spec fn fuego_prefix_chars() -> Seq<char> {
    seq!['F', 'U', 'E', 'G', 'O']
}

/// The 69 raw bytes of an address before encoding: the network byte, the
/// spend public key, the view public key, and the first 4 bytes of the
/// 512-bit hash of those leading 65 bytes.
pub open spec fn address_payload(spend_public: Seq<u8>, view_public: Seq<u8>) -> Seq<u8> {
    let body = seq![FUEGO_NETWORK_BYTE] + spend_public + view_public;
    body + sha512_of(body).take(4)
}

/// The full printed address for a prefix string and a key pair.
pub open spec fn spec_encoded_address(
    prefix: Seq<char>,
    spend_public: Seq<u8>,
    view_public: Seq<u8>,
) -> Seq<char> {
    prefix + bytes_to_chars(b58_of(address_payload(spend_public, view_public)))
}

/// What it means for a printed address to validate: it is ASCII (the Base58
/// alphabet has no other characters), starts with the `FUEGO` prefix, the
/// remainder Base58-decodes to exactly the 69 wire-format bytes, and the
/// trailing 4 bytes equal the recomputed checksum of the leading 65.
pub open spec fn spec_valid_address(addr: Seq<char>) -> bool {
    &&& is_ascii_chars(addr)
    &&& addr.len() >= 5
    &&& addr.take(5) == fuego_prefix_chars()
    &&& match b58_decode_of(chars_to_bytes(addr.skip(5))) {
        Some(raw) => raw.len() == 69 && raw.skip(65) == sha512_of(raw.take(65)).take(4),
        None => false,
    }
}

/// Builds the 69 raw address bytes for a key pair, checksum included.
fn build_address_payload(spend_public: &[u8], view_public: &[u8]) -> (r: Vec<u8>)
    requires
        spend_public@.len() == 32,
        view_public@.len() == 32,
    ensures
        r@ == address_payload(spend_public@, view_public@),
        r@.len() == 69,
{
    let mut payload: Vec<u8> = Vec::new();
    payload.push(FUEGO_NETWORK_BYTE);
    payload.extend_from_slice(spend_public);
    payload.extend_from_slice(view_public);
    assert(payload@ =~= seq![FUEGO_NETWORK_BYTE] + spend_public@ + view_public@);
    let checksum = sha512_digest(&payload);
    payload.push(checksum[0]);
    payload.push(checksum[1]);
    payload.push(checksum[2]);
    payload.push(checksum[3]);
    assert(payload@ =~= address_payload(spend_public@, view_public@));
    payload
}

/// Encodes a wallet address: the prefix string verbatim, then the Base58
/// rendering of the checksummed payload. Fails only when the result does not
/// fit in `max_len` bytes; with the mainnet prefix the result validates,
/// decodes back to the encoded payload, and is at most 100 bytes.
pub fn fuego_generate_address(
    spend_public: &[u8],
    view_public: &[u8],
    prefix: &str,
    max_len: usize,
) -> (r: Result<String, CryptoError>)
    requires
        spend_public@.len() == 32,
        view_public@.len() == 32,
    ensures
        r matches Ok(a) ==> a@ == spec_encoded_address(prefix@, spend_public@, view_public@),
        r is Ok <==> encode_utf8(spec_encoded_address(prefix@, spend_public@, view_public@)).len()
            <= max_len,
        r matches Err(e) ==> e == CryptoError::BufferTooSmall,
        r matches Ok(a) ==> b58_decode_of(chars_to_bytes(a@.skip(prefix@.len() as int)))
            == Some(address_payload(spend_public@, view_public@)),
        prefix@ == fuego_prefix_chars() ==> spec_valid_address(
            spec_encoded_address(prefix@, spend_public@, view_public@),
        ) && encode_utf8(spec_encoded_address(prefix@, spend_public@, view_public@)).len() <= 100,
{
    let payload = build_address_payload(spend_public, view_public);
    let encoded = b58_encode(&payload);
    let ghost payload_view = payload@;
    let ghost encoded_view = encoded@;
    let encoded_string = string_from_ascii(encoded);
    let full = prefix.to_owned().concat(encoded_string.as_str());
    assert(full@ == spec_encoded_address(prefix@, spend_public@, view_public@));
    proof {
        assert(full@.skip(prefix@.len() as int) =~= bytes_to_chars(encoded_view));
        assert(chars_to_bytes(bytes_to_chars(encoded_view)) =~= encoded_view) by {
            assert forall|i: int|
                0 <= i < encoded_view.len() implies chars_to_bytes(
                bytes_to_chars(encoded_view),
            )[i] == encoded_view[i] by {
                assert(0x31 <= encoded_view[i] <= 0x7a);
            }
        }
        if prefix@ == fuego_prefix_chars() {
            let body = seq![FUEGO_NETWORK_BYTE] + spend_public@ + view_public@;
            assert(payload_view.take(65) =~= body);
            assert(payload_view.skip(65) =~= sha512_of(body).take(4));
            lemma_encoded_address_validates(prefix@, payload_view, encoded_view, full@);
            is_ascii_chars_encode_utf8(full@);
            assert(full@.len() <= 100);
        }
    }
    if crate::str_byte_len(full.as_str()) > max_len {
        return Err(CryptoError::BufferTooSmall);
    }
    Ok(full)
}

/// Strips and checks the `FUEGO` prefix, Base58-decodes the remainder, and
/// checks the trailing 4 bytes against the recomputed checksum. Hands back
/// the decoded raw bytes exactly when the address validates.
fn decode_address_raw(address: &str) -> (r: Option<Vec<u8>>)
    ensures
        r is Some <==> spec_valid_address(address@),
        r matches Some(v) ==> b58_decode_of(chars_to_bytes(address@.skip(5))) == Some(v@),
{
    if !address.is_ascii() {
        return None;
    }
    proof {
        is_ascii_chars_encode_utf8(address@);
    }
    let bytes = address.as_bytes();
    if bytes.len() < 5 {
        return None;
    }
    let prefix_ok = bytes[0] == 0x46 && bytes[1] == 0x55 && bytes[2] == 0x45 && bytes[3] == 0x47
        && bytes[4] == 0x4f;
    proof {
        assert(address@[0] as u8 == bytes@[0]);
        assert(address@[1] as u8 == bytes@[1]);
        assert(address@[2] as u8 == bytes@[2]);
        assert(address@[3] as u8 == bytes@[3]);
        assert(address@[4] as u8 == bytes@[4]);
        if prefix_ok {
            assert(address@.take(5) =~= fuego_prefix_chars()) by {
                assert(address@[0] <= '\u{7f}' && address@[0] as u8 == 0x46);
                assert(address@[1] <= '\u{7f}' && address@[1] as u8 == 0x55);
                assert(address@[2] <= '\u{7f}' && address@[2] as u8 == 0x45);
                assert(address@[3] <= '\u{7f}' && address@[3] as u8 == 0x47);
                assert(address@[4] <= '\u{7f}' && address@[4] as u8 == 0x4f);
            }
        } else {
            assert(address@.take(5) != fuego_prefix_chars()) by {
                if address@.take(5) == fuego_prefix_chars() {
                    assert(address@.take(5)[0] == 'F' && address@.take(5)[1] == 'U'
                        && address@.take(5)[2] == 'E' && address@.take(5)[3] == 'G'
                        && address@.take(5)[4] == 'O');
                }
            }
        }
    }
    if !prefix_ok {
        return None;
    }
    let rest = slice_subrange(bytes, 5, bytes.len());
    proof {
        assert(rest@ =~= chars_to_bytes(address@.skip(5))) by {
            assert forall|i: int| 0 <= i < rest@.len() implies rest@[i] == chars_to_bytes(
                address@.skip(5),
            )[i] by {
                assert(rest@[i] == bytes@[i + 5]);
                assert(address@[i + 5] as u8 == bytes@[i + 5]);
            }
        }
    }
    let raw = match b58_decode(rest) {
        Some(raw) => raw,
        None => {
            return None;
        },
    };
    if raw.len() != 69 {
        return None;
    }
    let leading = slice_subrange(raw.as_slice(), 0, 65);
    let digest = sha512_digest(leading);
    proof {
        assert(leading@ =~= raw@.take(65));
    }
    let checksum_ok = raw[65] == digest[0] && raw[66] == digest[1] && raw[67] == digest[2]
        && raw[68] == digest[3];
    proof {
        let expected = sha512_of(raw@.take(65)).take(4);
        if checksum_ok {
            assert(raw@.skip(65) =~= expected);
        } else {
            assert(raw@.skip(65) != expected) by {
                if raw@.skip(65) == expected {
                    assert(raw@.skip(65)[0] == raw@[65] && expected[0] == digest@[0]);
                    assert(raw@.skip(65)[1] == raw@[66] && expected[1] == digest@[1]);
                    assert(raw@.skip(65)[2] == raw@[67] && expected[2] == digest@[2]);
                    assert(raw@.skip(65)[3] == raw@[68] && expected[3] == digest@[3]);
                }
            }
        }
    }
    if checksum_ok {
        Some(raw)
    } else {
        None
    }
}

/// Decodes and validates a printed address: true exactly when the prefix, the
/// Base58 payload and the checksum all check out. Malformed input is an
/// ordinary failure, never a crash.
pub fn fuego_validate_address(address: &str) -> (r: bool)
    ensures
        r == spec_valid_address(address@),
{
    decode_address_raw(address).is_some()
}

/// Decodes a valid address into its two public keys (spend, then view);
/// `None` exactly when the address does not validate.
pub fn fuego_decode_address(address: &str) -> (r: Option<(Vec<u8>, Vec<u8>)>)
    ensures
        r is Some <==> spec_valid_address(address@),
        r matches Some(keys) ==> {
            &&& b58_decode_of(chars_to_bytes(address@.skip(5))) matches Some(raw)
            &&& keys.0@ == raw.subrange(1, 33)
            &&& keys.1@ == raw.subrange(33, 65)
        },
{
    match decode_address_raw(address) {
        None => None,
        Some(raw) => {
            let spend = slice_to_vec(slice_subrange(raw.as_slice(), 1, 33));
            let view = slice_to_vec(slice_subrange(raw.as_slice(), 33, 65));
            Some((spend, view))
        },
    }
}

/// Law: corrupting the prefix of a valid address invalidates it. Changing any
/// one of the first five characters makes validation fail. (Corruption of the
/// Base58 part is caught by the checksum with overwhelming probability, but
/// that is a probabilistic statement about the hash, not one provable here.)
pub proof fn lemma_prefix_corruption_invalidates(addr: Seq<char>, corrupted: Seq<char>, i: int)
    requires
        spec_valid_address(addr),
        corrupted.len() == addr.len(),
        0 <= i < 5,
        corrupted[i] != addr[i],
    ensures
        !spec_valid_address(corrupted),
{
    assert(addr.take(5)[i] == addr[i]);
    assert(corrupted.take(5)[i] == corrupted[i]);
}

/// The encoded address validates, shown from the facts the Base58 wrappers
/// hand back at the encoding site.
proof fn lemma_encoded_address_validates(
    prefix: Seq<char>,
    payload: Seq<u8>,
    encoded: Seq<u8>,
    addr: Seq<char>,
)
    requires
        prefix == fuego_prefix_chars(),
        payload.len() == 69,
        payload.skip(65) == sha512_of(payload.take(65)).take(4),
        forall|i: int| 0 <= i < encoded.len() ==> 0x31 <= #[trigger] encoded[i] <= 0x7a,
        b58_decode_of(chars_to_bytes(addr.skip(5))) == Some(payload),
        addr == prefix + bytes_to_chars(encoded),
    ensures
        spec_valid_address(addr),
{
    assert forall|i: int| 0 <= i < addr.len() implies '\0' <= #[trigger] addr[i] <= '\u{7f}' by {
        if i >= 5 {
            assert(addr[i] == bytes_to_chars(encoded)[i - 5]);
            assert(0x31 <= encoded[i - 5] <= 0x7a);
        }
    }
    assert(is_ascii_chars(addr));
    assert(addr.take(5) =~= fuego_prefix_chars());
}

} // verus!
