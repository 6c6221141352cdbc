//! The keyed hashing and encodings that a signed token is built from.
//!
//! Base64 and HMAC-SHA256 come from their crates; their results are named here by
//! spec functions without a body, which the wrappers below apply. Form encoding is
//! short enough to be stated in full.
use vstd::prelude::*;
use hmac::{Hmac, Mac, NewMac};
use sha2::Sha256;

verus! {

/// The bytes that a text decodes to under the standard base64 alphabet, or `None`
/// when it is not such a text.
pub uninterp spec fn base64_decoded(text: Seq<char>) -> Option<Seq<u8>>;

/// The standard, padded base64 text of some bytes.
pub uninterp spec fn base64_encoded(bytes: Seq<u8>) -> Seq<char>;

/// The HMAC-SHA256 tag of a message under a key.
pub uninterp spec fn hmac_sha256(key: Seq<u8>, message: Seq<u8>) -> Seq<u8>;

/// Bytes that `application/x-www-form-urlencoded` writes as themselves.
pub open spec fn form_unchanged(b: u8) -> bool {
    ||| b == 0x2a
    ||| b == 0x2d
    ||| b == 0x2e
    ||| (0x30 <= b && b <= 0x39)
    ||| (0x41 <= b && b <= 0x5a)
    ||| b == 0x5f
    ||| (0x61 <= b && b <= 0x7a)
}

/// An upper-case hexadecimal digit.
pub open spec fn hex_digit(n: int) -> char {
    if n < 10 {
        (n + 0x30) as char
    } else {
        (n + 0x37) as char
    }
}

/// The `application/x-www-form-urlencoded` text of some bytes: bytes of the unreserved
/// set stay, a space becomes `+`, any other byte becomes `%` and two hex digits.
pub open spec fn form_encoded(bytes: Seq<u8>) -> Seq<char>
    decreases bytes.len(),
{
    if bytes.len() == 0 {
        Seq::empty()
    } else {
        let b = bytes[0];
        let head = if form_unchanged(b) {
            seq![b as char]
        } else if b == 0x20 {
            seq!['+']
        } else {
            seq!['%', hex_digit(b as int / 16), hex_digit(b as int % 16)]
        };
        head + form_encoded(bytes.drop_first())
    }
}

/// The form-encoded text of one `key=value` pair.
pub open spec fn form_pair(key: Seq<char>, value: Seq<char>) -> Seq<char> {
    form_encoded(vstd::utf8::encode_utf8(key)) + seq!['='] + form_encoded(
        vstd::utf8::encode_utf8(value),
    )
}

/// Relies on base64::decode, which reads the standard alphabet and returns an error
/// for a text that is not base64.
#[verifier::external_body]
pub(crate) fn decode_base64(text: &str) -> (r: Option<Vec<u8>>)
    ensures
        match r {
            Some(bytes) => base64_decoded(text@) == Some(bytes@),
            None => base64_decoded(text@) is None,
        },
{
    base64::decode(text).ok()
}

/// Relies on base64::encode, which writes the standard alphabet with padding.
#[verifier::external_body]
pub(crate) fn encode_base64(bytes: &[u8]) -> (r: String)
    ensures
        r@ == base64_encoded(bytes@),
{
    base64::encode(bytes)
}

/// Relies on hmac 0.11's `Hmac::<Sha256>::new_from_slice`, which accepts a key of any
/// length (it pads a short key and hashes a long one), and on `update` and `finalize`,
/// which give the tag of the message.
#[verifier::external_body]
pub(crate) fn hmac_sha256_tag(key: &[u8], message: &[u8]) -> (r: Option<Vec<u8>>)
    ensures
        r is Some,
        r matches Some(tag) ==> tag@ == hmac_sha256(key@, message@),
{
    match Hmac::<Sha256>::new_from_slice(key) {
        Ok(mut mac) => {
            mac.update(message);
            Some(mac.finalize().into_bytes().to_vec())
        },
        Err(_) => None,
    }
}

/// Relies on serde_urlencoded::to_string, which serialises a pair of strings through
/// form_urlencoded's `append_pair` as the encoded key, `=`, and the encoded value, and
/// does not fail on a pair of strings.
#[verifier::external_body]
pub(crate) fn url_encode_pair(key: &str, value: &str) -> (r: Option<String>)
    ensures
        r is Some,
        r matches Some(text) ==> text@ == form_pair(key@, value@),
{
    serde_urlencoded::to_string(&[(key, value)]).ok()
}

/// The latest second that chrono can represent: the end of the year 262142.
pub const MAX_CLOCK_SECONDS: i64 = 8_210_298_412_799;

/// A time that the clock can read: from the Unix epoch to chrono's latest second.
pub open spec fn clock_reading(now: int) -> bool {
    0 <= now <= MAX_CLOCK_SECONDS
}

/// Relies on chrono::Utc::now for the current time, in seconds since the Unix epoch.
/// chrono 0.4.45 builds it from the system clock's duration since the epoch and
/// panics on a clock before the epoch or past its latest date, so the value lies
/// between the two; nothing more is promised of it.
#[verifier::external_body]
pub(crate) fn unix_time_now() -> (r: i64)
    ensures
        clock_reading(r as int),
{
    chrono::Utc::now().timestamp()
}

} // verus!
