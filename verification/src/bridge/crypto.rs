//! Digests, message authentication codes and their hexadecimal text.
use sha2::{Digest, Sha256};
use hmac::{Hmac, Mac};
use vstd::prelude::*;

verus! {

/// The SHA-256 digest of a byte string.
pub uninterp spec fn sha256_spec(data: Seq<u8>) -> Seq<u8>;

/// The HMAC-SHA-256 tag of a message under a key.
pub uninterp spec fn hmac_sha256_spec(key: Seq<u8>, message: Seq<u8>) -> Seq<u8>;

/// The lowercase hexadecimal digit of a value below sixteen.
pub open spec fn hex_digit(v: u8) -> char {
    if v < 10 {
        ((v + 48) as u8) as char
    } else {
        ((v + 87) as u8) as char
    }
}

/// Each byte as two lowercase hexadecimal digits, high half first.
pub open spec fn lower_hex(bytes: Seq<u8>) -> Seq<char>
    decreases bytes.len(),
{
    if bytes.len() == 0 {
        Seq::empty()
    } else {
        lower_hex(bytes.drop_last()) + seq![hex_digit(bytes.last() / 16), hex_digit(bytes.last() % 16)]
    }
}

/// The SHA-256 digest of a byte string.
///
/// Trusted: calls `sha2::Sha256::digest`; the contract claims that the
/// result is the digest named `sha256_spec` of the input, and that it is
/// 32 bytes long, as the SHA-256 output size is.
#[verifier::external_body]
pub(crate) fn sha256_digest(data: &[u8]) -> (r: Vec<u8>)
    ensures
        r@ == sha256_spec(data@),
        r@.len() == 32,
{
    Sha256::digest(data).to_vec()
}

/// The HMAC-SHA-256 tag of a message under a key.
///
/// Trusted: keys `hmac::Hmac<Sha256>` with `new_from_slice`, feeds it the
/// message with `update`, and returns the bytes of `finalize`. The contract
/// claims that the tag is the one named `hmac_sha256_spec` of the key and
/// message, and that keying succeeds for every key, as the crate's source
/// shows for HMAC (any key length is accepted), and that the tag is 32
/// bytes long, the SHA-256 output size.
#[verifier::external_body]
pub(crate) fn hmac_sha256(key: &[u8], message: &[u8]) -> (r: Option<Vec<u8>>)
    ensures
        r is Some,
        match r {
            Some(v) => v@ == hmac_sha256_spec(key@, message@) && v@.len() == 32,
            None => true,
        },
{
    match <Hmac<Sha256> as Mac>::new_from_slice(key) {
        Ok(mut mac) => {
            mac.update(message);
            Some(mac.finalize().into_bytes().to_vec())
        },
        Err(_) => None,
    }
}

/// Lowercase hexadecimal text of bytes.
///
/// Trusted: calls `hex::encode`, which the crate documents as encoding each
/// byte as two lowercase hexadecimal characters; the contract claims exactly
/// that.
#[verifier::external_body]
pub(crate) fn hex_encode(data: &[u8]) -> (r: String)
    ensures
        r@ == lower_hex(data@),
{
    hex::encode(data)
}

} // verus!
