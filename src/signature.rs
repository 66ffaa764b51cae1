//! Authenticity of webhook payloads: the `sha256=<hex>` signature that the
//! sender computes with a shared secret, and its check.

use vstd::prelude::*;
use vstd::string::StringSliceAdditionalSpecFns;

use hmac::{Mac, NewMac};

verus! {

/// The HMAC-SHA256 tag of `message` under `key`.
pub uninterp spec fn hmac_sha256_of(key: Seq<u8>, message: Seq<u8>) -> Seq<u8>;

/// Relies on hmac's `Hmac<Sha256>` over sha2's `Sha256`: `new_from_slice`,
/// which takes keys of every length (longer ones are hashed first, shorter
/// ones padded) and so never fails, then `update` and `finalize`, whose tag
/// is the 32 bytes of a SHA-256 output.
#[verifier::external_body]
fn hmac_sha256(key: &[u8], message: &[u8]) -> (r: Result<
    Vec<u8>,
    hmac::crypto_mac::InvalidKeyLength,
>)
    ensures
        r is Ok,
        r matches Ok(tag) ==> tag@ == hmac_sha256_of(key@, message@) && tag@.len() == 32,
{
    let mut mac = hmac::Hmac::<sha2::Sha256>::new_from_slice(key)?;
    mac.update(message);
    Ok(mac.finalize().into_bytes().to_vec())
}

/// The error that a MAC gives for a key of a length it does not take.
#[verifier::external_type_specification]
#[verifier::external_body]
pub struct ExInvalidKeyLength(hmac::crypto_mac::InvalidKeyLength);

/// The lower-case hex digit of `n`, for `0 <= n < 16`.
pub open spec fn hex_digit(n: int) -> char {
    seq!['0', '1', '2', '3', '4', '5', '6', '7', '8', '9', 'a', 'b', 'c', 'd', 'e', 'f'][n]
}

/// `bytes` in lower-case hex: two digits per byte, the high nibble first.
pub open spec fn hex_lower(bytes: Seq<u8>) -> Seq<char> {
    Seq::new(
        (2 * bytes.len()) as nat,
        |i: int|
            if i % 2 == 0 {
                hex_digit(bytes[i / 2] as int / 16)
            } else {
                hex_digit(bytes[i / 2] as int % 16)
            },
    )
}

/// Relies on base16's `encode_lower`: each byte as two lower-case hex
/// digits, the high nibble first. It panics where the length of the text
/// would overflow `usize`.
#[verifier::external_body]
fn encode_lower(bytes: &[u8]) -> (r: String)
    requires
        bytes@.len() <= usize::MAX / 2,
    ensures
        r@ == hex_lower(bytes@),
{
    base16::encode_lower(bytes)
}

/// The signature that a sender holding `key` attaches to `body`.
pub open spec fn expected_signature(key: Seq<u8>, body: Seq<u8>) -> Seq<char> {
    "sha256="@ + hex_lower(hmac_sha256_of(key, body))
}

/// Whether the claimed signature, if any, authenticates `body` under `key`.
pub open spec fn signature_accepted(key: Seq<u8>, body: Seq<u8>, claimed: Option<Seq<char>>) -> bool {
    claimed == Some(expected_signature(key, body))
}

/// The signature of `body` under the secret `key`: `sha256=` and the
/// HMAC-SHA256 tag in lower-case hex.
pub fn signature_for(key: &str, body: &[u8]) -> (r: String)
    ensures
        r@ == expected_signature(key.spec_bytes(), body@),
{
    let tag = match hmac_sha256(key.as_bytes(), body) {
        Ok(tag) => tag,
        Err(_) => {
            return String::new();
        },
    };
    let hex = encode_lower(tag.as_slice());
    String::from_str("sha256=").concat(hex.as_str())
}

/// Whether `claimed` is the signature of `body` under the secret `key`.
/// A missing signature is never authentic.
pub fn is_authentic(key: &str, body: &[u8], claimed: Option<&str>) -> (r: bool)
    ensures
        r == signature_accepted(
            key.spec_bytes(),
            body@,
            match claimed {
                Some(c) => Some(c@),
                None => None,
            },
        ),
{
    match claimed {
        Some(c) => {
            let expected = signature_for(key, body);
            c.to_owned() == expected
        },
        None => false,
    }
}

/// The signature computed for a key and a body is accepted for them, and
/// any other claimed text, one that differs in a single character included,
/// is refused.
pub proof fn lemma_signature_accepts_only_itself(
    key: Seq<u8>,
    body: Seq<u8>,
    claimed: Seq<char>,
)
    ensures
        signature_accepted(key, body, Some(expected_signature(key, body))),
        claimed != expected_signature(key, body) ==> !signature_accepted(key, body, Some(claimed)),
        !signature_accepted(key, body, None),
{
}

} // verus!
