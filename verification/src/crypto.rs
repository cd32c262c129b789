//! The outside primitives that webhook verification rests on: hex decoding
//! (`hex`), HMAC-SHA256 (`hmac` with `sha2`) and constant-time comparison
//! (`subtle`). Each is a trusted wrapper; its contract is taken from the crate's
//! source and documentation, not proved.

use hmac::{Hmac, Mac};
use sha2::Sha256;
use subtle::ConstantTimeEq;
use vstd::prelude::*;

verus! {

/// The value of one ASCII hex digit, of either case.
pub open spec fn hex_digit_value(b: u8) -> Option<u8> {
    if 0x30 <= b && b <= 0x39 {
        Some((b - 0x30) as u8)
    } else if 0x41 <= b && b <= 0x46 {
        Some((b - 0x41 + 10) as u8)
    } else if 0x61 <= b && b <= 0x66 {
        Some((b - 0x61 + 10) as u8)
    } else {
        None
    }
}

/// Text that hex decoding accepts: an even number of hex digits.
pub open spec fn is_hex_text(text: Seq<u8>) -> bool {
    &&& text.len() % 2 == 0
    &&& forall|i: int| 0 <= i < text.len() ==> hex_digit_value(#[trigger] text[i]) is Some
}

/// The bytes that hex text stands for: each pair of digits, high digit first.
pub open spec fn hex_decoded(text: Seq<u8>) -> Seq<u8> {
    Seq::new(
        text.len() / 2,
        |i: int|
            (16 * hex_digit_value(text[2 * i]).unwrap() + hex_digit_value(
                text[2 * i + 1],
            ).unwrap()) as u8,
    )
}

/// The HMAC-SHA256 tag of `message` under `key`.
pub uninterp spec fn hmac_sha256(key: Seq<u8>, message: Seq<u8>) -> Seq<u8>;

/// Calls `hex::decode`. It refuses text of odd length and text with a byte that is
/// not an ASCII hex digit (`0-9`, `a-f`, `A-F`); otherwise it returns one byte per
/// pair of digits, the first digit of the pair giving the high four bits.
#[verifier::external_body]
pub(crate) fn hex_decode(text: &[u8]) -> (r: Option<Vec<u8>>)
    ensures
        r is Some <==> is_hex_text(text@),
        r matches Some(v) ==> v@ == hex_decoded(text@),
{
    hex::decode(text).ok()
}

/// Calls `Hmac::<Sha256>::new_from_slice`, `Mac::update` and `Mac::finalize`. HMAC
/// takes a key of any length, so `new_from_slice` never fails here; the tag is
/// the 32-byte HMAC-SHA256 of `message` under `key`.
#[verifier::external_body]
pub(crate) fn hmac_sha256_tag(key: &[u8], message: &[u8]) -> (r: Option<Vec<u8>>)
    ensures
        r is Some,
        r matches Some(t) ==> t@ == hmac_sha256(key@, message@) && t@.len() == 32,
{
    let mut mac = <Hmac<Sha256> as Mac>::new_from_slice(key).ok()?;
    mac.update(message);
    Some(mac.finalize().into_bytes().to_vec())
}

/// Calls `ConstantTimeEq::ct_eq` on two byte slices and converts the `Choice` to a
/// `bool`: true exactly when the slices have the same length and the same bytes.
#[verifier::external_body]
pub(crate) fn ct_eq_bytes(a: &[u8], b: &[u8]) -> (r: bool)
    ensures
        r == (a@ == b@),
{
    bool::from(a.ct_eq(b))
}

} // verus!
