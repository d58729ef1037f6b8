//! Identifiers drawn from the `uuid` crate, held by the library as the
//! 128-bit value of the UUID.

use vstd::prelude::*;

verus! {

/// The value of sixteen bytes read as a big-endian unsigned integer.
pub open spec fn be_bytes_value(b: Seq<u8>) -> nat
    decreases b.len(),
{
    if b.len() == 0 {
        0
    } else {
        be_bytes_value(b.drop_last()) * 256 + b.last() as nat
    }
}

/// The lower-case hexadecimal digit for `d`, which is below 16.
pub open spec fn hex_digit(d: int) -> char {
    if d < 10 { (d + 48) as char } else { (d + 87) as char }
}

/// The 32 hexadecimal digits of `v`, most significant first.
pub open spec fn hex_digits_128(v: u128) -> Seq<char> {
    Seq::new(32, |k: int| hex_digit(((v >> ((124 - 4 * k) as u128)) & 15u128) as int))
}

/// The hyphenated text of the UUID whose value is `v`: its 32 lower-case
/// hexadecimal digits in groups of 8, 4, 4, 4 and 12, joined by hyphens.
pub open spec fn uuid_text(v: u128) -> Seq<char> {
    let h = hex_digits_128(v);
    h.subrange(0, 8) + seq!['-'] + h.subrange(8, 12) + seq!['-'] + h.subrange(12, 16)
        + seq!['-'] + h.subrange(16, 20) + seq!['-'] + h.subrange(20, 32)
}

/// The text of the UUID whose value is `v`.
///
/// Calls `uuid::Uuid::from_u128` and `to_string`; `Uuid`'s `Display` writes
/// the lower-case hyphenated form, which the contract states.
#[verifier::external_body]
pub(crate) fn uuid_string(v: u128) -> (r: String)
    ensures
        r@ == uuid_text(v),
{
    uuid::Uuid::from_u128(v).to_string()
}

/// The value `v` is that of a random UUID: its version field (bits 76 to
/// 79) reads 4 and its variant field (bits 62 and 63) reads the RFC 4122
/// variant, binary 10.
pub open spec fn is_random_uuid(v: u128) -> bool {
    &&& (v >> 76u128) & 0xfu128 == 4
    &&& (v >> 62u128) & 0x3u128 == 2
}

/// A fresh random (version 4) UUID, as its 128-bit value.
///
/// Calls `uuid::Uuid::new_v4` and `Uuid::as_u128`. `new_v4` masks random
/// bits and sets the version and variant fields, so the value is a random
/// UUID by `is_random_uuid`; its other bits are random and nothing more is
/// promised of them.
#[verifier::external_body]
pub(crate) fn random_uuid_value() -> (r: u128)
    ensures
        is_random_uuid(r),
{
    uuid::Uuid::new_v4().as_u128()
}

/// The 128-bit value of the UUID built from sixteen bytes.
///
/// Calls `uuid::Uuid::from_bytes`, which stores the bytes unchanged, and
/// `Uuid::as_u128`, which reads them as a big-endian integer; the contract
/// states exactly that.
#[verifier::external_body]
pub(crate) fn uuid_value_from_bytes(bytes: [u8; 16]) -> (r: u128)
    ensures
        r as nat == be_bytes_value(bytes@),
{
    uuid::Uuid::from_bytes(bytes).as_u128()
}

} // verus!
