//! Session identifiers: the UUIDs of the `uuid` crate, and what this
//! library reads of them.
//!
//! The two functions marked `external_body` are believed, not proved: each
//! makes one call into `uuid`.

use vstd::prelude::*;
use uuid::Uuid;

verus! {

/// A universally unique identifier of the `uuid` crate.
#[verifier::external_type_specification]
#[verifier::external_body]
pub struct ExUuid(Uuid);

/// The 128 bits of an identifier as one number, the first byte being the
/// most significant.
pub uninterp spec fn uuid_bits(id: Uuid) -> u128;

/// Sixteen to the power of `n`.
pub open spec fn sixteen_to(n: nat) -> nat
    decreases n,
{
    if n == 0 {
        1
    } else {
        16 * sixteen_to((n - 1) as nat)
    }
}

/// The hexadecimal digit of `bits` at place `k`, counted from the most
/// significant of its 32 digits.
pub open spec fn nibble_at(bits: u128, k: int) -> int {
    (bits as int / sixteen_to((31 - k) as nat) as int) % 16
}

/// The character for a hexadecimal digit, in lower case.
pub open spec fn hex_char(digit: int) -> char {
    "0123456789abcdef"@[digit]
}

/// The usual text of an identifier: its 32 hexadecimal digits in lower
/// case, in groups of 8, 4, 4, 4 and 12 with a hyphen between them.
pub open spec fn hyphenated(bits: u128) -> Seq<char> {
    Seq::new(
        36,
        |i: int|
            if i == 8 || i == 13 || i == 18 || i == 23 {
                '-'
            } else if i < 8 {
                hex_char(nibble_at(bits, i))
            } else if i < 13 {
                hex_char(nibble_at(bits, i - 1))
            } else if i < 18 {
                hex_char(nibble_at(bits, i - 2))
            } else if i < 23 {
                hex_char(nibble_at(bits, i - 3))
            } else {
                hex_char(nibble_at(bits, i - 4))
            },
    )
}

/// `Uuid::clone`: an identifier is plain data, and its copy is equal to it.
pub assume_specification[ <Uuid as Clone>::clone ](id: &Uuid) -> (copy: Uuid)
    ensures
        copy == *id,
;

/// `Uuid::new_v4`: a random identifier. Whatever the bits drawn, the digit
/// at place 12 is the version, 4, and the digit at place 16 starts with
/// the two bits of the variant, `10`. The bits come from the operating
/// system; should it have none to give, `uuid` panics.
#[verifier::external_body]
pub(crate) fn fresh() -> (id: Uuid)
    ensures
        nibble_at(uuid_bits(id), 12) == 4,
        8 <= nibble_at(uuid_bits(id), 16) <= 11,
{
    Uuid::new_v4()
}

/// `Uuid`'s `to_string`: the hyphenated text in lower case.
#[verifier::external_body]
pub(crate) fn to_text(id: &Uuid) -> (text: String)
    ensures
        text@ == hyphenated(uuid_bits(*id)),
{
    id.to_string()
}

} // verus!
