//! The textual form of a note identifier.

use vstd::arithmetic::power::pow;
use vstd::prelude::*;

verus! {

/// The lower-case hexadecimal digit for a value below sixteen.
pub open spec fn hex_digit(n: int) -> char {
    seq!['0', '1', '2', '3', '4', '5', '6', '7', '8', '9', 'a', 'b', 'c', 'd', 'e', 'f'][n]
}

/// The `k`-th of the 32 hexadecimal digits of `id`, counted from the most
/// significant one.
pub open spec fn nibble(id: u128, k: int) -> int {
    (id as int / pow(16, (31 - k) as nat)) % 16
}

/// Which hexadecimal digit stands at position `i` of the 36-character form:
/// the position less the hyphens before it.
pub open spec fn digit_index(i: int) -> int {
    if i < 8 {
        i
    } else if i < 13 {
        i - 1
    } else if i < 18 {
        i - 2
    } else if i < 23 {
        i - 3
    } else {
        i - 4
    }
}

/// The hyphenated form of an identifier: 32 lower-case hexadecimal digits,
/// most significant first, in groups of 8, 4, 4, 4 and 12.
pub open spec fn uuid_text(id: u128) -> Seq<char> {
    Seq::new(
        36,
        |i: int|
            if i == 8 || i == 13 || i == 18 || i == 23 {
                '-'
            } else {
                hex_digit(nibble(id, digit_index(i)))
            },
    )
}

/// Renders `id` with `uuid::Uuid::from_u128` followed by the `Display` of
/// `uuid::Uuid`. Trusted: the result is the 36-character lower-case
/// hyphenated form of the big-endian digits of `id`.
#[verifier::external_body]
pub(crate) fn hyphenated(id: u128) -> (text: String)
    ensures
        text@ == uuid_text(id),
{
    uuid::Uuid::from_u128(id).to_string()
}

} // verus!
