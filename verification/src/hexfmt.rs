//! Lower-case hexadecimal text for operand bytes.

use vstd::prelude::*;

verus! {

/// The hexadecimal digit of a value below sixteen, in lower case.
pub open spec fn hex_digit(nibble: int) -> char {
    seq!['0', '1', '2', '3', '4', '5', '6', '7', '8', '9', 'a', 'b', 'c', 'd', 'e', 'f'][nibble]
}

/// The hexadecimal text of `bytes`: two digits for each byte, the one of its
/// high four bits first, with no separator.
pub open spec fn lower_hex(bytes: Seq<u8>) -> Seq<char> {
    Seq::new(
        2 * bytes.len(),
        |i: int|
            if i % 2 == 0 {
                hex_digit(bytes[i / 2] as int / 16)
            } else {
                hex_digit(bytes[i / 2] as int % 16)
            },
    )
}

/// Encodes `bytes` with `hex::encode`.
///
/// Trusted, not proved: that `hex::encode` walks the bytes in order and gives
/// for each of them the digit of its high four bits and then the digit of its
/// low four bits, both taken from `0123456789abcdef`.
#[verifier::external_body]
pub(crate) fn encode_lower(bytes: &Vec<u8>) -> (text: String)
    ensures
        text@ == lower_hex(bytes@),
{
    hex::encode(bytes)
}

} // verus!
