//! Lowercase, `0x`-prefixed hexadecimal rendering of byte strings.

use vstd::prelude::*;

verus! {

/// The lowercase hexadecimal digit of a value below sixteen.
pub open spec fn hex_digit(n: int) -> char {
    seq!['0', '1', '2', '3', '4', '5', '6', '7', '8', '9', 'a', 'b', 'c', 'd', 'e', 'f'][n]
}

/// Two lowercase digits per byte, high nibble first.
pub open spec fn hex_lower(s: Seq<u8>) -> Seq<char>
    decreases s.len(),
{
    if s.len() == 0 {
        Seq::empty()
    } else {
        hex_lower(s.drop_last()) + seq![hex_digit(s.last() as int / 16), hex_digit(s.last() as int % 16)]
    }
}

/// `0x` followed by the lowercase digits of `s`.
pub open spec fn hex_prefixed(s: Seq<u8>) -> Seq<char> {
    seq!['0', 'x'] + hex_lower(s)
}

/// Relies on `alloy_primitives::hex::encode_prefixed` (the const-hex crate):
/// it writes `0x`, then each byte as two digits of `0123456789abcdef`.
#[verifier::external_body]
pub(crate) fn encode_prefixed(bytes: &[u8]) -> (r: String)
    ensures
        r@ == hex_prefixed(bytes@),
{
    alloy_primitives::hex::encode_prefixed(bytes)
}

} // verus!
