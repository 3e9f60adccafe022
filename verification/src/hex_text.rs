//! Bytes as hexadecimal text.

use vstd::prelude::*;

verus! {

/// The lowercase hexadecimal digit for a value below sixteen.
pub open spec fn hex_digit(nibble: u8) -> char {
    if nibble < 10 {
        (48 + nibble) as u8 as char
    } else {
        (87 + nibble) as u8 as char
    }
}

/// The two digits of one byte, high half first.
pub open spec fn hex_pair(byte: u8) -> Seq<char> {
    seq![hex_digit(byte / 16), hex_digit(byte % 16)]
}

/// Bytes in lowercase hexadecimal: two digits for each byte, in order.
pub open spec fn hex_of(bytes: Seq<u8>) -> Seq<char>
    decreases bytes.len(),
{
    if bytes.len() == 0 {
        seq![]
    } else {
        hex_of(bytes.drop_last()) + hex_pair(bytes.last())
    }
}

/// Encodes bytes with `hex::encode`.
///
/// Trusted: the text holds two lowercase hexadecimal digits for each byte,
/// high half first, in the order of the bytes.
#[verifier::external_body]
pub(crate) fn hex_encode(bytes: &[u8]) -> (text: String)
    ensures
        text@ == hex_of(bytes@),
{
    hex::encode(bytes)
}

/// Hexadecimal text is twice as long as the bytes it stands for.
pub proof fn lemma_hex_length(bytes: Seq<u8>)
    ensures
        hex_of(bytes).len() == 2 * bytes.len(),
    decreases bytes.len(),
{
    if bytes.len() > 0 {
        lemma_hex_length(bytes.drop_last());
    }
}

} // verus!
