//! Lowercase hex encoding of proof outputs.

use vstd::prelude::*;

verus! {

/// The lowercase hex digit for a value below 16: `0` to `9` then `a` to `f`.
pub open spec fn hex_digit(v: u8) -> char
    recommends
        v < 16,
{
    if v < 10 {
        ((v + 48) as char)
    } else {
        ((v + 87) as char)
    }
}

/// The lowercase hex encoding of a byte string: two digits per byte, high
/// nibble first.
pub open spec fn hex_of(s: Seq<u8>) -> Seq<char> {
    Seq::new(
        2 * s.len(),
        |i: int|
            if i % 2 == 0 {
                hex_digit(s[i / 2] / 16)
            } else {
                hex_digit(s[i / 2] % 16)
            },
    )
}

/// Whether `texts` is the hex encoding of `bytes`, string for string.
pub open spec fn hex_texts_of(texts: Seq<String>, bytes: Seq<Seq<u8>>) -> bool {
    &&& texts.len() == bytes.len()
    &&& forall|j: int| 0 <= j < texts.len() ==> (#[trigger] texts[j])@ == hex_of(bytes[j])
}

/// Relies on hex::encode: two lowercase hex digits per byte, high nibble
/// first, in input order.
#[verifier::external_body]
pub(crate) fn hex_encode(b: &Vec<u8>) -> (r: String)
    ensures
        r@ == hex_of(b@),
{
    hex::encode(b.as_slice())
}

} // verus!
