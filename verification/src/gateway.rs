use vstd::prelude::*;

verus! {

/// The lower-case hexadecimal digit for `n`, which lies below 16.
pub open spec fn hex_digit(n: int) -> char
    recommends
        0 <= n < 16,
{
    seq!['0', '1', '2', '3', '4', '5', '6', '7', '8', '9', 'a', 'b', 'c', 'd', 'e', 'f'][n]
}

/// The text form of a gateway identifier: two lower-case hexadecimal digits
/// for each byte, the high half first, the bytes in their order.
pub open spec fn hex_string(bytes: Seq<u8>) -> Seq<char> {
    Seq::new(
        2 * bytes.len(),
        |i: int|
            if i % 2 == 0 {
                hex_digit(bytes[i / 2] as int / 16)
            } else {
                hex_digit(bytes[i / 2] as int % 16)
            },
    )
}

/// Calls `hex::encode`. The contract claims what that crate's lower-case
/// table and its walk over the bytes give: for each byte, in order, the digit
/// of its high four bits and then the digit of its low four bits.
#[verifier::external_body]
pub(crate) fn hex_encode(bytes: &[u8]) -> (text: String)
    ensures
        text@ == hex_string(bytes@),
{
    hex::encode(bytes)
}

/// The identifier of a gateway as the acknowledgments carry it.
pub fn gateway_id_text(gateway_id: &[u8]) -> (text: String)
    ensures
        text@ == hex_string(gateway_id@),
        text@.len() == 2 * gateway_id@.len(),
{
    hex_encode(gateway_id)
}

} // verus!
