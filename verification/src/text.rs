//! Text interchange: a blob travels in text as the upper-case hexadecimal of
//! its bytes, two digits to the byte.

use crate::KVObjectError;
use vstd::prelude::*;

verus! {

/// The sixteen upper-case digits, in order of their value.
pub open spec fn spec_upper_digits() -> Seq<char> {
    seq!['0', '1', '2', '3', '4', '5', '6', '7', '8', '9', 'A', 'B', 'C', 'D', 'E', 'F']
}

/// The sixteen lower-case digits, in order of their value.
pub open spec fn spec_lower_digits() -> Seq<char> {
    seq!['0', '1', '2', '3', '4', '5', '6', '7', '8', '9', 'a', 'b', 'c', 'd', 'e', 'f']
}

/// Whether `c` is a hexadecimal digit, in either case.
pub open spec fn spec_is_digit(c: char) -> bool {
    spec_upper_digits().contains(c) || spec_lower_digits().contains(c)
}

/// The value of a hexadecimal digit: its place among the sixteen.
pub open spec fn spec_digit_value(c: char) -> int {
    if spec_upper_digits().contains(c) {
        spec_upper_digits().index_of(c)
    } else {
        spec_lower_digits().index_of(c)
    }
}

/// The upper-case hexadecimal of `bytes`: for each byte its high digit, then its low one.
pub open spec fn spec_hex_upper(bytes: Seq<u8>) -> Seq<char> {
    Seq::new(
        2 * bytes.len(),
        |i: int|
            if i % 2 == 0 {
                spec_upper_digits()[bytes[i / 2] as int / 16]
            } else {
                spec_upper_digits()[bytes[i / 2] as int % 16]
            },
    )
}

/// Whether `text` is hexadecimal: an even number of digits and nothing else.
pub open spec fn spec_is_hex(text: Seq<char>) -> bool {
    &&& text.len() % 2 == 0
    &&& forall|i: int| 0 <= i < text.len() ==> spec_is_digit(#[trigger] text[i])
}

/// The bytes that hexadecimal `text` stands for.
pub open spec fn spec_hex_bytes(text: Seq<char>) -> Seq<u8> {
    Seq::new(
        text.len() / 2,
        |i: int| (16 * spec_digit_value(text[2 * i]) + spec_digit_value(text[2 * i + 1])) as u8,
    )
}

#[verifier::external_type_specification]
#[verifier::external_body]
pub struct ExFromHexError(hex::FromHexError);

/// `hex::encode_upper`: two digits for each byte, high digit first, letters in upper case.
#[verifier::external_body]
pub(crate) fn hex_encode_upper(bytes: &[u8]) -> (r: String)
    ensures
        r@ == spec_hex_upper(bytes@),
{
    hex::encode_upper(bytes)
}

/// `hex::decode`: succeeds exactly on an even number of hexadecimal digits,
/// of either case, and then gives one byte for each pair, high digit first.
#[verifier::external_body]
pub(crate) fn hex_decode(text: &str) -> (r: Result<Vec<u8>, hex::FromHexError>)
    ensures
        r is Ok <==> spec_is_hex(text@),
        r matches Ok(v) ==> v@ == spec_hex_bytes(text@),
{
    hex::decode(text)
}

/// Reads bytes from hexadecimal text. Text that is not hexadecimal is a
/// deserialization error.
pub fn from_hex(text: &str) -> (r: Result<Vec<u8>, KVObjectError>)
    ensures
        r is Ok <==> spec_is_hex(text@),
        r matches Ok(v) ==> v@ == spec_hex_bytes(text@),
        r matches Err(e) ==> e == KVObjectError::DeSerializeError,
{
    match hex_decode(text) {
        Ok(v) => Ok(v),
        Err(_) => Err(KVObjectError::DeSerializeError),
    }
}

/// A digit's value is below sixteen, and the upper-case digit of a value has that value.
pub proof fn lemma_digit_value(n: int)
    requires
        0 <= n < 16,
    ensures
        spec_is_digit(spec_upper_digits()[n]),
        spec_digit_value(spec_upper_digits()[n]) == n,
{
    let d = spec_upper_digits();
    assert(d.contains(d[n]));
    assert(d.no_duplicates());
    d.index_of_first_ensures(d[n]);
}

/// Text written by `spec_hex_upper` is hexadecimal and reads back as the bytes it was written from.
pub proof fn lemma_hex_round_trip(bytes: Seq<u8>)
    ensures
        spec_is_hex(spec_hex_upper(bytes)),
        spec_hex_bytes(spec_hex_upper(bytes)) == bytes,
{
    let text = spec_hex_upper(bytes);
    assert forall|i: int| 0 <= i < text.len() implies spec_is_digit(#[trigger] text[i]) by {
        let b = bytes[i / 2] as int;
        lemma_digit_value(b / 16);
        lemma_digit_value(b % 16);
    }
    assert forall|i: int| 0 <= i < bytes.len() implies spec_hex_bytes(text)[i] == bytes[i] by {
        let b = bytes[i] as int;
        lemma_digit_value(b / 16);
        lemma_digit_value(b % 16);
        assert((2 * i) / 2 == i && (2 * i) % 2 == 0);
        assert((2 * i + 1) / 2 == i && (2 * i + 1) % 2 == 1);
        assert(text[2 * i] == spec_upper_digits()[b / 16]);
        assert(text[2 * i + 1] == spec_upper_digits()[b % 16]);
        assert(16 * (b / 16) + b % 16 == b);
    }
    assert(spec_hex_bytes(text) =~= bytes);
}

} // verus!
