//! Hexadecimal text, as the `hex` crate writes and reads it.

use crate::error::EVMError;
use vstd::prelude::*;
use vstd::string::StringSliceAdditionalSpecFns;

verus! {

/// The lower-case hexadecimal digit of a number below 16.
pub open spec fn hex_digit(n: int) -> char {
    if n < 10 {
        (n + 48) as char
    } else {
        (n + 87) as char
    }
}

/// The text of a byte string: two lower-case digits per byte, the high half
/// of each byte first.
pub open spec fn hex_text(bytes: Seq<u8>) -> Seq<char> {
    Seq::new(
        2 * bytes.len(),
        |i: int|
            if i % 2 == 0 {
                hex_digit(bytes[i / 2] as int / 16)
            } else {
                hex_digit(bytes[i / 2] as int % 16)
            },
    )
}

/// The number that a hexadecimal digit stands for, given as the byte of its
/// character; `None` for any other byte.
pub open spec fn hex_value(b: u8) -> Option<int> {
    if 48 <= b <= 57 {
        Some(b - 48)
    } else if 97 <= b <= 102 {
        Some(b - 87)
    } else if 65 <= b <= 70 {
        Some(b - 55)
    } else {
        None
    }
}

/// Whether a text, given as its bytes, is a sequence of pairs of hexadecimal
/// digits.
pub open spec fn is_hex(text: Seq<u8>) -> bool {
    &&& text.len() % 2 == 0
    &&& forall|i: int| 0 <= i < text.len() ==> hex_value(#[trigger] text[i]) is Some
}

/// The bytes that a text of digit pairs stands for: each pair gives one
/// byte, its first digit the high half.
pub open spec fn hex_bytes(text: Seq<u8>) -> Seq<u8> {
    Seq::new(
        text.len() / 2,
        |i: int| (hex_value(text[2 * i]).unwrap() * 16 + hex_value(text[2 * i + 1]).unwrap()) as u8,
    )
}

/// The error of the `hex` crate's decoding.
#[verifier::external_type_specification]
#[verifier::external_body]
pub struct ExFromHexError(hex::FromHexError);

/// The bytes that a hexadecimal text stands for. Fails where the text is not
/// a sequence of pairs of hexadecimal digits.
pub fn decode(text: &str) -> (bytes: Result<Vec<u8>, EVMError>)
    ensures
        is_hex(text.spec_bytes()) ==> bytes is Ok && bytes.unwrap()@ == hex_bytes(
            text.spec_bytes(),
        ),
        !is_hex(text.spec_bytes()) ==> bytes == Err::<Vec<u8>, EVMError>(EVMError::InvalidHex),
{
    match hex_decode(text) {
        Ok(bytes) => Ok(bytes),
        Err(_) => Err(EVMError::InvalidHex),
    }
}

/// `hex::encode`: two lower-case hexadecimal digits for each byte, in order,
/// the high half of the byte first.
#[verifier::external_body]
pub(crate) fn hex_encode(bytes: &[u8; 32]) -> (text: String)
    ensures
        text@ == hex_text(bytes@),
{
    hex::encode(bytes)
}

/// `hex::decode`: fails on a text of odd length and on a text that holds a
/// byte other than a digit or a letter from `a` to `f` in either case;
/// otherwise gives one byte for each pair of digits, the first digit of a
/// pair being the high half.
#[verifier::external_body]
fn hex_decode(text: &str) -> (bytes: Result<Vec<u8>, hex::FromHexError>)
    ensures
        is_hex(text.spec_bytes()) ==> bytes is Ok && bytes.unwrap()@ == hex_bytes(
            text.spec_bytes(),
        ),
        !is_hex(text.spec_bytes()) ==> bytes is Err,
{
    hex::decode(text)
}

} // verus!
