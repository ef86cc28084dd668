//! Bytes as hexadecimal digits.

use crate::text::{decimal, join3, quote_char};
use vstd::prelude::*;

verus! {

/// The hexadecimal digit of a value below sixteen, in lower case.
pub open spec fn hex_digit(v: int) -> char {
    if v < 10 {
        ('0' as u32 + v) as char
    } else {
        ('a' as u32 + v - 10) as char
    }
}

/// Bytes as hexadecimal digits, two to a byte.
pub open spec fn hex_digits(bytes: Seq<u8>) -> Seq<char> {
    Seq::new(
        2 * bytes.len(),
        |i: int|
            if i % 2 == 0 {
                hex_digit(bytes[i / 2] as int / 16)
            } else {
                hex_digit(bytes[i / 2] as int % 16)
            },
    )
}

/// Writes bytes with `hex::encode`.
///
/// Claimed of it: each byte becomes two digits, the upper half first, in lower
/// case. There has to be room for two digits to a byte.
#[verifier::external_body]
pub(crate) fn encode(bytes: &[u8]) -> (r: String)
    requires
        2 * bytes@.len() <= isize::MAX,
    ensures
        r@ == hex_digits(bytes@),
{
    hex::encode(bytes)
}

/// The value of a hexadecimal digit, if it is one.
pub open spec fn digit_value(digit: u8) -> Option<int> {
    if 0x30 <= digit <= 0x39 {
        Some(digit - 0x30)
    } else if 0x41 <= digit <= 0x46 {
        Some(digit - 0x41 + 10)
    } else if 0x61 <= digit <= 0x66 {
        Some(digit - 0x61 + 10)
    } else {
        None
    }
}

/// Every byte up to `end` is a hexadecimal digit.
pub open spec fn digits_up_to(text: Seq<u8>, end: int) -> bool {
    forall|i: int| 0 <= i < end ==> digit_value(#[trigger] text[i]) is Some
}

/// The bytes that pairs of hexadecimal digits stand for.
pub open spec fn bytes_of(text: Seq<u8>) -> Seq<u8> {
    Seq::new(
        text.len() / 2,
        |i: int|
            (16 * digit_value(text[2 * i])->0 + digit_value(text[2 * i + 1])->0) as u8,
    )
}

/// Why a text is no hexadecimal number.
#[derive(Debug, Clone, Copy, PartialEq, Eq)]
pub enum HexError {
    /// A byte that is no digit, and where it stands.
    InvalidHexCharacter { c: char, index: usize },
    /// The digits do not pair up.
    OddLength,
    /// The digits do not fill what they should fill.
    InvalidStringLength,
}

impl HexError {
    /// What the error is in words.
    pub open spec fn words(self) -> Seq<char> {
        match self {
            HexError::InvalidHexCharacter { c, index } => "Invalid character "@
                + crate::text::quoted_char(c) + (" at position "@ + crate::text::decimal_text(
                index as nat,
            )),
            HexError::OddLength => "Odd number of digits"@,
            HexError::InvalidStringLength => "Invalid string length"@,
        }
    }

    /// The error in words.
    pub fn message(&self) -> (r: String)
        ensures
            r@ == self.words(),
    {
        match self {
            HexError::InvalidHexCharacter { c, index } => {
                let quoted = quote_char(*c);
                let at = decimal(*index as u64);
                let mut tail = " at position ".to_owned();
                tail.append(at.as_str());
                join3("Invalid character ", quoted.as_str(), tail.as_str())
            },
            HexError::OddLength => "Odd number of digits".to_owned(),
            HexError::InvalidStringLength => "Invalid string length".to_owned(),
        }
    }
}

/// What reading a text as hexadecimal digits gives.
pub open spec fn decodes_to(text: Seq<u8>, r: Result<Seq<u8>, HexError>) -> bool {
    match r {
        Ok(bytes) => text.len() % 2 == 0 && digits_up_to(text, text.len() as int) && bytes
            == bytes_of(text),
        Err(HexError::OddLength) => text.len() % 2 != 0,
        Err(HexError::InvalidHexCharacter { c, index }) => text.len() % 2 == 0 && index
            < text.len() && digits_up_to(text, index as int) && digit_value(text[index as int])
            is None && c == text[index as int] as char,
        Err(HexError::InvalidStringLength) => false,
    }
}

/// Reads a text with `hex::decode`.
///
/// Claimed of it: an odd number of bytes is refused first, then the first byte
/// that is no digit of either case; otherwise each pair of digits is a byte, the
/// upper half first.
#[verifier::external_body]
pub(crate) fn decode(text: &str) -> (r: Result<Vec<u8>, HexError>)
    ensures
        decodes_to(
            vstd::utf8::encode_utf8(text@),
            match r {
                Ok(bytes) => Ok(bytes@),
                Err(e) => Err(e),
            },
        ),
{
    match hex::decode(text) {
        Ok(bytes) => Ok(bytes),
        Err(hex::FromHexError::InvalidHexCharacter { c, index }) => {
            Err(HexError::InvalidHexCharacter { c, index })
        }
        Err(hex::FromHexError::OddLength) => Err(HexError::OddLength),
        Err(hex::FromHexError::InvalidStringLength) => Err(HexError::InvalidStringLength),
    }
}

} // verus!
