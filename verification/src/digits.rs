//! Hexadecimal digits, and the decoder that tells them from other
//! characters.

use rustc_serialize::hex::{FromHex, FromHexError};
use vstd::prelude::*;

verus! {

/// One of `0` to `9`, `a` to `f`, `A` to `F`.
pub open spec fn is_hex_digit(c: char) -> bool {
    ('0' <= c && c <= '9') || ('a' <= c && c <= 'f') || ('A' <= c && c <= 'F')
}

/// Blank characters that the decoder passes over, wherever they stand:
/// space, carriage return, line feed and tab.
pub open spec fn is_blank(c: char) -> bool {
    c == ' ' || c == '\r' || c == '\n' || c == '\t'
}

/// Every character of `text` before `end` is a hexadecimal digit or blank.
pub open spec fn decodable_before(text: Seq<char>, end: int) -> bool {
    forall|j: int| 0 <= j < end ==> is_hex_digit(#[trigger] text[j]) || is_blank(text[j])
}

/// How many hexadecimal digits `text` holds.
pub open spec fn hex_digit_count(text: Seq<char>) -> nat {
    text.filter(|c: char| is_hex_digit(c)).len()
}

/// Why the decoder refused a text.
#[derive(Copy, Clone, Debug, PartialEq, Eq, Structural)]
pub enum DecodeError {
    /// A character that is neither a hexadecimal digit nor blank, and the
    /// place where it stands.
    InvalidCharacter(char, usize),
    /// The digits do not pair up into bytes.
    InvalidLength,
}

/// Runs `rustc_serialize::hex::FromHex::from_hex` on `text` and keeps
/// whether it decoded, not the bytes.
///
/// The decoder reads the text from the front and passes over blanks. It
/// stops at the first character that is neither a hexadecimal digit nor
/// blank, and reports that character and its place. Only such characters
/// take more than one byte, so the byte offset that the decoder counts is
/// the number of characters before it. Where there is no such character,
/// the text decodes if and only if its digits pair up.
#[verifier::external_body]
pub(crate) fn decode_hex(text: &str) -> (decoded: Result<(), DecodeError>)
    ensures
        match decoded {
            Ok(_) => decodable_before(text@, text@.len() as int) && hex_digit_count(text@) % 2 == 0,
            Err(DecodeError::InvalidCharacter(c, i)) => {
                &&& i < text@.len()
                &&& decodable_before(text@, i as int)
                &&& c == text@[i as int]
                &&& !is_hex_digit(c)
                &&& !is_blank(c)
            },
            Err(DecodeError::InvalidLength) => decodable_before(text@, text@.len() as int)
                && hex_digit_count(text@) % 2 == 1,
        },
{
    match text.from_hex() {
        Ok(_) => Ok(()),
        Err(FromHexError::InvalidHexCharacter(c, i)) => Err(DecodeError::InvalidCharacter(c, i)),
        Err(FromHexError::InvalidHexLength) => Err(DecodeError::InvalidLength),
    }
}

/// Whether `c` is one of the blanks that the decoder passes over.
pub(crate) fn is_blank_char(c: char) -> (blank: bool)
    ensures
        blank == is_blank(c),
{
    c == ' ' || c == '\r' || c == '\n' || c == '\t'
}

} // verus!
