//! The errors that building a colour can end in.

use rustc_serialize::hex::FromHexError;
use vstd::prelude::*;

verus! {

/// Why a text was refused as a colour.
#[derive(Copy, Clone, Debug, PartialEq, Eq, Structural)]
pub enum SlackError {
    /// The text is no built-in colour name and does not have seven characters.
    WrongLength,
    /// The text has seven characters, and the first of them is not `#`.
    MissingHash,
    /// The text is `#` and six characters, not all of them hexadecimal digits.
    InvalidHex {
        /// The first character after `#` that is no hexadecimal digit.
        ch: char,
        /// Its place among the characters after `#`, counted from zero.
        position: usize,
    },
}

/// What building a value ends in.
pub type SlackResult<T> = Result<T, SlackError>;

/// The digit that stands for `d` in decimal notation, for `d` below ten.
pub open spec fn decimal_digit(d: nat) -> char {
    "0123456789"@[d as int]
}

/// `n` in decimal notation, without leading zeros.
pub open spec fn decimal(n: nat) -> Seq<char>
    decreases n,
{
    if n < 10 {
        seq![decimal_digit(n)]
    } else {
        decimal(n / 10).push(decimal_digit(n % 10))
    }
}

/// The message about a character `ch` that is no hexadecimal digit and
/// stands at `position`.
pub open spec fn invalid_character_message(ch: char, position: usize) -> Seq<char> {
    "Invalid character '"@ + seq![ch] + "' at position "@ + decimal(position as nat)
}

/// The hexadecimal decoder's own message for a character that it refuses:
/// the `Debug` form of `rustc_serialize::hex::FromHexError::InvalidHexCharacter`.
/// It is the fixed wording around the character itself and the position in
/// decimal.
#[verifier::external_body]
fn invalid_character_desc(ch: char, position: usize) -> (desc: String)
    ensures
        desc@ == invalid_character_message(ch, position),
{
    format!("{:?}", FromHexError::InvalidHexCharacter(ch, position))
}

/// The hexadecimal decoder's short name for the same error: what
/// `std::error::Error::description` gives for
/// `rustc_serialize::hex::FromHexError::InvalidHexCharacter`, which is the
/// same for every character and position.
#[verifier::external_body]
fn invalid_character_description(ch: char, position: usize) -> (description: String)
    ensures
        description@ == "invalid character"@,
{
    std::error::Error::description(&FromHexError::InvalidHexCharacter(ch, position)).to_owned()
}

impl SlackError {
    /// The full message of this error.
    pub open spec fn message(self) -> Seq<char> {
        match self {
            SlackError::WrongLength => "Must be 7 characters long (including #)"@,
            SlackError::MissingHash => "No leading #"@,
            SlackError::InvalidHex { ch, position } => invalid_character_message(ch, position),
        }
    }

    /// The kind of this error in a few words, without the text that caused it.
    pub open spec fn summary(self) -> Seq<char> {
        match self {
            SlackError::InvalidHex { .. } => "invalid character"@,
            _ => self.message(),
        }
    }

    /// The full message of this error.
    pub fn desc(&self) -> (desc: String)
        ensures
            desc@ == self.message(),
    {
        match *self {
            SlackError::WrongLength => String::from_str("Must be 7 characters long (including #)"),
            SlackError::MissingHash => String::from_str("No leading #"),
            SlackError::InvalidHex { ch, position } => invalid_character_desc(ch, position),
        }
    }

    /// The kind of this error in a few words.
    pub fn description(&self) -> (description: String)
        ensures
            description@ == self.summary(),
    {
        match *self {
            SlackError::InvalidHex { ch, position } => invalid_character_description(ch, position),
            _ => self.desc(),
        }
    }
}

} // verus!
