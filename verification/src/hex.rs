//! The colour of a message attachment.
//!
//! A colour is either one of the three names that Slack gives to its own
//! colours, or `#` followed by six hexadecimal digits. [`HexColor`] holds
//! such a text and nothing else: it is checked once, when the value is
//! built, and kept as it was written.

use crate::digits::{decodable_before, decode_hex, is_blank_char, is_hex_digit, DecodeError};
use crate::types::{SlackError, SlackResult};
use vstd::prelude::*;

verus! {

/// Default slack colors built-in to the API
#[derive(Copy, Clone, Debug, PartialEq, Eq, Structural)]
pub enum SlackColor {
    /// green
    Good,
    /// orange
    Warning,
    /// red
    Danger,
}

/// The word by which Slack knows a built-in colour.
pub open spec fn color_name(color: SlackColor) -> Seq<char> {
    match color {
        SlackColor::Good => "good"@,
        SlackColor::Warning => "warning"@,
        SlackColor::Danger => "danger"@,
    }
}

impl AsRef<str> for SlackColor {
    fn as_ref(&self) -> (name: &str)
        ensures
            name@ == color_name(*self),
    {
        match *self {
            SlackColor::Good => "good",
            SlackColor::Warning => "warning",
            SlackColor::Danger => "danger",
        }
    }
}

impl ToString for SlackColor {
    fn to_string(&self) -> (name: String)
        ensures
            name@ == color_name(*self),
    {
        String::from_str(self.as_ref())
    }
}

/// Whether `text` is the name of a built-in colour, letter for letter.
pub open spec fn is_color_name(text: Seq<char>) -> bool {
    ||| text == color_name(SlackColor::Good)
    ||| text == color_name(SlackColor::Warning)
    ||| text == color_name(SlackColor::Danger)
}

/// Whether `text` is `#` followed by six hexadecimal digits.
pub open spec fn is_hex_code(text: Seq<char>) -> bool {
    &&& text.len() == 7
    &&& text[0] == '#'
    &&& forall|i: int| 1 <= i < 7 ==> is_hex_digit(#[trigger] text[i])
}

/// Whether `text` is a colour: a built-in name or a hexadecimal code.
pub open spec fn is_color_text(text: Seq<char>) -> bool {
    is_color_name(text) || is_hex_code(text)
}

/// The place of the first character of `text` that is no hexadecimal
/// digit, counted from zero; `None` where every character is one.
pub open spec fn first_non_hex(text: Seq<char>) -> Option<nat>
    decreases text.len(),
{
    if text.len() == 0 {
        None
    } else if !is_hex_digit(text[0]) {
        Some(0)
    } else {
        match first_non_hex(text.skip(1)) {
            Some(i) => Some(i + 1),
            None => None,
        }
    }
}

/// What building a colour from `text` ends in: the text itself where it is
/// a colour, and else the first reason to refuse it.
pub open spec fn hex_color_of(text: Seq<char>) -> Result<Seq<char>, SlackError> {
    if is_color_name(text) {
        Ok(text)
    } else if text.len() != 7 {
        Err(SlackError::WrongLength)
    } else if text[0] != '#' {
        Err(SlackError::MissingHash)
    } else {
        match first_non_hex(text.skip(1)) {
            Some(i) => Err(SlackError::InvalidHex { ch: text[i as int + 1], position: i as usize }),
            None => Ok(text),
        }
    }
}

/// `first_non_hex` finds a character that is no hexadecimal digit and has
/// only hexadecimal digits before it, and finds none only where there is
/// none.
pub proof fn lemma_first_non_hex(text: Seq<char>)
    ensures
        match first_non_hex(text) {
            Some(i) => {
                &&& i < text.len()
                &&& !is_hex_digit(text[i as int])
                &&& forall|j: int| 0 <= j < i ==> is_hex_digit(#[trigger] text[j])
            },
            None => forall|j: int| 0 <= j < text.len() ==> is_hex_digit(#[trigger] text[j]),
        },
    decreases text.len(),
{
    if text.len() > 0 && is_hex_digit(text[0]) {
        let rest = text.skip(1);
        lemma_first_non_hex(rest);
        assert forall|j: int| 1 <= j < text.len() implies text[j] == rest[j - 1] by {}
        match first_non_hex(rest) {
            Some(i) => {
                assert forall|j: int| 0 <= j < i + 1 implies is_hex_digit(#[trigger] text[j]) by {
                    if j > 0 {
                        assert(is_hex_digit(rest[j - 1]));
                    }
                }
            },
            None => {
                assert forall|j: int| 0 <= j < text.len() implies is_hex_digit(
                    #[trigger] text[j],
                ) by {
                    if j > 0 {
                        assert(is_hex_digit(rest[j - 1]));
                    }
                }
            },
        }
    }
}

/// A built-in colour name is no hexadecimal code: none of the three starts
/// with `#`.
pub proof fn lemma_color_name_is_no_hex_code(text: Seq<char>)
    requires
        is_color_name(text),
    ensures
        text.len() > 0,
        text[0] != '#',
        !is_hex_code(text),
{
    reveal_strlit("good");
    reveal_strlit("warning");
    reveal_strlit("danger");
}

/// Building from the name of a built-in colour succeeds and keeps the name.
pub proof fn lemma_color_name_accepted(color: SlackColor)
    ensures
        is_color_name(color_name(color)),
        hex_color_of(color_name(color)) == Ok::<Seq<char>, SlackError>(color_name(color)),
{
}

/// A text that is no built-in name and does not have seven characters is
/// refused for its length, whatever it holds.
pub proof fn lemma_wrong_length(text: Seq<char>)
    requires
        !is_color_name(text),
        text.len() != 7,
    ensures
        hex_color_of(text) == Err::<Seq<char>, SlackError>(SlackError::WrongLength),
{
}

/// A text of seven characters that is no built-in name and does not start
/// with `#` is refused for the missing `#`.
pub proof fn lemma_missing_hash(text: Seq<char>)
    requires
        !is_color_name(text),
        text.len() == 7,
        text[0] != '#',
    ensures
        hex_color_of(text) == Err::<Seq<char>, SlackError>(SlackError::MissingHash),
{
}

/// Where `#` is followed by six characters and the one at `i` is the first
/// of them that is no hexadecimal digit, the text is refused with that
/// character and its place after the `#`.
pub proof fn lemma_invalid_hex(text: Seq<char>, i: int)
    requires
        text.len() == 7,
        text[0] == '#',
        1 <= i < 7,
        !is_hex_digit(text[i]),
        forall|j: int| 1 <= j < i ==> is_hex_digit(#[trigger] text[j]),
    ensures
        hex_color_of(text) == Err::<Seq<char>, SlackError>(
            SlackError::InvalidHex { ch: text[i], position: (i - 1) as usize },
        ),
{
    if is_color_name(text) {
        lemma_color_name_is_no_hex_code(text);
    }
    let digits = text.skip(1);
    lemma_first_non_hex(digits);
    assert(!is_hex_digit(digits[i - 1]));
    assert forall|j: int| 0 <= j < i - 1 implies is_hex_digit(#[trigger] digits[j]) by {
        assert(is_hex_digit(text[j + 1]));
    }
}

/// Where `#` is followed by six characters and any of them is no
/// hexadecimal digit, the text is refused with the first such character.
pub proof fn lemma_non_hex_refused(text: Seq<char>, i: int)
    requires
        text.len() == 7,
        text[0] == '#',
        1 <= i < 7,
        !is_hex_digit(text[i]),
    ensures
        hex_color_of(text) matches Err(SlackError::InvalidHex { ch, position }) && {
            &&& position < i
            &&& ch == text[position + 1]
            &&& !is_hex_digit(ch)
            &&& forall|j: int| 1 <= j <= position ==> is_hex_digit(#[trigger] text[j])
        },
{
    if is_color_name(text) {
        lemma_color_name_is_no_hex_code(text);
    }
    let digits = text.skip(1);
    lemma_first_non_hex(digits);
    assert(!is_hex_digit(digits[i - 1]));
    match first_non_hex(digits) {
        Some(p) => {
            assert forall|j: int| 1 <= j <= p implies is_hex_digit(#[trigger] text[j]) by {
                assert(is_hex_digit(digits[j - 1]));
            }
        },
        None => {},
    }
}

/// `#` and six hexadecimal digits, in either case, are accepted as they
/// stand.
pub proof fn lemma_hex_code_accepted(text: Seq<char>)
    requires
        is_hex_code(text),
    ensures
        hex_color_of(text) == Ok::<Seq<char>, SlackError>(text),
{
    let digits = text.skip(1);
    lemma_first_non_hex(digits);
    if let Some(p) = first_non_hex(digits) {
        assert(is_hex_digit(text[p as int + 1]));
    }
}

/// The texts that are accepted are the colours, and an accepted text is
/// kept as it is.
pub proof fn lemma_accepted_iff_color(text: Seq<char>)
    ensures
        hex_color_of(text) is Ok <==> is_color_text(text),
        hex_color_of(text) is Ok ==> hex_color_of(text) == Ok::<Seq<char>, SlackError>(text),
{
    if is_color_name(text) {
    } else if is_hex_code(text) {
        lemma_hex_code_accepted(text);
    } else if text.len() == 7 && text[0] == '#' {
        let i = choose|i: int| 1 <= i < 7 && !is_hex_digit(#[trigger] text[i]);
        lemma_non_hex_refused(text, i);
    }
}

/// Building a colour from the text of a colour gives the same colour
/// again.
pub proof fn lemma_round_trip(text: Seq<char>)
    ensures
        hex_color_of(text) matches Ok(kept) ==> hex_color_of(kept) == hex_color_of(text),
{
    lemma_accepted_iff_color(text);
}

/// The place of the first character of `digits` that is no hexadecimal
/// digit, if there is one.
///
/// The decoder names the first character that is neither a digit nor
/// blank. A blank is no digit either, so one that stands before that
/// character comes first. Looking for it reads the text anew for each
/// character: this is meant for short texts.
pub fn first_non_hex_digit(digits: &str) -> (found: Option<usize>)
    ensures
        match found {
            Some(i) => first_non_hex(digits@) == Some(i as nat),
            None => first_non_hex(digits@) is None,
        },
{
    let refused = match decode_hex(digits) {
        Err(DecodeError::InvalidCharacter(_, i)) => Some(i),
        _ => None,
    };
    let end = match refused {
        Some(i) => i,
        None => digits.unicode_len(),
    };
    let mut k: usize = 0;
    while k < end
        invariant
            k <= end <= digits@.len(),
            decodable_before(digits@, end as int),
            forall|j: int| 0 <= j < k ==> is_hex_digit(#[trigger] digits@[j]),
        decreases end - k,
    {
        if is_blank_char(digits.get_char(k)) {
            proof {
                lemma_first_non_hex(digits@);
            }
            return Some(k);
        }
        k += 1;
    }
    proof {
        lemma_first_non_hex(digits@);
    }
    refused
}

/// The `HexColor` string can be one of:
///
/// 1. `good`, `warning`, `danger`
/// 2. The built-in enums: `SlackColor::Good`, etc.
/// 3. Any valid hex color code: `#b13d41`
///
/// hex color codes will be checked to ensure a valid hex number is provided
#[derive(Debug)]
pub struct HexColor(String);

impl View for HexColor {
    type V = Seq<char>;

    /// The text of the colour.
    closed spec fn view(&self) -> Seq<char> {
        self.0@
    }
}

impl HexColor {
    #[verifier::type_invariant]
    spec fn holds_color_text(self) -> bool {
        is_color_text(self.0@)
    }

    /// The text of the colour, as it goes into a message: the name or the
    /// code that the colour was built from, unchanged.
    pub fn to_text(&self) -> (text: String)
        ensures
            text@ == self@,
            is_color_text(text@),
    {
        proof {
            use_type_invariant(self);
        }
        self.0.clone()
    }
}

/// Trait to support constructing `HexColors` via different types
pub trait HexColorT: Sized {
    /// &T is input type for constructor
    type T: ?Sized;

    /// construct new instance of Self for type T
    fn new(t: &Self::T) -> Self;
}

impl HexColorT for SlackResult<HexColor> {
    type T = str;

    /// Builds a colour from a text: a built-in name, or `#` and six
    /// hexadecimal digits in either case.
    fn new(s: &str) -> (built: SlackResult<HexColor>)
        ensures
            match built {
                Ok(color) => hex_color_of(s@) == Ok::<Seq<char>, SlackError>(color@),
                Err(e) => hex_color_of(s@) == Err::<Seq<char>, SlackError>(e),
            },
    {
        s.into_hex_color()
    }
}

impl HexColorT for HexColor {
    type T = SlackColor;

    /// Builds a built-in colour.
    fn new(color: &SlackColor) -> (built: HexColor)
        ensures
            built@ == color_name(*color),
    {
        HexColor(color.to_string())
    }
}

/// A trait for turning self into a `HexColor`
trait IntoHexColor {
    /// function to attempt to make a `HexColor` from `self`
    fn into_hex_color(self) -> SlackResult<HexColor>;
}

/// Whether `text` names a built-in colour.
fn is_slack_color(text: &String) -> (named: bool)
    ensures
        named == is_color_name(text@),
{
    *text == SlackColor::Good.to_string() || *text == SlackColor::Warning.to_string() || *text
        == SlackColor::Danger.to_string()
}

impl<'a> IntoHexColor for &'a str {
    /// Attempt to convert a &str into a `HexColor`
    fn into_hex_color(self) -> (built: SlackResult<HexColor>)
        ensures
            match built {
                Ok(color) => hex_color_of(self@) == Ok::<Seq<char>, SlackError>(color@),
                Err(e) => hex_color_of(self@) == Err::<Seq<char>, SlackError>(e),
            },
    {
        let text = self.to_owned();
        if is_slack_color(&text) {
            return Ok(HexColor(text));
        }
        if self.unicode_len() != 7 {
            return Err(SlackError::WrongLength);
        }
        if self.get_char(0) != '#' {
            return Err(SlackError::MissingHash);
        }
        // see if the remaining part of the string is actually hex
        let digits = self.substring_char(1, 7);
        proof {
            assert(digits@ == self@.skip(1));
            lemma_first_non_hex(digits@);
        }
        match first_non_hex_digit(digits) {
            Some(position) => Err(
                SlackError::InvalidHex { ch: digits.get_char(position), position },
            ),
            None => {
                proof {
                    assert forall|i: int| 1 <= i < 7 implies is_hex_digit(#[trigger] self@[i]) by {
                        assert(self@[i] == digits@[i - 1]);
                    }
                }
                Ok(HexColor(text))
            },
        }
    }
}

} // verus!
