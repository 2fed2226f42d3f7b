use slack_hook::hex::{first_non_hex_digit, HexColor, HexColorT, SlackColor};
use slack_hook::types::{SlackError, SlackResult};

fn build(text: &str) -> SlackResult<HexColor> {
    HexColorT::new(text)
}

fn refusal(text: &str) -> SlackError {
    build(text).unwrap_err()
}

fn invalid(ch: char, position: usize) -> SlackError {
    SlackError::InvalidHex { ch, position }
}

#[test]
fn builtin_colors_have_their_names() {
    assert_eq!(SlackColor::Good.as_ref(), "good");
    assert_eq!(SlackColor::Warning.as_ref(), "warning");
    assert_eq!(SlackColor::Danger.as_ref(), "danger");
    assert_eq!(SlackColor::Good.to_string(), "good".to_owned());
    assert_eq!(SlackColor::Warning.to_string(), "warning".to_owned());
    assert_eq!(SlackColor::Danger.to_string(), "danger".to_owned());
}

#[test]
fn builtin_colors_build_their_names() {
    let good: HexColor = HexColorT::new(&SlackColor::Good);
    let warning: HexColor = HexColorT::new(&SlackColor::Warning);
    let danger: HexColor = HexColorT::new(&SlackColor::Danger);
    assert_eq!(good.to_text(), "good");
    assert_eq!(warning.to_text(), "warning");
    assert_eq!(danger.to_text(), "danger");
}

#[test]
fn color_names_are_accepted_as_text() {
    assert_eq!(build("good").unwrap().to_text(), "good");
    assert_eq!(build("warning").unwrap().to_text(), "warning");
    assert_eq!(build("danger").unwrap().to_text(), "danger");
}

#[test]
fn color_names_are_matched_letter_for_letter() {
    assert_eq!(refusal("Good"), SlackError::WrongLength);
    assert_eq!(refusal("DANGER"), SlackError::WrongLength);
    assert_eq!(refusal("good "), SlackError::WrongLength);
    assert_eq!(refusal("WARNING"), SlackError::MissingHash);
    assert_eq!(refusal("Warning"), SlackError::MissingHash);
}

#[test]
fn other_lengths_are_refused() {
    assert_eq!(refusal(""), SlackError::WrongLength);
    assert_eq!(refusal("#"), SlackError::WrongLength);
    assert_eq!(refusal("#12345"), SlackError::WrongLength);
    assert_eq!(refusal("#1234567"), SlackError::WrongLength);
    assert_eq!(refusal("123456"), SlackError::WrongLength);
    assert_eq!(refusal("#zzzzzzzzz"), SlackError::WrongLength);
}

#[test]
fn length_is_counted_in_characters() {
    // seven bytes, four characters
    assert_eq!(refusal("#\u{e9}\u{e9}\u{e9}"), SlackError::WrongLength);
    // seven characters, eight bytes
    assert_eq!(refusal("#\u{e9}12345"), invalid('\u{e9}', 0));
    assert_eq!(refusal("#12345\u{20ac}"), invalid('\u{20ac}', 5));
    assert_eq!(refusal("\u{e9}123456"), SlackError::MissingHash);
}

#[test]
fn seven_characters_without_hash_are_refused() {
    assert_eq!(refusal("1234567"), SlackError::MissingHash);
    assert_eq!(refusal("abcdef#"), SlackError::MissingHash);
    assert_eq!(refusal(" #12345"), SlackError::MissingHash);
    assert_eq!(refusal("zzzzzzz"), SlackError::MissingHash);
}

#[test]
fn first_character_that_is_no_digit_is_named() {
    assert_eq!(refusal("#abc12z"), invalid('z', 5));
    assert_eq!(refusal("#zbc12z"), invalid('z', 0));
    assert_eq!(refusal("#a-c1!z"), invalid('-', 1));
    assert_eq!(refusal("#12#456"), invalid('#', 2));
    assert_eq!(refusal("#######"), invalid('#', 0));
}

#[test]
fn neighbours_of_the_digits_are_refused() {
    assert_eq!(refusal("#00000/"), invalid('/', 5));
    assert_eq!(refusal("#00000:"), invalid(':', 5));
    assert_eq!(refusal("#00000@"), invalid('@', 5));
    assert_eq!(refusal("#00000G"), invalid('G', 5));
    assert_eq!(refusal("#00000`"), invalid('`', 5));
    assert_eq!(refusal("#00000g"), invalid('g', 5));
}

#[test]
fn blanks_are_no_digits() {
    assert_eq!(refusal("#12  34"), invalid(' ', 2));
    assert_eq!(refusal("#12 345"), invalid(' ', 2));
    assert_eq!(refusal("#12345 "), invalid(' ', 5));
    assert_eq!(refusal("#      "), invalid(' ', 0));
    assert_eq!(refusal("#1\t2\t34"), invalid('\t', 1));
    assert_eq!(refusal("#12\r\n34"), invalid('\r', 2));
    assert_eq!(refusal("#1234\n5"), invalid('\n', 4));
}

#[test]
fn blank_before_another_refused_character_comes_first() {
    assert_eq!(refusal("# 1z345"), invalid(' ', 0));
    assert_eq!(refusal("#1 z345"), invalid(' ', 1));
    assert_eq!(refusal("#1z 345"), invalid('z', 1));
    assert_eq!(refusal("#z    1"), invalid('z', 0));
}

#[test]
fn hex_codes_are_kept_as_written() {
    for text in ["#000000", "#999999", "#abcdef", "#ABCDEF", "#aBcDeF", "#ffffff", "#FFFFFF", "#b13d41"] {
        assert_eq!(build(text).unwrap().to_text(), text);
    }
}

#[test]
fn building_from_the_text_of_a_color_gives_it_again() {
    for text in ["good", "warning", "danger", "#103D18", "#103d18"] {
        let first = build(text).unwrap();
        let second = build(&first.to_text()).unwrap();
        assert_eq!(second.to_text(), first.to_text());
        assert_eq!(second.to_text(), text);
    }
    let builtin: HexColor = HexColorT::new(&SlackColor::Warning);
    assert_eq!(build(&builtin.to_text()).unwrap().to_text(), "warning");
}

#[test]
fn messages_of_the_errors() {
    assert_eq!(SlackError::WrongLength.desc(), "Must be 7 characters long (including #)");
    assert_eq!(SlackError::MissingHash.desc(), "No leading #");
    assert_eq!(invalid('z', 5).desc(), "Invalid character 'z' at position 5");
    assert_eq!(invalid(' ', 0).desc(), "Invalid character ' ' at position 0");
    assert_eq!(invalid('\'', 9).desc(), "Invalid character ''' at position 9");
    assert_eq!(invalid('\u{e9}', 10).desc(), "Invalid character '\u{e9}' at position 10");
    assert_eq!(invalid('x', 1234567890).desc(), "Invalid character 'x' at position 1234567890");
}

#[test]
fn short_descriptions_of_the_errors() {
    assert_eq!(SlackError::WrongLength.description(), "Must be 7 characters long (including #)");
    assert_eq!(SlackError::MissingHash.description(), "No leading #");
    assert_eq!(invalid('z', 5).description(), "invalid character");
    assert_eq!(invalid('#', 0).description(), "invalid character");
}

#[test]
fn first_non_hex_digit_of_digits_only() {
    assert_eq!(first_non_hex_digit(""), None);
    assert_eq!(first_non_hex_digit("0"), None);
    assert_eq!(first_non_hex_digit("123"), None);
    assert_eq!(first_non_hex_digit("0123456789abcdefABCDEF"), None);
}

#[test]
fn first_non_hex_digit_finds_the_first() {
    assert_eq!(first_non_hex_digit("z"), Some(0));
    assert_eq!(first_non_hex_digit(" "), Some(0));
    assert_eq!(first_non_hex_digit("12 z"), Some(2));
    assert_eq!(first_non_hex_digit("12z "), Some(2));
    assert_eq!(first_non_hex_digit("1 2"), Some(1));
    assert_eq!(first_non_hex_digit("12 3"), Some(2));
    assert_eq!(first_non_hex_digit("abcdefg"), Some(6));
    assert_eq!(first_non_hex_digit("ab\u{e9}"), Some(2));
    assert_eq!(first_non_hex_digit("\u{e9}\tz"), Some(0));
    assert_eq!(first_non_hex_digit("0123456789abcdefABCDEF\n"), Some(22));
}
