use valida_rfc::clock::ClockError;
use valida_rfc::pattern::Matcher;
use valida_rfc::service::{validate, validate_at, ValidationRequest, ValidationResponse};

fn matcher() -> Matcher {
    Matcher::new().expect("the pattern compiles")
}

fn answer(input: &str) -> ValidationResponse {
    validate(&matcher(), &ValidationRequest { rfc: input.to_string() }).expect("the clock reads a time")
}

#[test]
fn the_pattern_compiles() {
    assert!(Matcher::new().is_ok());
}

#[test]
fn empty_input_is_invalid() {
    let response = answer("");
    assert_eq!(response.rfc, "");
    assert!(!response.is_valid);
}

#[test]
fn white_space_alone_is_invalid() {
    let response = answer(" \t\r\n ");
    assert_eq!(response.rfc, "");
    assert!(!response.is_valid);
}

#[test]
fn padded_lower_case_input_is_normalized_and_valid() {
    let response = answer("  abc123456  ");
    assert_eq!(response.rfc, "ABC123456");
    assert!(response.is_valid);
}

#[test]
fn twelve_character_form_is_valid() {
    let response = answer("ABC123456XY1");
    assert_eq!(response.rfc, "ABC123456XY1");
    assert!(response.is_valid);
}

#[test]
fn thirteen_character_form_is_valid() {
    let response = answer("ABCD123456XY1");
    assert_eq!(response.rfc, "ABCD123456XY1");
    assert!(response.is_valid);
}

#[test]
fn four_letters_and_six_digits_are_valid() {
    assert!(answer("ABCD123456").is_valid);
}

#[test]
fn two_leading_letters_are_invalid() {
    let response = answer("AB123456");
    assert_eq!(response.rfc, "AB123456");
    assert!(!response.is_valid);
}

#[test]
fn five_leading_letters_are_invalid() {
    assert!(!answer("ABCDE123456").is_valid);
}

#[test]
fn wrong_digit_and_suffix_lengths_are_invalid() {
    let response = answer("ABCD1234567890");
    assert_eq!(response.rfc, "ABCD1234567890");
    assert!(!response.is_valid);
}

#[test]
fn five_digits_are_invalid() {
    assert!(!answer("ABC12345").is_valid);
}

#[test]
fn a_suffix_of_one_two_or_four_characters_is_invalid() {
    assert!(!answer("ABC123456X").is_valid);
    assert!(!answer("ABC123456XY").is_valid);
    assert!(!answer("ABC123456XY12").is_valid);
}

#[test]
fn a_suffix_with_a_sign_is_invalid() {
    assert!(!answer("ABC123456X&1").is_valid);
    assert!(!answer("ABC123456X-1").is_valid);
}

#[test]
fn ampersand_and_enye_count_as_letters() {
    assert!(answer("A&B123456").is_valid);
    assert!(answer("\u{d1}AB123456").is_valid);
    assert!(answer("&&&&123456ABC").is_valid);
}

#[test]
fn lower_case_enye_is_upper_cased_first() {
    let response = answer("\u{f1}ab123456xy1");
    assert_eq!(response.rfc, "\u{d1}AB123456XY1");
    assert!(response.is_valid);
}

#[test]
fn other_accented_letters_do_not_match() {
    let response = answer("\u{e1}bc123456");
    assert_eq!(response.rfc, "\u{c1}BC123456");
    assert!(!response.is_valid);
}

#[test]
fn interior_white_space_is_kept_and_invalid() {
    let response = answer(" abc 123456 ");
    assert_eq!(response.rfc, "ABC 123456");
    assert!(!response.is_valid);
    assert!(!answer("ABC123456 XY1").is_valid);
}

#[test]
fn a_line_break_at_the_end_is_trimmed_away() {
    let response = answer("abc123456\n");
    assert_eq!(response.rfc, "ABC123456");
    assert!(response.is_valid);
}

#[test]
fn the_match_spans_the_whole_text() {
    assert!(!answer("XABCD123456").is_valid);
    assert!(!answer("-ABC123456").is_valid);
    assert!(!answer("ABC123456-").is_valid);
    assert!(!answer("ABC123456\nABC123456").is_valid);
}

#[test]
fn the_matcher_takes_the_text_as_it_stands() {
    let matcher = matcher();
    assert!(matcher.is_match("ABC123456"));
    assert!(!matcher.is_match("abc123456"));
    assert!(!matcher.is_match(" ABC123456"));
    assert!(!matcher.is_match("ABC123456 "));
    assert!(!matcher.is_match(""));
}

#[test]
fn the_same_input_gives_the_same_answer() {
    let matcher = matcher();
    let request = ValidationRequest { rfc: "  xaxx010101000 ".to_string() };
    let first = validate(&matcher, &request).expect("the clock reads a time");
    let second = validate(&matcher, &request).expect("the clock reads a time");
    assert_eq!(first.rfc, "XAXX010101000");
    assert_eq!(first.rfc, second.rfc);
    assert!(first.is_valid);
    assert_eq!(first.is_valid, second.is_valid);
    let other = validate(&Matcher::new().expect("the pattern compiles"), &request)
        .expect("the clock reads a time");
    assert_eq!(first.rfc, other.rfc);
    assert_eq!(first.is_valid, other.is_valid);
}

#[test]
fn the_answer_carries_the_moment_it_is_given() {
    let request = ValidationRequest { rfc: "abc123456".to_string() };
    let response = validate_at(&matcher(), &request, 1_714_979_289, 0).expect("the moment has a text");
    assert_eq!(response.rfc, "ABC123456");
    assert!(response.is_valid);
    assert_eq!(response.created_at, "2024-05-06T07:08:09+00:00");
}

#[test]
fn an_invalid_text_is_answered_and_stamped_like_any_other() {
    let request = ValidationRequest { rfc: "ab 1".to_string() };
    let response =
        validate_at(&matcher(), &request, 1_714_979_289, 123_000_000).expect("the moment has a text");
    assert_eq!(response.rfc, "AB 1");
    assert!(!response.is_valid);
    assert_eq!(response.created_at, "2024-05-06T07:08:09.123+00:00");
}

#[test]
fn a_moment_without_text_is_refused() {
    let request = ValidationRequest { rfc: "abc123456".to_string() };
    let late = validate_at(&matcher(), &request, 253_402_300_800, 0);
    assert_eq!(late.err(), Some(ClockError::OutOfRange));
    let split = validate_at(&matcher(), &request, 0, 1_000_000_000);
    assert_eq!(split.err(), Some(ClockError::OutOfRange));
}

#[test]
fn digits_beyond_ascii_are_no_digits() {
    let arabic_indic = answer("ABC\u{661}\u{662}\u{663}\u{664}\u{665}\u{666}");
    assert_eq!(arabic_indic.rfc, "ABC\u{661}\u{662}\u{663}\u{664}\u{665}\u{666}");
    assert!(!arabic_indic.is_valid);
    assert!(!answer("ABC12345\u{666}").is_valid);
    assert!(!answer("ABC\u{ff11}\u{ff12}\u{ff13}\u{ff14}\u{ff15}\u{ff16}").is_valid);
    assert!(!answer("ABC123456XY\u{661}").is_valid);
    assert!(!matcher().is_match("ABCD\u{967}\u{968}\u{969}\u{96a}\u{96b}\u{96c}"));
}

#[test]
fn the_answer_is_stamped_with_a_time_that_parses() {
    let response = answer("AB123456");
    assert!(chrono::DateTime::parse_from_rfc3339(&response.created_at).is_ok());
}

#[test]
fn normalizing_an_answer_again_changes_nothing() {
    for input in ["  abc123456  ", "", " \u{f1}ab 123456 ", "stra\u{df}e\t", "ABC123456XY1"] {
        let once = answer(input);
        let twice = answer(&once.rfc);
        assert_eq!(once.rfc, twice.rfc);
        assert_eq!(once.is_valid, twice.is_valid);
    }
}
