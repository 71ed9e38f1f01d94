use mrtd::check_digit::{char_to_num, value_of_char, verify_check_digit};
use mrtd::Error;

#[test]
fn check_digit_of_a_date() {
    // 5*7 + 2*3 + 0*1 + 7*7 + 2*3 + 7*1 = 103
    assert_eq!(verify_check_digit("520727", 3), Ok(()));
    assert_eq!(verify_check_digit("740812", 2), Ok(()));
    assert_eq!(verify_check_digit("120415", 9), Ok(()));
}

#[test]
fn check_digit_of_letters_and_fillers() {
    assert_eq!(verify_check_digit("L898902C3", 6), Ok(()));
    assert_eq!(verify_check_digit("AB2134<<<", 5), Ok(()));
    assert_eq!(verify_check_digit("ZE184226B<<<<<", 1), Ok(()));
    assert_eq!(verify_check_digit("ZZZZZZZZZ", 5), Ok(()));
}

#[test]
fn check_digit_of_the_whole_alphabet() {
    assert_eq!(verify_check_digit("0123456789ABCDEFGHIJKLMNOPQRSTUVWXYZ<", 8), Ok(()));
}

#[test]
fn check_digit_of_nothing_is_zero() {
    assert_eq!(verify_check_digit("", 0), Ok(()));
    assert_eq!(verify_check_digit("", 1), Err(Error::BadCheckDigit));
    assert_eq!(verify_check_digit("<<<<<<", 0), Ok(()));
}

#[test]
fn check_digit_weights_repeat_seven_three_one() {
    assert_eq!(verify_check_digit("1", 7), Ok(()));
    assert_eq!(verify_check_digit("01", 3), Ok(()));
    assert_eq!(verify_check_digit("001", 1), Ok(()));
    assert_eq!(verify_check_digit("0001", 7), Ok(()));
    assert_eq!(verify_check_digit("00001", 3), Ok(()));
    assert_eq!(verify_check_digit("000001", 1), Ok(()));
}

#[test]
fn check_digit_mismatch_is_bad_check_digit() {
    assert_eq!(verify_check_digit("520727", 4), Err(Error::BadCheckDigit));
    assert_eq!(verify_check_digit("520727", 13), Err(Error::BadCheckDigit));
    assert_eq!(verify_check_digit("L898902C3", 0), Err(Error::BadCheckDigit));
}

#[test]
fn check_digit_of_other_characters_is_invalid_char() {
    assert_eq!(verify_check_digit("52a727", 3), Err(Error::InvalidChar));
    assert_eq!(verify_check_digit("52 727", 3), Err(Error::InvalidChar));
    assert_eq!(verify_check_digit("520727\n", 3), Err(Error::InvalidChar));
    assert_eq!(verify_check_digit("52\u{e9}727", 3), Err(Error::InvalidChar));
    assert_eq!(verify_check_digit("\u{1f47a}", 0), Err(Error::InvalidChar));
}

#[test]
fn check_digit_of_a_very_long_span_does_not_overflow() {
    let span = "Z".repeat(3_000_000);
    // Each group of three Z weighs 35 * 11 = 385, and 385 * 1_000_000 ends in 0.
    assert_eq!(verify_check_digit(&span, 0), Ok(()));
}

#[test]
fn values_of_characters() {
    assert_eq!(value_of_char('0'), Some(0));
    assert_eq!(value_of_char('9'), Some(9));
    assert_eq!(value_of_char('A'), Some(10));
    assert_eq!(value_of_char('K'), Some(20));
    assert_eq!(value_of_char('Z'), Some(35));
    assert_eq!(value_of_char('<'), Some(0));
    assert_eq!(value_of_char('a'), None);
    assert_eq!(value_of_char(' '), None);
    assert_eq!(value_of_char('>'), None);
    assert_eq!(value_of_char('\u{e9}'), None);
}

#[test]
fn digit_at_a_position() {
    assert_eq!(char_to_num("A7<", 1), Ok(7));
    assert_eq!(char_to_num("0", 0), Ok(0));
    assert_eq!(char_to_num("A79", 2), Ok(9));
}

#[test]
fn digit_expected_where_there_is_none() {
    assert_eq!(char_to_num("A7<", 0), Err(Error::ExpectedDigit));
    assert_eq!(char_to_num("A7<", 2), Err(Error::ExpectedDigit));
    assert_eq!(char_to_num("\u{663}", 0), Err(Error::ExpectedDigit));
}

#[test]
fn digit_beyond_the_end_is_invalid_format() {
    assert_eq!(char_to_num("A7<", 3), Err(Error::InvalidFormat));
    assert_eq!(char_to_num("", 0), Err(Error::InvalidFormat));
}

#[test]
fn digit_position_counts_characters_not_bytes() {
    assert_eq!(char_to_num("\u{e9}5", 1), Ok(5));
    assert_eq!(char_to_num("\u{e9}5", 2), Err(Error::InvalidFormat));
}
