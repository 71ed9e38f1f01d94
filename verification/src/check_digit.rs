//! The ICAO 9303 check digit: a weighted sum of character values, modulo 10.

use vstd::prelude::*;
use vstd::string::StrSliceExecFns;
use crate::alphabet::{ascii_char_at, is_digit, is_letter, is_mrz_char, is_mrz_text};
use crate::error::Error;

verus! {

/// The value of a character under the algorithm: a digit counts as itself,
/// a letter as 10 to 35, and the filler (like any other character) as 0.
pub open spec fn char_value(c: char) -> int {
    if is_digit(c) {
        c as int - '0' as int
    } else if is_letter(c) {
        c as int - 'A' as int + 10
    } else {
        0
    }
}

/// The weight of the character at `position`: 7, 3, 1, repeating.
pub open spec fn weight(position: int) -> int {
    if position % 3 == 0 {
        7
    } else if position % 3 == 1 {
        3
    } else {
        1
    }
}

/// The sum of the character values of `span`, each multiplied by the weight
/// of its position.
pub open spec fn weighted_sum(span: Seq<char>) -> int
    decreases span.len(),
{
    if span.len() == 0 {
        0
    } else {
        weighted_sum(span.drop_last()) + char_value(span.last()) * weight(span.len() - 1)
    }
}

/// The check digit that belongs to `span`.
pub open spec fn check_digit_of(span: Seq<char>) -> int {
    weighted_sum(span) % 10
}

/// The outcome of holding `span` against the check digit `stated`.
pub open spec fn check_digit_verdict(span: Seq<char>, stated: int) -> Result<(), Error> {
    if !is_mrz_text(span) {
        Err(Error::InvalidChar)
    } else if check_digit_of(span) == stated {
        Ok(())
    } else {
        Err(Error::BadCheckDigit)
    }
}

/// The digit that `text` holds at `index`.
pub open spec fn digit_at(text: Seq<char>, index: int) -> Result<int, Error> {
    if index < 0 || index >= text.len() {
        Err(Error::InvalidFormat)
    } else if is_digit(text[index]) {
        Ok(text[index] as int - '0' as int)
    } else {
        Err(Error::ExpectedDigit)
    }
}

/// Reads the decimal digit at character position `ind` of `full_str`.
pub fn char_to_num(full_str: &str, ind: usize) -> (digit: Result<u32, Error>)
    ensures
        match digit {
            Ok(value) => digit_at(full_str@, ind as int) == Ok::<int, Error>(value as int),
            Err(error) => digit_at(full_str@, ind as int) == Err::<int, Error>(error),
        },
{
    if ind >= full_str.unicode_len() {
        return Err(Error::InvalidFormat);
    }
    let c = full_str.get_char(ind);
    if '0' <= c && c <= '9' {
        Ok(c as u32 - '0' as u32)
    } else {
        Err(Error::ExpectedDigit)
    }
}

/// The value of a character of the MRZ alphabet, or `None` for any other.
pub fn value_of_char(c: char) -> (value: Option<u32>)
    ensures
        value is Some <==> is_mrz_char(c),
        value matches Some(v) ==> v == char_value(c) && v <= 35,
{
    if '0' <= c && c <= '9' {
        Some(c as u32 - '0' as u32)
    } else if 'A' <= c && c <= 'Z' {
        Some(c as u32 - 'A' as u32 + 10)
    } else if c == '<' {
        Some(0)
    } else {
        None
    }
}

/// Verifies `check_digit` against the characters of `slice`.
///
/// Fails with `InvalidChar` if `slice` holds a character outside the MRZ
/// alphabet, and with `BadCheckDigit` if the digit computed from `slice`
/// differs from `check_digit`. The sum is kept modulo 10 throughout, so no
/// length of `slice` can overflow it.
pub fn verify_check_digit(slice: &str, check_digit: u32) -> (verdict: Result<(), Error>)
    ensures
        verdict == check_digit_verdict(slice@, check_digit as int),
{
    if !slice.is_ascii() {
        return Err(Error::InvalidChar);
    }
    let length: usize = slice.unicode_len();
    let mut sum: u32 = 0;
    let mut weight_of_next: u32 = 7;
    let mut index: usize = 0;
    while index < length
        invariant
            slice.is_ascii(),
            length == slice@.len(),
            index <= length,
            is_mrz_text(slice@.take(index as int)),
            sum == check_digit_of(slice@.take(index as int)),
            weight_of_next == weight(index as int),
        decreases length - index,
    {
        let c = ascii_char_at(slice, index);
        proof {
            assert(slice@.take(index + 1).drop_last() =~= slice@.take(index as int));
            assert(slice@.take(index + 1).last() == c);
        }
        match value_of_char(c) {
            None => {
                assert(!is_mrz_char(slice@[index as int]));
                return Err(Error::InvalidChar);
            },
            Some(value) => {
                sum = (sum + value * weight_of_next) % 10;
            },
        }
        weight_of_next = if weight_of_next == 7 {
            3
        } else if weight_of_next == 3 {
            1
        } else {
            7
        };
        index += 1;
    }
    assert(slice@.take(index as int) =~= slice@);
    if check_digit == sum {
        Ok(())
    } else {
        Err(Error::BadCheckDigit)
    }
}

} // verus!
