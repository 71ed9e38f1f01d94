//! Calendar dates, and the six-digit `YYMMDD` fields that encode them.
//!
//! The Gregorian calendar itself is chrono's: whether a day exists is asked of
//! `chrono::NaiveDate`, and the current year of `chrono::Utc`.

use vstd::prelude::*;
use vstd::string::StrSliceExecFns;
use chrono::{Datelike, NaiveDate, Utc};
use crate::alphabet::{ascii_char_at, is_digit};
use crate::error::Error;

verus! {

/// The earliest year that a date can lie in.
pub const MIN_YEAR: i32 = -262_143;

/// The latest year that a date can lie in.
pub const MAX_YEAR: i32 = 262_142;

/// Whether `year` of the proleptic Gregorian calendar has a 29th of February.
pub open spec fn is_leap_year(year: int) -> bool {
    year % 4 == 0 && (year % 100 != 0 || year % 400 == 0)
}

/// The number of days of `month` (1 to 12) in `year`.
pub open spec fn days_in_month(year: int, month: int) -> int {
    if month == 2 {
        if is_leap_year(year) {
            29
        } else {
            28
        }
    } else if month == 4 || month == 6 || month == 9 || month == 11 {
        30
    } else {
        31
    }
}

/// Whether the given day exists in the proleptic Gregorian calendar, in a year
/// that a date can lie in.
pub open spec fn is_calendar_date(year: int, month: int, day: int) -> bool {
    &&& MIN_YEAR <= year <= MAX_YEAR
    &&& 1 <= month <= 12
    &&& 1 <= day <= days_in_month(year, month)
}

/// Asks chrono whether a calendar day exists.
///
/// Calls `chrono::NaiveDate::from_ymd_opt` and reports whether it returned a
/// date. Trusted: chrono returns `None` when the month or the day is out of
/// range, when the day does not exist in that month of that year, and when
/// the year lies outside the years from `MIN_YEAR` to `MAX_YEAR`, and a date
/// otherwise.
#[verifier::external_body]
fn calendar_date_exists(year: i32, month: u32, day: u32) -> (valid: bool)
    ensures
        valid == is_calendar_date(year as int, month as int, day as int),
{
    NaiveDate::from_ymd_opt(year, month, day).is_some()
}

/// Reads the current year from the system clock, in UTC.
///
/// Calls `chrono::Utc::now` and takes the year of the result with
/// `chrono::Datelike::year`. Trusted, and nothing is claimed of the result.
///
/// # Panics
///
/// `chrono::Utc::now` panics if the system clock is set to a time before
/// 1970.
#[verifier::external_body]
pub(crate) fn current_utc_year() -> i32 {
    Utc::now().year()
}

/// A calendar date as year, month and day numbers.
pub struct DateView {
    pub year: int,
    pub month: int,
    pub day: int,
}

impl DateView {
    /// Whether the three numbers name a day that exists.
    pub open spec fn is_valid(self) -> bool {
        is_calendar_date(self.year, self.month, self.day)
    }
}

/// A day of the proleptic Gregorian calendar. Every value is a day that
/// exists.
#[derive(Debug, Clone, Copy, PartialEq, Eq, Structural, PartialOrd, Ord, Hash)]
pub struct Date {
    year: i32,
    month: u32,
    day: u32,
}

impl View for Date {
    type V = DateView;

    closed spec fn view(&self) -> DateView {
        DateView { year: self.year as int, month: self.month as int, day: self.day as int }
    }
}

impl Date {
    #[verifier::type_invariant]
    spec fn exists_in_calendar(self) -> bool {
        is_calendar_date(self.year as int, self.month as int, self.day as int)
    }

    /// Makes a date from year, month and day numbers, or `None` if there is
    /// no such day.
    pub fn from_ymd_opt(year: i32, month: u32, day: u32) -> (date: Option<Date>)
        ensures
            date is Some <==> is_calendar_date(year as int, month as int, day as int),
            date matches Some(d) ==> d@ == (DateView {
                year: year as int,
                month: month as int,
                day: day as int,
            }),
    {
        if calendar_date_exists(year, month, day) {
            Some(Date { year, month, day })
        } else {
            None
        }
    }

    /// The year number.
    pub fn year(&self) -> (year: i32)
        ensures
            year == self@.year,
            self@.is_valid(),
    {
        proof {
            use_type_invariant(self);
        }
        self.year
    }

    /// The month number, starting from 1.
    pub fn month(&self) -> (month: u32)
        ensures
            month == self@.month,
            self@.is_valid(),
    {
        proof {
            use_type_invariant(self);
        }
        self.month
    }

    /// The day of the month, starting from 1.
    pub fn day(&self) -> (day: u32)
        ensures
            day == self@.day,
            self@.is_valid(),
    {
        proof {
            use_type_invariant(self);
        }
        self.day
    }
}

/// Whether `field` is made of six decimal digits.
pub open spec fn is_date_field(field: Seq<char>) -> bool {
    field.len() == 6 && forall|i: int| 0 <= i < 6 ==> is_digit(#[trigger] field[i])
}

/// The number that the two digits of `field` at `at` and `at + 1` spell.
pub open spec fn two_digit_number(field: Seq<char>, at: int) -> int {
    10 * (field[at] as int - '0' as int) + (field[at + 1] as int - '0' as int)
}

/// The year of birth for a two-digit year: in the 2000s, unless that would be
/// later than `current_year`, and then a century earlier.
pub open spec fn birth_year(two_digit_year: int, current_year: int) -> int {
    if 2000 + two_digit_year > current_year {
        1900 + two_digit_year
    } else {
        2000 + two_digit_year
    }
}

/// The year of expiry for a two-digit year: always in the 2000s.
pub open spec fn expiry_year(two_digit_year: int) -> int {
    2000 + two_digit_year
}

/// The date that the `YYMMDD` digits of `field` name once the year has been
/// completed to `year`, if that day exists.
pub open spec fn date_in_year(field: Seq<char>, year: int) -> Option<DateView> {
    let month = two_digit_number(field, 2);
    let day = two_digit_number(field, 4);
    if is_date_field(field) && is_calendar_date(year, month, day) {
        Some(DateView { year, month, day })
    } else {
        None
    }
}

/// The date of birth that `field` encodes, seen from `current_year`.
pub open spec fn birth_date_of(field: Seq<char>, current_year: int) -> Option<DateView> {
    date_in_year(field, birth_year(two_digit_number(field, 0), current_year))
}

/// The date of expiry that `field` encodes.
pub open spec fn expiry_date_of(field: Seq<char>) -> Option<DateView> {
    date_in_year(field, expiry_year(two_digit_number(field, 0)))
}

/// Reads the two-digit year, the month and the day out of a `YYMMDD` field.
fn read_date_field(field: &str) -> (parts: Option<(u32, u32, u32)>)
    ensures
        parts is Some <==> is_date_field(field@),
        parts matches Some((year, month, day)) ==> {
            &&& year == two_digit_number(field@, 0)
            &&& month == two_digit_number(field@, 2)
            &&& day == two_digit_number(field@, 4)
            &&& year <= 99
            &&& month <= 99
            &&& day <= 99
        },
{
    if !field.is_ascii() || field.unicode_len() != 6 {
        return None;
    }
    let mut numbers: [u32; 3] = [0, 0, 0];
    let mut index: usize = 0;
    while index < 6
        invariant
            field.is_ascii(),
            field@.len() == 6,
            index <= 6,
            index % 2 == 0,
            forall|i: int| 0 <= i < index ==> is_digit(#[trigger] field@[i]),
            forall|k: int|
                0 <= k < index / 2 ==> #[trigger] numbers[k] == two_digit_number(field@, 2 * k),
        decreases 6 - index,
    {
        let tens = ascii_char_at(field, index);
        let units = ascii_char_at(field, index + 1);
        if !('0' <= tens && tens <= '9' && '0' <= units && units <= '9') {
            assert(!is_digit(field@[index as int]) || !is_digit(field@[index + 1]));
            return None;
        }
        numbers[index / 2] = 10 * (tens as u32 - '0' as u32) + (units as u32 - '0' as u32);
        index += 2;
    }
    Some((numbers[0], numbers[1], numbers[2]))
}

/// Decodes a date of birth from its `YYMMDD` field.
///
/// The two-digit year is taken to lie in the 2000s unless that is later
/// than `current_year`, in which case it lies in the 1900s. Anything but six
/// digits that name an existing day is an `InvalidBirthDate`.
pub fn decode_birth_date(field: &str, current_year: i32) -> (date: Result<Date, Error>)
    ensures
        match date {
            Ok(d) => birth_date_of(field@, current_year as int) == Some(d@),
            Err(error) => error == Error::InvalidBirthDate && birth_date_of(
                field@,
                current_year as int,
            ) is None,
        },
{
    match read_date_field(field) {
        None => Err(Error::InvalidBirthDate),
        Some((two_digit_year, month, day)) => {
            let year: i32 = if 2000 + (two_digit_year as i32) > current_year {
                1900 + (two_digit_year as i32)
            } else {
                2000 + (two_digit_year as i32)
            };
            match Date::from_ymd_opt(year, month, day) {
                Some(date) => Ok(date),
                None => Err(Error::InvalidBirthDate),
            }
        },
    }
}

/// Decodes a date of expiry from its `YYMMDD` field.
///
/// The two-digit year is taken to lie in the 2000s. Anything but six digits
/// that name an existing day is an `InvalidExpiryDate`.
pub fn decode_expiry_date(field: &str) -> (date: Result<Date, Error>)
    ensures
        match date {
            Ok(d) => expiry_date_of(field@) == Some(d@),
            Err(error) => error == Error::InvalidExpiryDate && expiry_date_of(field@) is None,
        },
{
    match read_date_field(field) {
        None => Err(Error::InvalidExpiryDate),
        Some((two_digit_year, month, day)) => {
            let year: i32 = 2000 + (two_digit_year as i32);
            match Date::from_ymd_opt(year, month, day) {
                Some(date) => Ok(date),
                None => Err(Error::InvalidExpiryDate),
            }
        },
    }
}

} // verus!
