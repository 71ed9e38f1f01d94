//! Reading a machine-readable zone: the passport format of 88 characters
//! and the identity-card format of 90, told apart by their length.
//!
//! The layout of the fields is that of ICAO Document 9303, parts 4 and 5.

use vstd::prelude::*;
use vstd::string::{StrSliceExecFns, StringExecFns};
use crate::alphabet::{
    ascii_char_at,
    is_mrz_string,
    is_mrz_text,
    strip_fillers,
    without_fillers,
};
use crate::check_digit::{char_to_num, check_digit_verdict, digit_at, verify_check_digit};
use crate::date::{
    birth_date_of,
    current_utc_year,
    decode_birth_date,
    decode_expiry_date,
    expiry_date_of,
};
use crate::document::{
    Document,
    DocumentView,
    Gender,
    IdentityCard,
    IdentityCardView,
    Passport,
    PassportView,
};
use crate::error::Error;
use crate::guarantees::lemma_documents_are_well_formed;
use crate::names::{split_name_field, split_names};

verus! {

/// The number of characters of a passport's machine-readable zone.
pub const PASSPORT_LENGTH: usize = 88;

/// The number of characters of an identity card's machine-readable zone.
pub const IDENTITY_CARD_LENGTH: usize = 90;

/// Whether `data` has the shape of a passport's machine-readable zone.
pub open spec fn is_passport_shape(data: Seq<char>) -> bool {
    data.len() == PASSPORT_LENGTH && is_mrz_text(data)
}

/// Whether `data` has the shape of an identity card's machine-readable zone.
pub open spec fn is_identity_card_shape(data: Seq<char>) -> bool {
    data.len() == IDENTITY_CARD_LENGTH && is_mrz_text(data)
}

/// The gender that a character stands for.
pub open spec fn gender_of(c: char) -> Gender {
    if c == 'M' {
        Gender::Male
    } else if c == 'F' {
        Gender::Female
    } else {
        Gender::Other
    }
}

/// The outcome of holding `span` against the check digit that `data` states
/// at `position`.
pub open spec fn stated_digit_verdict(data: Seq<char>, span: Seq<char>, position: int) -> Result<
    (),
    Error,
> {
    match digit_at(data, position) {
        Ok(stated) => check_digit_verdict(span, stated),
        Err(error) => Err(error),
    }
}

/// The error of a failed outcome.
pub open spec fn error_of<T>(outcome: Result<T, Error>) -> Error {
    match outcome {
        Ok(_) => Error::InvalidFormat,
        Err(error) => error,
    }
}

/// The characters that a passport's composite check digit covers.
pub open spec fn passport_composite(data: Seq<char>) -> Seq<char> {
    data.subrange(44, 54) + data.subrange(57, 64) + data.subrange(65, 87)
}

/// The first check digit of a passport that does not verify, in the order
/// document number, date of birth, date of expiry, optional data, composite.
pub open spec fn passport_check_failure(data: Seq<char>) -> Option<Error> {
    let number = stated_digit_verdict(data, data.subrange(44, 53), 53);
    let birth = stated_digit_verdict(data, data.subrange(57, 63), 63);
    let expiry = stated_digit_verdict(data, data.subrange(65, 71), 71);
    let optional = stated_digit_verdict(data, data.subrange(72, 86), 86);
    let composite = stated_digit_verdict(data, passport_composite(data), 87);
    if number is Err {
        Some(error_of(number))
    } else if birth is Err {
        Some(error_of(birth))
    } else if expiry is Err {
        Some(error_of(expiry))
    } else if optional is Err {
        Some(error_of(optional))
    } else if composite is Err {
        Some(error_of(composite))
    } else {
        None
    }
}

/// What the 88 characters `data` say as a passport, seen from
/// `current_year`; with `check`, only if every check digit verifies.
///
/// The first failure decides the error: the document code, the names, the
/// check digit of the document number, the date of birth and its check
/// digit, the date of expiry, and then the remaining check digits.
pub open spec fn passport_of(data: Seq<char>, check: bool, current_year: int) -> Result<
    PassportView,
    Error,
> {
    let names = split_names(data.subrange(5, 43));
    let number_digit = stated_digit_verdict(data, data.subrange(44, 53), 53);
    let birth_date = birth_date_of(data.subrange(57, 63), current_year);
    let birth_digit = stated_digit_verdict(data, data.subrange(57, 63), 63);
    let expiry_date = expiry_date_of(data.subrange(65, 71));
    if data[0] != 'P' {
        Err(Error::InvalidDocumentType)
    } else if names is Err {
        Err(error_of(names))
    } else if check && number_digit is Err {
        Err(error_of(number_digit))
    } else if birth_date is None {
        Err(Error::InvalidBirthDate)
    } else if check && birth_digit is Err {
        Err(error_of(birth_digit))
    } else if expiry_date is None {
        Err(Error::InvalidExpiryDate)
    } else if check && passport_check_failure(data) is Some {
        Err(passport_check_failure(data)->0)
    } else {
        Ok(
            PassportView {
                country: without_fillers(data.subrange(2, 5)),
                surnames: names->Ok_0.0,
                given_names: names->Ok_0.1,
                passport_number: without_fillers(data.subrange(44, 53)),
                nationality: without_fillers(data.subrange(54, 57)),
                birth_date: birth_date->0,
                gender: gender_of(data[64]),
                expiry_date: expiry_date->0,
            },
        )
    }
}

/// The view of a parser's result.
pub open spec fn result_view(result: Result<Document, Error>) -> Result<DocumentView, Error> {
    match result {
        Ok(document) => Ok(document@),
        Err(error) => Err(error),
    }
}

/// A passport's result as a document's.
pub open spec fn as_passport(result: Result<PassportView, Error>) -> Result<DocumentView, Error> {
    match result {
        Ok(passport) => Ok(DocumentView::Passport(passport)),
        Err(error) => Err(error),
    }
}

/// Reads the gender at `position`.
fn gender_at(data: &str, position: usize) -> (gender: Gender)
    requires
        data.is_ascii(),
        position < data@.len(),
    ensures
        gender == gender_of(data@[position as int]),
{
    let c = ascii_char_at(data, position);
    if c == 'M' {
        Gender::Male
    } else if c == 'F' {
        Gender::Female
    } else {
        Gender::Other
    }
}

/// Verifies the characters of `data` from `from` to `to` against the check
/// digit that `data` states at `position`.
fn verify_field(data: &str, from: usize, to: usize, position: usize) -> (verdict: Result<
    (),
    Error,
>)
    requires
        data.is_ascii(),
        from <= to <= data@.len(),
    ensures
        verdict == stated_digit_verdict(
            data@,
            data@.subrange(from as int, to as int),
            position as int,
        ),
{
    match char_to_num(data, position) {
        Ok(stated) => verify_check_digit(data.substring_ascii(from, to), stated),
        Err(error) => Err(error),
    }
}

/// Reads a passport from the 88 characters of its machine-readable zone.
///
/// With `check`, every check digit is verified. `current_year` decides the
/// century of the date of birth.
pub fn parse_passport(data: &str, check: bool, current_year: i32) -> (document: Result<
    Document,
    Error,
>)
    requires
        is_passport_shape(data@),
    ensures
        result_view(document) == as_passport(passport_of(data@, check, current_year as int)),
{
    if ascii_char_at(data, 0) != 'P' {
        return Err(Error::InvalidDocumentType);
    }
    let country = strip_fillers(data.substring_ascii(2, 5));
    let (surnames, given_names) = match split_name_field(data.substring_ascii(5, 43)) {
        Ok(names) => names,
        Err(error) => {
            return Err(error);
        },
    };
    let passport_number = strip_fillers(data.substring_ascii(44, 53));
    if check {
        match verify_field(data, 44, 53, 53) {
            Ok(()) => {},
            Err(error) => {
                return Err(error);
            },
        }
    }
    let nationality = strip_fillers(data.substring_ascii(54, 57));
    let birth_date = match decode_birth_date(data.substring_ascii(57, 63), current_year) {
        Ok(date) => date,
        Err(error) => {
            return Err(error);
        },
    };
    if check {
        match verify_field(data, 57, 63, 63) {
            Ok(()) => {},
            Err(error) => {
                return Err(error);
            },
        }
    }
    let gender = gender_at(data, 64);
    let expiry_date = match decode_expiry_date(data.substring_ascii(65, 71)) {
        Ok(date) => date,
        Err(error) => {
            return Err(error);
        },
    };
    if check {
        match verify_field(data, 65, 71, 71) {
            Ok(()) => {},
            Err(error) => {
                return Err(error);
            },
        }
        match verify_field(data, 72, 86, 86) {
            Ok(()) => {},
            Err(error) => {
                return Err(error);
            },
        }
        let mut composite = String::new();
        composite.append(data.substring_ascii(44, 54));
        composite.append(data.substring_ascii(57, 64));
        composite.append(data.substring_ascii(65, 87));
        assert(composite@ =~= passport_composite(data@));
        let verdict = match char_to_num(data, 87) {
            Ok(stated) => verify_check_digit(composite.as_str(), stated),
            Err(error) => Err(error),
        };
        match verdict {
            Ok(()) => {},
            Err(error) => {
                return Err(error);
            },
        }
    }
    Ok(
        Document::Passport(
            Passport {
                country,
                surnames,
                given_names,
                passport_number,
                nationality,
                birth_date,
                gender,
                expiry_date,
            },
        ),
    )
}

/// Whether `code` is a document code of an identity card.
pub open spec fn is_identity_card_code(code: char) -> bool {
    code == 'I' || code == 'A' || code == 'C'
}

/// The characters that an identity card's composite check digit covers.
pub open spec fn identity_card_composite(data: Seq<char>) -> Seq<char> {
    data.subrange(5, 30) + data.subrange(30, 37) + data.subrange(38, 45) + data.subrange(48, 59)
}

/// The first check digit of an identity card that does not verify, in the
/// order document number, date of birth, date of expiry, composite.
pub open spec fn identity_card_check_failure(data: Seq<char>) -> Option<Error> {
    let number = stated_digit_verdict(data, data.subrange(5, 14), 14);
    let birth = stated_digit_verdict(data, data.subrange(30, 36), 36);
    let expiry = stated_digit_verdict(data, data.subrange(38, 44), 44);
    let composite = stated_digit_verdict(data, identity_card_composite(data), 59);
    if number is Err {
        Some(error_of(number))
    } else if birth is Err {
        Some(error_of(birth))
    } else if expiry is Err {
        Some(error_of(expiry))
    } else if composite is Err {
        Some(error_of(composite))
    } else {
        None
    }
}

/// What the 90 characters `data` say as an identity card, seen from
/// `current_year`; with `check`, only if every check digit verifies.
///
/// The first failure decides the error: the document code, the names, the
/// check digit of the document number, the date of birth and its check
/// digit, the date of expiry, and then the remaining check digits. The
/// nationality is read where the issuing country is.
pub open spec fn identity_card_of(data: Seq<char>, check: bool, current_year: int) -> Result<
    IdentityCardView,
    Error,
> {
    let names = split_names(data.subrange(60, 90));
    let number_digit = stated_digit_verdict(data, data.subrange(5, 14), 14);
    let birth_date = birth_date_of(data.subrange(30, 36), current_year);
    let birth_digit = stated_digit_verdict(data, data.subrange(30, 36), 36);
    let expiry_date = expiry_date_of(data.subrange(38, 44));
    if !is_identity_card_code(data[0]) {
        Err(Error::InvalidDocumentType)
    } else if names is Err {
        Err(error_of(names))
    } else if check && number_digit is Err {
        Err(error_of(number_digit))
    } else if birth_date is None {
        Err(Error::InvalidBirthDate)
    } else if check && birth_digit is Err {
        Err(error_of(birth_digit))
    } else if expiry_date is None {
        Err(Error::InvalidExpiryDate)
    } else if check && identity_card_check_failure(data) is Some {
        Err(identity_card_check_failure(data)->0)
    } else {
        Ok(
            IdentityCardView {
                country: without_fillers(data.subrange(2, 5)),
                surnames: names->Ok_0.0,
                given_names: names->Ok_0.1,
                document_number: without_fillers(data.subrange(5, 14)),
                nationality: without_fillers(data.subrange(2, 5)),
                birth_date: birth_date->0,
                gender: gender_of(data[37]),
                expiry_date: expiry_date->0,
            },
        )
    }
}

/// An identity card's result as a document's.
pub open spec fn as_identity_card(result: Result<IdentityCardView, Error>) -> Result<
    DocumentView,
    Error,
> {
    match result {
        Ok(card) => Ok(DocumentView::IdentityCard(card)),
        Err(error) => Err(error),
    }
}

/// Reads an identity card from the 90 characters of its machine-readable
/// zone.
///
/// With `check`, every check digit is verified. `current_year` decides the
/// century of the date of birth.
pub fn parse_identity_card(data: &str, check: bool, current_year: i32) -> (document: Result<
    Document,
    Error,
>)
    requires
        is_identity_card_shape(data@),
    ensures
        result_view(document) == as_identity_card(
            identity_card_of(data@, check, current_year as int),
        ),
{
    let code = ascii_char_at(data, 0);
    if code != 'I' && code != 'A' && code != 'C' {
        return Err(Error::InvalidDocumentType);
    }
    let country = strip_fillers(data.substring_ascii(2, 5));
    let (surnames, given_names) = match split_name_field(data.substring_ascii(60, 90)) {
        Ok(names) => names,
        Err(error) => {
            return Err(error);
        },
    };
    let document_number = strip_fillers(data.substring_ascii(5, 14));
    if check {
        match verify_field(data, 5, 14, 14) {
            Ok(()) => {},
            Err(error) => {
                return Err(error);
            },
        }
    }
    let nationality = strip_fillers(data.substring_ascii(2, 5));
    let birth_date = match decode_birth_date(data.substring_ascii(30, 36), current_year) {
        Ok(date) => date,
        Err(error) => {
            return Err(error);
        },
    };
    if check {
        match verify_field(data, 30, 36, 36) {
            Ok(()) => {},
            Err(error) => {
                return Err(error);
            },
        }
    }
    let gender = gender_at(data, 37);
    let expiry_date = match decode_expiry_date(data.substring_ascii(38, 44)) {
        Ok(date) => date,
        Err(error) => {
            return Err(error);
        },
    };
    if check {
        match verify_field(data, 38, 44, 44) {
            Ok(()) => {},
            Err(error) => {
                return Err(error);
            },
        }
        let mut composite = String::new();
        composite.append(data.substring_ascii(5, 30));
        composite.append(data.substring_ascii(30, 37));
        composite.append(data.substring_ascii(38, 45));
        composite.append(data.substring_ascii(48, 59));
        assert(composite@ =~= identity_card_composite(data@));
        let verdict = match char_to_num(data, 59) {
            Ok(stated) => verify_check_digit(composite.as_str(), stated),
            Err(error) => Err(error),
        };
        match verdict {
            Ok(()) => {},
            Err(error) => {
                return Err(error);
            },
        }
    }
    Ok(
        Document::IdentityCard(
            IdentityCard {
                country,
                surnames,
                given_names,
                document_number,
                nationality,
                birth_date,
                gender,
                expiry_date,
            },
        ),
    )
}

/// What `data` says as a travel document, seen from `current_year`; with
/// `check`, only if every check digit verifies.
///
/// Text of 88 characters of the MRZ alphabet is a passport's, text of 90 an
/// identity card's, and anything else is an `InvalidFormat`.
pub open spec fn document_of(data: Seq<char>, check: bool, current_year: int) -> Result<
    DocumentView,
    Error,
> {
    if is_passport_shape(data) {
        as_passport(passport_of(data, check, current_year))
    } else if is_identity_card_shape(data) {
        as_identity_card(identity_card_of(data, check, current_year))
    } else {
        Err(Error::InvalidFormat)
    }
}

/// Reads a travel document from its machine-readable zone, with the
/// current year given.
///
/// `data` holds the lines of the zone one after the other, with nothing
/// between them. With `check`, every check digit is verified.
/// `current_year` decides the century of the date of birth: a two-digit
/// year lies in the 2000s unless that is later than `current_year`.
pub fn parse_in_year(data: &str, check: bool, current_year: i32) -> (document: Result<
    Document,
    Error,
>)
    ensures
        result_view(document) == document_of(data@, check, current_year as int),
        !is_passport_shape(data@) && !is_identity_card_shape(data@) ==> document == Err::<
            Document,
            Error,
        >(Error::InvalidFormat),
        document matches Ok(read) ==> read@.is_well_formed(),
{
    if !is_mrz_string(data) {
        return Err(Error::InvalidFormat);
    }
    let length: usize = data.unicode_len();
    let document = if length == PASSPORT_LENGTH {
        parse_passport(data, check, current_year)
    } else if length == IDENTITY_CARD_LENGTH {
        parse_identity_card(data, check, current_year)
    } else {
        Err(Error::InvalidFormat)
    };
    proof {
        if document is Ok {
            lemma_documents_are_well_formed(
                data@,
                check,
                current_year as int,
                result_view(document)->Ok_0,
            );
        }
    }
    document
}

/// Reads a travel document from its machine-readable zone.
///
/// The current year, which decides the century of the date of birth, is
/// read from the system clock: the result is that of `parse_in_year` for
/// some year.
pub fn parse(data: &str, check: bool) -> (document: Result<Document, Error>)
    ensures
        exists|current_year: int|
            result_view(document) == #[trigger] document_of(data@, check, current_year),
        !is_passport_shape(data@) && !is_identity_card_shape(data@) ==> document == Err::<
            Document,
            Error,
        >(Error::InvalidFormat),
        document matches Ok(read) ==> read@.is_well_formed(),
{
    let current_year: i32 = current_utc_year();
    let document = parse_in_year(data, check, current_year);
    assert(result_view(document) == document_of(data@, check, current_year as int));
    document
}

impl std::str::FromStr for Document {
    type Err = Error;

    fn from_str(s: &str) -> (document: Result<Self, Self::Err>)
        ensures
            exists|current_year: int|
                result_view(document) == #[trigger] document_of(s@, true, current_year),
            document matches Ok(read) ==> read@.is_well_formed(),
    {
        parse(s, true)
    }
}

} // verus!
