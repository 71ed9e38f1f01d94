//! A parser for the machine-readable zone (MRZ) of machine-readable travel
//! documents (MRTD) as defined by ICAO Document 9303.

use vstd::prelude::*;

pub mod alphabet;
pub mod check_digit;
pub mod date;
pub mod document;
pub mod error;
pub mod guarantees;
pub mod names;
pub mod parser;

pub use date::Date;
pub use document::{Document, Gender, IdentityCard, Passport};
pub use error::Error;

use parser::{document_of, is_identity_card_shape, is_passport_shape, result_view};

verus! {

/// Parse a Machine-readable Zone (MRZ) returning the corresponding travel document.
/// Performs error checking using the included check digits.
pub fn parse(data: &str) -> (document: Result<Document, Error>)
    ensures
        exists|current_year: int|
            result_view(document) == #[trigger] document_of(data@, true, current_year),
        !is_passport_shape(data@) && !is_identity_card_shape(data@) ==> document == Err::<
            Document,
            Error,
        >(Error::InvalidFormat),
        document matches Ok(read) ==> read@.is_well_formed(),
{
    parser::parse(data, true)
}

/// Parse a Machine-readable Zone (MRZ) returning the corresponding travel document.
/// Does not perform error checking using the included check digits.
pub fn parse_without_checks(data: &str) -> (document: Result<Document, Error>)
    ensures
        exists|current_year: int|
            result_view(document) == #[trigger] document_of(data@, false, current_year),
        !is_passport_shape(data@) && !is_identity_card_shape(data@) ==> document == Err::<
            Document,
            Error,
        >(Error::InvalidFormat),
        document matches Ok(read) ==> read@.is_well_formed(),
{
    parser::parse(data, false)
}

} // verus!
