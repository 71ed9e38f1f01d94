//! The ways in which reading a machine-readable zone can fail.

use vstd::prelude::*;

verus! {

/// Parsing error
#[derive(Debug, PartialEq, Eq, Structural, Clone, Copy)]
pub enum Error {
    /// Invalid or unsupported document type
    InvalidDocumentType,
    /// Invalid MRZ format
    InvalidFormat,
    /// Invalid format for date of birth
    InvalidBirthDate,
    /// Invalid format for date of expiry
    InvalidExpiryDate,
    /// MRZ failed check digit verification
    BadCheckDigit,
    /// Expected digit at location but got something else
    ExpectedDigit,
    /// Encountered an invalid character (not [A-Z], [0-9] or <)
    InvalidChar,
}

impl Error {
    /// The human-readable message of this error.
    pub open spec fn message(self) -> Seq<char> {
        match self {
            Error::InvalidDocumentType => "invalid document type"@,
            Error::InvalidFormat => "invalid MRZ format"@,
            Error::InvalidBirthDate => "invalid date of birth"@,
            Error::InvalidExpiryDate => "invalid date of expiry"@,
            Error::BadCheckDigit => "provided MRZ failed check digit verification"@,
            Error::ExpectedDigit => "expected digit at location but found something else"@,
            Error::InvalidChar => "encountered a invalid character"@,
        }
    }

    /// Renders the error as its human-readable message.
    pub fn to_string(&self) -> (text: String)
        ensures
            text@ == self.message(),
    {
        let message = match self {
            Error::InvalidDocumentType => "invalid document type",
            Error::InvalidFormat => "invalid MRZ format",
            Error::InvalidBirthDate => "invalid date of birth",
            Error::InvalidExpiryDate => "invalid date of expiry",
            Error::BadCheckDigit => "provided MRZ failed check digit verification",
            Error::ExpectedDigit => "expected digit at location but found something else",
            Error::InvalidChar => "encountered a invalid character",
        };
        message.to_owned()
    }
}

} // verus!
