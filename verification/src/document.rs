//! The travel documents that a machine-readable zone describes.

use vstd::prelude::*;
use crate::alphabet::{is_mrz_char, FILLER};
use crate::date::{Date, DateView};

verus! {

/// Gender
#[derive(Debug, PartialEq, Eq, Structural, Clone, Copy)]
pub enum Gender {
    /// Male
    Male,
    /// Female
    Female,
    /// Other/unspecified
    Other,
}

/// Passport
#[derive(Debug, PartialEq, Eq, Clone)]
pub struct Passport {
    /// Country (ISO 3166-1 code)
    pub country: String,
    /// Surname
    pub surnames: Vec<String>,
    /// Given names
    pub given_names: Vec<String>,
    /// Passport number
    pub passport_number: String,
    /// Nationality (ISO 3166-1 code)
    pub nationality: String,
    /// Date of birth
    pub birth_date: Date,
    /// Gender
    pub gender: Gender,
    /// Date of expiry
    pub expiry_date: Date,
}

/// Identity Card
#[derive(Debug, PartialEq, Eq, Clone)]
pub struct IdentityCard {
    /// Country (ISO 3166-1 code)
    pub country: String,
    /// Surname
    pub surnames: Vec<String>,
    /// Given names
    pub given_names: Vec<String>,
    /// Document number
    pub document_number: String,
    /// Nationality (ISO 3166-1 code)
    pub nationality: String,
    /// Date of birth
    pub birth_date: Date,
    /// Gender
    pub gender: Gender,
    /// Date of expiry
    pub expiry_date: Date,
}

/// Travel document
#[derive(Debug, PartialEq, Eq, Clone)]
pub enum Document {
    /// Passport
    Passport(Passport),
    /// Identity Card
    IdentityCard(IdentityCard),
}

/// Whether `code` is a field with its fillers removed: characters of the MRZ
/// alphabet other than the filler, at most `width` of them.
pub open spec fn is_stripped_field(code: Seq<char>, width: int) -> bool {
    &&& code.len() <= width
    &&& forall|i: int| 0 <= i < code.len() ==> is_mrz_char(#[trigger] code[i]) && code[i] != FILLER
}

/// Whether `token` is a name: at least one character of the MRZ alphabet,
/// none of them a filler.
pub open spec fn is_name(token: Seq<char>) -> bool {
    &&& token.len() > 0
    &&& forall|i: int|
        0 <= i < token.len() ==> is_mrz_char(#[trigger] token[i]) && token[i] != FILLER
}

/// Whether every element of `tokens` is a name.
pub open spec fn are_names(tokens: Seq<Seq<char>>) -> bool {
    forall|k: int| 0 <= k < tokens.len() ==> is_name(#[trigger] tokens[k])
}

/// What a passport says.
pub struct PassportView {
    pub country: Seq<char>,
    pub surnames: Seq<Seq<char>>,
    pub given_names: Seq<Seq<char>>,
    pub passport_number: Seq<char>,
    pub nationality: Seq<char>,
    pub birth_date: DateView,
    pub gender: Gender,
    pub expiry_date: DateView,
}

impl PassportView {
    /// What holds of every passport that was read from a machine-readable
    /// zone.
    pub open spec fn is_well_formed(self) -> bool {
        &&& is_stripped_field(self.country, 3)
        &&& self.surnames.len() > 0
        &&& are_names(self.surnames)
        &&& are_names(self.given_names)
        &&& is_stripped_field(self.passport_number, 9)
        &&& is_stripped_field(self.nationality, 3)
        &&& self.birth_date.is_valid()
        &&& self.expiry_date.is_valid()
    }
}

impl View for Passport {
    type V = PassportView;

    open spec fn view(&self) -> PassportView {
        PassportView {
            country: self.country@,
            surnames: self.surnames.deep_view(),
            given_names: self.given_names.deep_view(),
            passport_number: self.passport_number@,
            nationality: self.nationality@,
            birth_date: self.birth_date@,
            gender: self.gender,
            expiry_date: self.expiry_date@,
        }
    }
}

/// What an identity card says.
pub struct IdentityCardView {
    pub country: Seq<char>,
    pub surnames: Seq<Seq<char>>,
    pub given_names: Seq<Seq<char>>,
    pub document_number: Seq<char>,
    pub nationality: Seq<char>,
    pub birth_date: DateView,
    pub gender: Gender,
    pub expiry_date: DateView,
}

impl IdentityCardView {
    /// What holds of every identity card that was read from a
    /// machine-readable zone.
    pub open spec fn is_well_formed(self) -> bool {
        &&& is_stripped_field(self.country, 3)
        &&& self.surnames.len() > 0
        &&& are_names(self.surnames)
        &&& are_names(self.given_names)
        &&& is_stripped_field(self.document_number, 9)
        &&& is_stripped_field(self.nationality, 3)
        &&& self.birth_date.is_valid()
        &&& self.expiry_date.is_valid()
    }
}

impl View for IdentityCard {
    type V = IdentityCardView;

    open spec fn view(&self) -> IdentityCardView {
        IdentityCardView {
            country: self.country@,
            surnames: self.surnames.deep_view(),
            given_names: self.given_names.deep_view(),
            document_number: self.document_number@,
            nationality: self.nationality@,
            birth_date: self.birth_date@,
            gender: self.gender,
            expiry_date: self.expiry_date@,
        }
    }
}

/// What a travel document says.
pub enum DocumentView {
    Passport(PassportView),
    IdentityCard(IdentityCardView),
}

impl DocumentView {
    /// What holds of every document that was read from a machine-readable
    /// zone.
    pub open spec fn is_well_formed(self) -> bool {
        match self {
            DocumentView::Passport(passport) => passport.is_well_formed(),
            DocumentView::IdentityCard(card) => card.is_well_formed(),
        }
    }
}

impl View for Document {
    type V = DocumentView;

    open spec fn view(&self) -> DocumentView {
        match self {
            Document::Passport(passport) => DocumentView::Passport(passport@),
            Document::IdentityCard(card) => DocumentView::IdentityCard(card@),
        }
    }
}

} // verus!
