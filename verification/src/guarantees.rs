//! What holds of every reading of a machine-readable zone, proved of
//! `document_of`, which the parser's contract is stated in.

use vstd::prelude::*;
use crate::alphabet::{is_mrz_char, is_mrz_text, without_fillers, FILLER};
use crate::date::two_digit_number;
use crate::document::{is_stripped_field, DocumentView};
use crate::error::Error;
use crate::names::lemma_split_names_are_names;
use crate::parser::{
    document_of,
    identity_card_check_failure,
    is_identity_card_shape,
    is_passport_shape,
    passport_check_failure,
};

verus! {

/// Text that is neither 88 nor 90 characters long, or that holds a
/// character outside the MRZ alphabet, is an `InvalidFormat`, with or
/// without checking and in every year.
pub proof fn lemma_misshapen_text_is_invalid_format(
    data: Seq<char>,
    check: bool,
    current_year: int,
)
    requires
        (data.len() != 88 && data.len() != 90) || !is_mrz_text(data),
    ensures
        document_of(data, check, current_year) == Err::<DocumentView, Error>(Error::InvalidFormat),
{
}

/// Whether `position` holds one of the five check digits of a passport.
pub open spec fn is_passport_check_position(position: int) -> bool {
    position == 53 || position == 63 || position == 71 || position == 86 || position == 87
}

/// Without checking, the check digits of a passport do not matter: two
/// texts of a passport's shape that differ at check-digit positions only
/// read as the same passport, or fail with the same error.
pub proof fn lemma_unchecked_passport_ignores_check_digits(
    data: Seq<char>,
    other: Seq<char>,
    current_year: int,
)
    requires
        is_passport_shape(data),
        is_passport_shape(other),
        forall|i: int|
            #![trigger data[i]]
            #![trigger other[i]]
            0 <= i < 88 && !is_passport_check_position(i) ==> data[i] == other[i],
    ensures
        document_of(data, false, current_year) == document_of(other, false, current_year),
        document_of(data, false, current_year) is Ok <==> document_of(
            other,
            false,
            current_year,
        ) is Ok,
{
    assert(data.subrange(2, 5) =~= other.subrange(2, 5));
    assert(data.subrange(5, 43) =~= other.subrange(5, 43));
    assert(data.subrange(44, 53) =~= other.subrange(44, 53));
    assert(data.subrange(54, 57) =~= other.subrange(54, 57));
    assert(data.subrange(57, 63) =~= other.subrange(57, 63));
    assert(data.subrange(65, 71) =~= other.subrange(65, 71));
    assert(data[0] == other[0]);
    assert(data[64] == other[64]);
}

/// Whether `position` holds one of the four check digits of an identity
/// card.
pub open spec fn is_identity_card_check_position(position: int) -> bool {
    position == 14 || position == 36 || position == 44 || position == 59
}

/// Without checking, the check digits of an identity card do not matter
/// either.
pub proof fn lemma_unchecked_identity_card_ignores_check_digits(
    data: Seq<char>,
    other: Seq<char>,
    current_year: int,
)
    requires
        is_identity_card_shape(data),
        is_identity_card_shape(other),
        forall|i: int|
            #![trigger data[i]]
            #![trigger other[i]]
            0 <= i < 90 && !is_identity_card_check_position(i) ==> data[i] == other[i],
    ensures
        document_of(data, false, current_year) == document_of(other, false, current_year),
{
    assert(data.subrange(2, 5) =~= other.subrange(2, 5));
    assert(data.subrange(5, 14) =~= other.subrange(5, 14));
    assert(data.subrange(30, 36) =~= other.subrange(30, 36));
    assert(data.subrange(38, 44) =~= other.subrange(38, 44));
    assert(data.subrange(60, 90) =~= other.subrange(60, 90));
    assert(data[0] == other[0]);
    assert(data[37] == other[37]);
}

/// Checking only refuses: what is read with checking is read without it
/// too, and is the same document.
pub proof fn lemma_checking_only_refuses(
    data: Seq<char>,
    current_year: int,
    document: DocumentView,
)
    requires
        document_of(data, true, current_year) == Ok::<DocumentView, Error>(document),
    ensures
        document_of(data, false, current_year) == Ok::<DocumentView, Error>(document),
{
}

/// The country and the nationality of a document are their three
/// characters of the text with the fillers removed: the country at 2 to 4,
/// the nationality at 54 to 56 of a passport, and where the country is of an
/// identity card.
pub proof fn lemma_country_and_nationality(
    data: Seq<char>,
    check: bool,
    current_year: int,
    document: DocumentView,
)
    requires
        document_of(data, check, current_year) == Ok::<DocumentView, Error>(document),
    ensures
        match document {
            DocumentView::Passport(passport) => {
                &&& passport.country == without_fillers(data.subrange(2, 5))
                &&& passport.nationality == without_fillers(data.subrange(54, 57))
            },
            DocumentView::IdentityCard(card) => {
                &&& card.country == without_fillers(data.subrange(2, 5))
                &&& card.nationality == without_fillers(data.subrange(2, 5))
            },
        },
{
}

/// The two-digit year of birth that `data` states: at 57 of a passport, at
/// 30 of an identity card.
pub open spec fn stated_birth_year(data: Seq<char>) -> int {
    if data.len() == 88 {
        two_digit_number(data, 57)
    } else {
        two_digit_number(data, 30)
    }
}

/// The year of birth of a document.
pub open spec fn year_of_birth(document: DocumentView) -> int {
    match document {
        DocumentView::Passport(passport) => passport.birth_date.year,
        DocumentView::IdentityCard(card) => card.birth_date.year,
    }
}

/// The century of a date of birth: where the stated two-digit year, taken
/// in the 2000s, is later than the current year, the year of birth is that
/// two-digit year in the 1900s, and otherwise in the 2000s.
pub proof fn lemma_century_of_birth(
    data: Seq<char>,
    check: bool,
    current_year: int,
    document: DocumentView,
)
    requires
        document_of(data, check, current_year) == Ok::<DocumentView, Error>(document),
    ensures
        0 <= stated_birth_year(data) <= 99,
        2000 + stated_birth_year(data) > current_year ==> year_of_birth(document) == 1900
            + stated_birth_year(data),
        2000 + stated_birth_year(data) <= current_year ==> year_of_birth(document) == 2000
            + stated_birth_year(data),
{
    if data.len() == 88 {
        let field = data.subrange(57, 63);
        assert(field[0] == data[57] && field[1] == data[58]);
    } else {
        let field = data.subrange(30, 36);
        assert(field[0] == data[30] && field[1] == data[31]);
    }
}

/// A field of the MRZ alphabet with its fillers removed is no longer than
/// the field, and holds characters of the alphabet other than the filler.
pub proof fn lemma_without_fillers(text: Seq<char>)
    requires
        is_mrz_text(text),
    ensures
        is_stripped_field(without_fillers(text), text.len() as int),
    decreases text.len(),
{
    reveal(Seq::filter);
    if text.len() > 0 {
        let shorter = text.drop_last();
        lemma_without_fillers(shorter);
        let stripped = without_fillers(shorter);
        if text.last() != FILLER {
            assert(without_fillers(text) == stripped.push(text.last()));
            assert forall|i: int| 0 <= i < stripped.push(text.last()).len() implies is_mrz_char(
                #[trigger] stripped.push(text.last())[i],
            ) && stripped.push(text.last())[i] != FILLER by {
                if i < stripped.len() {
                    assert(is_mrz_char(stripped[i]));
                }
            }
        } else {
            assert(without_fillers(text) == stripped);
        }
    }
}

/// Every document that is read is well formed: the country, the
/// nationality and the number are free of fillers and no longer than their
/// fields, there is a surname, all names are names, and both dates exist.
pub proof fn lemma_documents_are_well_formed(
    data: Seq<char>,
    check: bool,
    current_year: int,
    document: DocumentView,
)
    requires
        document_of(data, check, current_year) == Ok::<DocumentView, Error>(document),
    ensures
        document.is_well_formed(),
{
    lemma_without_fillers(data.subrange(2, 5));
    if is_passport_shape(data) {
        lemma_without_fillers(data.subrange(44, 53));
        lemma_without_fillers(data.subrange(54, 57));
        lemma_split_names_are_names(data.subrange(5, 43));
    } else {
        lemma_without_fillers(data.subrange(5, 14));
        lemma_split_names_are_names(data.subrange(60, 90));
    }
}

/// Every document that is read with checking has check digits that
/// verify, each and all of them.
pub proof fn lemma_checked_documents_verify(
    data: Seq<char>,
    current_year: int,
    document: DocumentView,
)
    requires
        document_of(data, true, current_year) == Ok::<DocumentView, Error>(document),
    ensures
        document is Passport ==> passport_check_failure(data) is None,
        document is IdentityCard ==> identity_card_check_failure(data) is None,
{
}

} // verus!
