//! The MRZ alphabet: the capital letters, the digits and the filler `<`.

use vstd::prelude::*;
use vstd::string::{StrSliceExecFns, StringExecFns};

verus! {

/// The filler character, which pads fields and separates name components.
pub const FILLER: char = '<';

/// Whether `c` is a decimal digit.
pub open spec fn is_digit(c: char) -> bool {
    '0' <= c && c <= '9'
}

/// Whether `c` is a capital Latin letter.
pub open spec fn is_letter(c: char) -> bool {
    'A' <= c && c <= 'Z'
}

/// Whether `c` belongs to the MRZ alphabet.
pub open spec fn is_mrz_char(c: char) -> bool {
    is_letter(c) || is_digit(c) || c == FILLER
}

/// Whether every character of `text` belongs to the MRZ alphabet.
pub open spec fn is_mrz_text(text: Seq<char>) -> bool {
    forall|i: int| 0 <= i < text.len() ==> is_mrz_char(#[trigger] text[i])
}

/// The character at position `index` of an ASCII string.
pub(crate) fn ascii_char_at(text: &str, index: usize) -> (c: char)
    requires
        text.is_ascii(),
        index < text@.len(),
    ensures
        c == text@[index as int],
{
    let byte: u8 = text.get_ascii(index);
    byte as char
}

/// Decides membership in the MRZ alphabet.
pub fn is_mrz_character(c: char) -> (member: bool)
    ensures
        member == is_mrz_char(c),
{
    ('A' <= c && c <= 'Z') || ('0' <= c && c <= '9') || c == FILLER
}

/// Decides whether every character of `text` belongs to the MRZ alphabet.
pub fn is_mrz_string(text: &str) -> (all: bool)
    ensures
        all == is_mrz_text(text@),
        all ==> text.is_ascii(),
{
    if !text.is_ascii() {
        return false;
    }
    let length: usize = text.unicode_len();
    let mut index: usize = 0;
    while index < length
        invariant
            text.is_ascii(),
            length == text@.len(),
            index <= length,
            forall|i: int| 0 <= i < index ==> is_mrz_char(#[trigger] text@[i]),
        decreases length - index,
    {
        if !is_mrz_character(ascii_char_at(text, index)) {
            return false;
        }
        index += 1;
    }
    true
}

/// What is left of `text` once its fillers are removed.
pub open spec fn without_fillers(text: Seq<char>) -> Seq<char> {
    text.filter(|c: char| c != FILLER)
}

/// Removes the fillers from `text`.
pub(crate) fn strip_fillers(text: &str) -> (stripped: String)
    requires
        text.is_ascii(),
    ensures
        stripped@ == without_fillers(text@),
{
    let length: usize = text.unicode_len();
    let mut stripped = String::new();
    let mut index: usize = 0;
    proof {
        reveal(Seq::filter);
        assert(text@.take(0) =~= Seq::<char>::empty());
    }
    while index < length
        invariant
            text.is_ascii(),
            length == text@.len(),
            index <= length,
            stripped@ == without_fillers(text@.take(index as int)),
        decreases length - index,
    {
        proof {
            reveal(Seq::filter);
            assert(text@.take(index + 1).drop_last() =~= text@.take(index as int));
            assert(text@.subrange(index as int, index + 1) =~= seq![text@[index as int]]);
        }
        if ascii_char_at(text, index) != FILLER {
            stripped.append(text.substring_ascii(index, index + 1));
        }
        index += 1;
    }
    assert(text@.take(index as int) =~= text@);
    stripped
}

} // verus!
