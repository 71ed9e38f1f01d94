//! The name field: surnames, then `<<`, then given names, padded with `<`.

use vstd::prelude::*;
use vstd::string::StrSliceExecFns;
use crate::alphabet::{ascii_char_at, is_mrz_char, is_mrz_string, is_mrz_text, FILLER};
use crate::document::{are_names, is_name};
use crate::error::Error;

verus! {

/// Whether the two characters of `text` at `at` and `at + 1` are both
/// fillers, which separates the surnames from the given names.
pub open spec fn separator_at(text: Seq<char>, at: int) -> bool {
    0 <= at && at + 1 < text.len() && text[at] == FILLER && text[at + 1] == FILLER
}

/// Whether `at` is where the first separator of `text` stands, or the
/// length of `text` if it holds none.
pub open spec fn is_first_separator(text: Seq<char>, at: int) -> bool {
    &&& 0 <= at <= text.len()
    &&& at < text.len() ==> separator_at(text, at)
    &&& forall|before: int| 0 <= before < at ==> !separator_at(text, before)
}

/// The position of the first separator of `text`, or the length of `text` if
/// it holds none.
pub open spec fn first_separator(text: Seq<char>) -> int {
    choose|at: int| is_first_separator(text, at)
}

/// What stands before the first separator of `text`: all of it, if there is
/// no separator.
pub open spec fn part_before_separator(text: Seq<char>) -> Seq<char> {
    text.take(first_separator(text))
}

/// What follows the first separator of `text`: nothing, if there is no
/// separator.
pub open spec fn part_after_separator(text: Seq<char>) -> Seq<char> {
    let at = first_separator(text);
    if at < text.len() {
        text.skip(at + 2)
    } else {
        Seq::empty()
    }
}

/// Where the run of non-fillers that ends `text` begins: the length of
/// `text` if it is empty or ends with a filler.
pub open spec fn trailing_name_start(text: Seq<char>) -> int
    decreases text.len(),
{
    if text.len() == 0 || text.last() == FILLER {
        text.len() as int
    } else {
        trailing_name_start(text.drop_last())
    }
}

/// The components of `text`: its maximal runs of characters other than the
/// filler, in the order in which they stand.
pub open spec fn components(text: Seq<char>) -> Seq<Seq<char>>
    decreases text.len(),
{
    if text.len() == 0 {
        Seq::empty()
    } else if text.last() == FILLER {
        components(text.drop_last())
    } else {
        let start = trailing_name_start(text);
        proof {
            lemma_trailing_name_start(text);
        }
        components(text.take(start)).push(text.skip(start))
    }
}

/// The surnames that a name field holds.
pub open spec fn surnames_of(field: Seq<char>) -> Seq<Seq<char>> {
    components(part_before_separator(field))
}

/// The given names that a name field holds: those between the first
/// separator and the next.
pub open spec fn given_names_of(field: Seq<char>) -> Seq<Seq<char>> {
    components(part_before_separator(part_after_separator(field)))
}

/// The surnames and given names of a name field. A field with a character
/// outside the MRZ alphabet, or without a surname, is an `InvalidFormat`.
pub open spec fn split_names(field: Seq<char>) -> Result<
    (Seq<Seq<char>>, Seq<Seq<char>>),
    Error,
> {
    if is_mrz_text(field) && surnames_of(field).len() > 0 {
        Ok((surnames_of(field), given_names_of(field)))
    } else {
        Err(Error::InvalidFormat)
    }
}

/// The trailing run of non-fillers lies within `text`, holds no filler, and
/// is preceded by a filler or by nothing.
pub proof fn lemma_trailing_name_start(text: Seq<char>)
    ensures
        0 <= trailing_name_start(text) <= text.len(),
        text.len() > 0 && text.last() != FILLER ==> trailing_name_start(text) < text.len(),
        forall|i: int| trailing_name_start(text) <= i < text.len() ==> text[i] != FILLER,
        trailing_name_start(text) > 0 ==> text[trailing_name_start(text) - 1] == FILLER,
    decreases text.len(),
{
    if text.len() == 0 || text.last() == FILLER {
    } else {
        let shorter = text.drop_last();
        lemma_trailing_name_start(shorter);
        assert forall|i: int| trailing_name_start(text) <= i < text.len() implies text[i]
            != FILLER by {
            if i < shorter.len() {
                assert(shorter[i] == text[i]);
            }
        }
    }
}

/// A position that is preceded by a filler or by nothing, and followed by
/// no filler, is where the trailing run begins.
pub proof fn lemma_trailing_name_start_is(text: Seq<char>, start: int)
    requires
        0 <= start <= text.len(),
        forall|i: int| start <= i < text.len() ==> text[i] != FILLER,
        start > 0 ==> text[start - 1] == FILLER,
    ensures
        trailing_name_start(text) == start,
    decreases text.len(),
{
    if text.len() == 0 || text.last() == FILLER {
    } else {
        lemma_trailing_name_start_is(text.drop_last(), start);
    }
}

/// Any one position that satisfies `is_first_separator` is the first
/// separator.
pub proof fn lemma_first_separator_is(text: Seq<char>, at: int)
    requires
        is_first_separator(text, at),
    ensures
        first_separator(text) == at,
{
    let chosen = first_separator(text);
    assert(is_first_separator(text, chosen));
    if chosen < at {
        assert(separator_at(text, chosen));
    } else if at < chosen {
        assert(separator_at(text, at));
    }
}

/// Every text has a first separator, or none at all.
pub proof fn lemma_first_separator(text: Seq<char>)
    ensures
        is_first_separator(text, first_separator(text)),
{
    lemma_first_separator_from(text, 0);
}

proof fn lemma_first_separator_from(text: Seq<char>, from: int)
    requires
        0 <= from <= text.len(),
        forall|before: int| 0 <= before < from ==> !separator_at(text, before),
    ensures
        is_first_separator(text, first_separator(text)),
    decreases text.len() - from,
{
    if from == text.len() || separator_at(text, from) {
        assert(is_first_separator(text, from));
    } else {
        lemma_first_separator_from(text, from + 1);
    }
}

/// Finds the first separator of `text`.
fn find_separator(text: &str) -> (at: usize)
    requires
        text.is_ascii(),
    ensures
        at == first_separator(text@),
        is_first_separator(text@, at as int),
{
    let length: usize = text.unicode_len();
    if length < 2 {
        proof {
            assert(is_first_separator(text@, length as int));
            lemma_first_separator_is(text@, length as int);
        }
        return length;
    }
    let mut index: usize = 0;
    while index < length - 1
        invariant
            text.is_ascii(),
            length == text@.len(),
            length >= 2,
            index <= length - 1,
            forall|before: int| 0 <= before < index ==> !separator_at(text@, before),
        decreases length - index,
    {
        if ascii_char_at(text, index) == FILLER && ascii_char_at(text, index + 1) == FILLER {
            proof {
                assert(is_first_separator(text@, index as int));
                lemma_first_separator_is(text@, index as int);
            }
            return index;
        }
        index += 1;
    }
    proof {
        assert(is_first_separator(text@, length as int));
        lemma_first_separator_is(text@, length as int);
    }
    length
}

/// Splits `piece` into its components.
fn split_components(piece: &str) -> (names: Vec<String>)
    requires
        piece.is_ascii(),
    ensures
        names.deep_view() == components(piece@),
{
    let length: usize = piece.unicode_len();
    let mut names: Vec<String> = Vec::new();
    let mut start: usize = 0;
    let mut index: usize = 0;
    assert(piece@.take(0) =~= Seq::<char>::empty());
    while index < length
        invariant
            piece.is_ascii(),
            length == piece@.len(),
            start <= index <= length,
            names.deep_view() == components(piece@.take(start as int)),
            forall|i: int| start <= i < index ==> piece@[i] != FILLER,
            start > 0 ==> piece@[start - 1] == FILLER,
        decreases length - index,
    {
        if ascii_char_at(piece, index) == FILLER {
            let ghost before = piece@.take(index as int);
            let ghost through = piece@.take(index + 1);
            assert(through.drop_last() =~= before);
            if start < index {
                let name = piece.substring_ascii(start, index).to_owned();
                proof {
                    lemma_trailing_name_start_is(before, start as int);
                    assert(before.take(start as int) =~= piece@.take(start as int));
                    assert(before.skip(start as int) =~= name@);
                    assert(before.last() != FILLER);
                    assert(components(before) == components(piece@.take(start as int)).push(
                        name@,
                    ));
                    assert(components(through) == components(before));
                }
                let ghost earlier = names.deep_view();
                names.push(name);
                assert(names.deep_view() =~= earlier.push(name@));
            }
            start = index + 1;
        }
        index += 1;
    }
    if start < length {
        let name = piece.substring_ascii(start, length).to_owned();
        proof {
            lemma_trailing_name_start_is(piece@, start as int);
            assert(piece@.skip(start as int) =~= name@);
        }
        let ghost earlier = names.deep_view();
        names.push(name);
        assert(names.deep_view() =~= earlier.push(name@));
    } else {
        assert(piece@.take(start as int) =~= piece@);
    }
    names
}

/// Splits a name field into its surnames and its given names.
///
/// The surnames are the components before the first `<<`; the given names
/// are those between it and the next `<<`, and none if there is no `<<`.
/// A field with a character outside the MRZ alphabet, or without a surname,
/// is an `InvalidFormat`.
pub fn split_name_field(field: &str) -> (names: Result<(Vec<String>, Vec<String>), Error>)
    ensures
        match names {
            Ok((surnames, given_names)) => split_names(field@) == Ok::<
                (Seq<Seq<char>>, Seq<Seq<char>>),
                Error,
            >((surnames.deep_view(), given_names.deep_view())),
            Err(error) => split_names(field@) == Err::<(Seq<Seq<char>>, Seq<Seq<char>>), Error>(
                error,
            ),
        },
        names matches Ok((surnames, given_names)) ==> {
            &&& surnames.len() > 0
            &&& are_names(surnames.deep_view())
            &&& are_names(given_names.deep_view())
        },
{
    if !is_mrz_string(field) {
        return Err(Error::InvalidFormat);
    }
    let length: usize = field.unicode_len();
    let at: usize = find_separator(field);
    let surnames = split_components(field.substring_ascii(0, at));
    assert(field@.subrange(0, at as int) =~= part_before_separator(field@));
    if surnames.len() == 0 {
        return Err(Error::InvalidFormat);
    }
    assert(surnames.deep_view().len() == surnames.len());
    let given_names = if at < length {
        let rest = field.substring_ascii(at + 2, length);
        assert(rest@ =~= part_after_separator(field@));
        let end: usize = find_separator(rest);
        assert(rest@.subrange(0, end as int) =~= part_before_separator(rest@));
        split_components(rest.substring_ascii(0, end))
    } else {
        let none: Vec<String> = Vec::new();
        proof {
            let nothing = Seq::<char>::empty();
            assert(part_after_separator(field@) == nothing);
            assert(is_first_separator(nothing, 0));
            lemma_first_separator_is(nothing, 0);
            assert(part_before_separator(nothing) =~= nothing);
            assert(none.deep_view() =~= components(nothing));
        }
        none
    };
    assert(given_names.deep_view() == given_names_of(field@));
    assert(surnames.deep_view() == surnames_of(field@));
    proof {
        lemma_split_names_are_names(field@);
    }
    Ok((surnames, given_names))
}

/// The names of `names`, with one filler between each two.
pub open spec fn join_names(names: Seq<Seq<char>>) -> Seq<char>
    decreases names.len(),
{
    if names.len() == 0 {
        Seq::empty()
    } else if names.len() == 1 {
        names[0]
    } else {
        join_names(names.drop_last()) + seq![FILLER] + names.last()
    }
}

/// `count` fillers.
pub open spec fn fillers(count: nat) -> Seq<char> {
    Seq::new(count, |i: int| FILLER)
}

/// The surnames, a separator and the given names, before any padding.
pub open spec fn joined_names(surnames: Seq<Seq<char>>, given_names: Seq<Seq<char>>) -> Seq<char> {
    join_names(surnames) + seq![FILLER, FILLER] + join_names(given_names)
}

/// The name field of `width` characters that holds the given names: the
/// surnames, a separator and the given names, padded with fillers.
pub open spec fn name_field(
    surnames: Seq<Seq<char>>,
    given_names: Seq<Seq<char>>,
    width: nat,
) -> Seq<char> {
    let named = joined_names(surnames, given_names);
    named + fillers((width - named.len()) as nat)
}

/// Whether `field` is the name field that holds the given names: at least
/// one surname, every element a name, and the field wide enough for them.
pub open spec fn is_name_field_of(
    field: Seq<char>,
    surnames: Seq<Seq<char>>,
    given_names: Seq<Seq<char>>,
) -> bool {
    &&& surnames.len() > 0
    &&& are_names(surnames)
    &&& are_names(given_names)
    &&& joined_names(surnames, given_names).len() <= field.len()
    &&& field == name_field(surnames, given_names, field.len())
}

/// Joined names are text of the MRZ alphabet that holds no separator and
/// neither begins nor ends with a filler.
pub proof fn lemma_join_names(names: Seq<Seq<char>>)
    requires
        are_names(names),
    ensures
        is_mrz_text(join_names(names)),
        forall|at: int| !separator_at(join_names(names), at),
        names.len() == 0 ==> join_names(names).len() == 0,
        names.len() > 0 ==> join_names(names).len() > 0 && join_names(names)[0] != FILLER
            && join_names(names).last() != FILLER,
    decreases names.len(),
{
    if names.len() == 0 {
    } else if names.len() == 1 {
        assert(is_name(names[0]));
    } else {
        let earlier = join_names(names.drop_last());
        let last = names.last();
        let joined = join_names(names);
        assert(is_name(last));
        assert(are_names(names.drop_last())) by {
            assert forall|k: int| 0 <= k < names.drop_last().len() implies is_name(
                #[trigger] names.drop_last()[k],
            ) by {
                assert(is_name(names[k]));
            }
        }
        lemma_join_names(names.drop_last());
        assert(joined.len() == earlier.len() + 1 + last.len());
        assert forall|i: int| 0 <= i < joined.len() implies is_mrz_char(#[trigger] joined[i]) by {
            if i < earlier.len() {
                assert(joined[i] == earlier[i]);
            } else if i > earlier.len() {
                assert(joined[i] == last[i - earlier.len() - 1]);
            }
        }
        assert forall|at: int| !separator_at(joined, at) by {
            if 0 <= at && at + 1 < joined.len() {
                if at + 1 < earlier.len() {
                    assert(!separator_at(earlier, at));
                    assert(joined[at] == earlier[at] && joined[at + 1] == earlier[at + 1]);
                } else if at + 1 == earlier.len() {
                    assert(joined[at] == earlier.last());
                } else {
                    assert(joined[at + 1] == last[at - earlier.len()]);
                }
            }
        }
        assert(joined[0] == earlier[0]);
        assert(joined.last() == last.last());
    }
}

/// Splitting joined names into components gives the names back.
pub proof fn lemma_components_of_joined(names: Seq<Seq<char>>)
    requires
        are_names(names),
    ensures
        components(join_names(names)) == names,
    decreases names.len(),
{
    let joined = join_names(names);
    if names.len() == 0 {
        assert(components(joined) =~= names);
    } else if names.len() == 1 {
        assert(is_name(names[0]));
        lemma_trailing_name_start_is(joined, 0);
        assert(joined.take(0) =~= Seq::<char>::empty());
        assert(joined.skip(0) =~= joined);
        assert(joined.last() != FILLER);
        assert(components(joined) == components(joined.take(0)).push(joined));
        assert(components(joined) =~= names);
    } else {
        let earlier = join_names(names.drop_last());
        let last = names.last();
        let start = earlier.len() + 1;
        assert(is_name(last));
        assert(are_names(names.drop_last())) by {
            assert forall|k: int| 0 <= k < names.drop_last().len() implies is_name(
                #[trigger] names.drop_last()[k],
            ) by {
                assert(is_name(names[k]));
            }
        }
        lemma_components_of_joined(names.drop_last());
        assert(joined.len() == start + last.len());
        assert forall|i: int| start <= i < joined.len() implies joined[i] != FILLER by {
            assert(joined[i] == last[i - start]);
        }
        assert(joined[start - 1] == FILLER);
        lemma_trailing_name_start_is(joined, start as int);
        assert(joined.skip(start as int) =~= last);
        let through = joined.take(start as int);
        assert(through =~= earlier + seq![FILLER]);
        assert(through.drop_last() =~= earlier);
        assert(components(through) == components(earlier));
        assert(joined.last() == last.last());
        assert(components(joined) == components(through).push(last));
        assert(names.drop_last().push(last) =~= names);
    }
}

/// Fillers at the end of a text add no component.
pub proof fn lemma_components_ignore_trailing_fillers(text: Seq<char>, count: nat)
    ensures
        components(text + fillers(count)) == components(text),
    decreases count,
{
    let padded = text + fillers(count);
    if count == 0 {
        assert(padded =~= text);
    } else {
        assert(padded.last() == FILLER);
        assert(padded.drop_last() =~= text + fillers((count - 1) as nat));
        lemma_components_ignore_trailing_fillers(text, (count - 1) as nat);
    }
}

/// Of text without a separator that does not end with a filler, followed by
/// padding, the components before the first separator are those of the
/// text.
proof fn lemma_components_before_padding(named: Seq<char>, padding: nat)
    requires
        forall|at: int| !separator_at(named, at),
        named.len() == 0 || named.last() != FILLER,
    ensures
        components(part_before_separator(named + fillers(padding))) == components(named),
{
    let padded = named + fillers(padding);
    let end = named.len() as int;
    assert forall|before: int| 0 <= before < end implies !separator_at(padded, before) by {
        if before + 1 < end {
            assert(!separator_at(named, before));
            assert(padded[before] == named[before] && padded[before + 1] == named[before + 1]);
        } else {
            assert(padded[before] == named.last());
        }
    }
    if padding >= 2 {
        assert(padded[end] == FILLER && padded[end + 1] == FILLER);
        assert(is_first_separator(padded, end));
        lemma_first_separator_is(padded, end);
        assert(padded.take(end) =~= named);
    } else {
        assert(is_first_separator(padded, padded.len() as int));
        lemma_first_separator_is(padded, padded.len() as int);
        assert(padded.take(padded.len() as int) =~= padded);
        lemma_components_ignore_trailing_fillers(named, padding);
    }
}

/// A name field splits into the names that it was made of, and joining
/// what it splits into gives the field back.
///
/// This holds of the fields that `name_field` makes: one or more surnames,
/// a separator, the given names, and fillers up to the width.
pub proof fn lemma_name_field_round_trip(
    field: Seq<char>,
    surnames: Seq<Seq<char>>,
    given_names: Seq<Seq<char>>,
)
    requires
        is_name_field_of(field, surnames, given_names),
    ensures
        split_names(field) == Ok::<(Seq<Seq<char>>, Seq<Seq<char>>), Error>(
            (surnames, given_names),
        ),
        name_field(split_names(field)->Ok_0.0, split_names(field)->Ok_0.1, field.len()) == field,
{
    let family = join_names(surnames);
    let given = join_names(given_names);
    let named = joined_names(surnames, given_names);
    let padding = (field.len() - named.len()) as nat;
    let end = family.len() as int;
    lemma_join_names(surnames);
    lemma_join_names(given_names);
    lemma_components_of_joined(surnames);
    lemma_components_of_joined(given_names);
    assert(named.len() == family.len() + 2 + given.len());
    assert(field.len() == named.len() + padding);
    assert forall|i: int| 0 <= i < field.len() implies is_mrz_char(#[trigger] field[i]) by {
        if i < end {
            assert(field[i] == family[i]);
        } else if end + 2 <= i < named.len() {
            assert(field[i] == given[i - end - 2]);
        } else {
            assert(field[i] == FILLER);
        }
    }
    assert forall|before: int| 0 <= before < end implies !separator_at(field, before) by {
        if before + 1 < end {
            assert(!separator_at(family, before));
            assert(field[before] == family[before] && field[before + 1] == family[before + 1]);
        } else {
            assert(field[before] == family.last());
        }
    }
    assert(field[end] == FILLER && field[end + 1] == FILLER);
    assert(is_first_separator(field, end));
    lemma_first_separator_is(field, end);
    assert(part_before_separator(field) =~= family);
    assert(part_after_separator(field) =~= given + fillers(padding));
    lemma_components_before_padding(given, padding);
}

/// The components of text of the MRZ alphabet are names.
pub proof fn lemma_components_are_names(text: Seq<char>)
    requires
        is_mrz_text(text),
    ensures
        are_names(components(text)),
    decreases text.len(),
{
    if text.len() == 0 {
    } else if text.last() == FILLER {
        lemma_components_are_names(text.drop_last());
    } else {
        let start = trailing_name_start(text);
        lemma_trailing_name_start(text);
        lemma_components_are_names(text.take(start));
        let earlier = components(text.take(start));
        let last = text.skip(start);
        assert(is_name(last));
        assert forall|k: int| 0 <= k < earlier.push(last).len() implies is_name(
            #[trigger] earlier.push(last)[k],
        ) by {
            if k < earlier.len() {
                assert(is_name(earlier[k]));
            }
        }
    }
}

/// Whatever a name field of the MRZ alphabet splits into: the surnames and
/// the given names are names, and there is at least one surname.
pub proof fn lemma_split_names_are_names(field: Seq<char>)
    requires
        split_names(field) is Ok,
    ensures
        split_names(field)->Ok_0.0.len() > 0,
        are_names(split_names(field)->Ok_0.0),
        are_names(split_names(field)->Ok_0.1),
{
    lemma_first_separator(field);
    lemma_components_are_names(part_before_separator(field));
    let rest = part_after_separator(field);
    lemma_first_separator(rest);
    lemma_components_are_names(part_before_separator(rest));
}

} // verus!
