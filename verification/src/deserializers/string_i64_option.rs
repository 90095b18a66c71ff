//! A number that the portal sends as a text, or not at all.

use vstd::prelude::*;

use crate::numeral::{parse_i64, parse_i64_spec};

verus! {

/// The number that an optional text stands for: none for a missing text, an
/// empty one, or one that is no numeral of an `i64`.
pub open spec fn number_of(value: Option<Seq<char>>) -> Option<i64> {
    match value {
        Some(text) => parse_i64_spec(text),
        None => None,
    }
}

/// A text that is no numeral of an `i64` stands for no number, and so does
/// an empty one.
pub proof fn lemma_no_numeral_is_no_number(text: Seq<char>)
    requires
        parse_i64_spec(text) is None,
    ensures
        number_of(Some(text)) is None,
        number_of(Some(Seq::<char>::empty())) is None,
{
}

/// Reads the number. Nothing is an error here: what cannot be read is no
/// number.
pub fn deserialize(value: Option<&str>) -> (r: Option<i64>)
    ensures
        r == number_of(
            match value {
                Some(text) => Some(text@),
                None => None,
            },
        ),
{
    match value {
        Some(text) => parse_i64(text),
        None => None,
    }
}

} // verus!
