//! The gender of a person, which the portal writes as one letter.

use vstd::prelude::*;
use vstd::string::StringExecFns;

use crate::edupage::{EdupageError, EdupageErrorView};
use crate::text::{chars_of, text_is};
use crate::types::dbi::Gender;

verus! {

/// The gender that a text names: `M` or `F`, in either case.
pub open spec fn gender_of(s: Seq<char>) -> Option<Gender> {
    if s == "m"@ || s == "M"@ {
        Some(Gender::Male)
    } else if s == "f"@ || s == "F"@ {
        Some(Gender::Female)
    } else {
        None
    }
}

/// The letter of a gender.
pub open spec fn gender_text(gender: Gender) -> Seq<char> {
    match gender {
        Gender::Male => "M"@,
        Gender::Female => "F"@,
    }
}

/// What reading `s` gives.
pub open spec fn gender_or_error(s: Seq<char>) -> Result<Gender, EdupageErrorView> {
    match gender_of(s) {
        Some(gender) => Ok(gender),
        None => Err(EdupageErrorView::ParseError("Failed to deserialize gender: "@ + s)),
    }
}

/// A gender reads back from its letter.
pub proof fn lemma_gender_round_trip(gender: Gender)
    ensures
        gender_of(gender_text(gender)) == Some(gender),
{
    reveal_strlit("m");
    reveal_strlit("M");
    reveal_strlit("f");
    reveal_strlit("F");
    assert("F"@[0] == 'F');
    assert("m"@[0] == 'm');
    assert("M"@[0] == 'M');
}

/// Reads a gender, if `s` names one.
pub fn parse_gender(s: &str) -> (r: Option<Gender>)
    ensures
        r == gender_of(s@),
{
    let v = chars_of(s);
    if text_is(&v, "m") || text_is(&v, "M") {
        Some(Gender::Male)
    } else if text_is(&v, "f") || text_is(&v, "F") {
        Some(Gender::Female)
    } else {
        None
    }
}

pub fn serialize(gender: &Gender) -> (r: &'static str)
    ensures
        r@ == gender_text(*gender),
{
    match gender {
        Gender::Male => "M",
        Gender::Female => "F",
    }
}

/// Reads a gender. A text that names none is an error.
pub fn deserialize(s: &str) -> (r: Result<Gender, EdupageError>)
    ensures
        match gender_or_error(s@) {
            Ok(gender) => r == Ok::<Gender, EdupageError>(gender),
            Err(e) => r matches Err(error) && error@ == e,
        },
{
    match parse_gender(s) {
        Some(gender) => Ok(gender),
        None => Err(
            EdupageError::ParseError(String::from_str("Failed to deserialize gender: ").concat(s)),
        ),
    }
}

} // verus!
