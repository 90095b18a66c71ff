//! The gender of a person where the portal may leave it out.

use vstd::prelude::*;
use vstd::string::StringExecFns;

use super::gender::{gender_of, gender_text, parse_gender};
use crate::edupage::{EdupageError, EdupageErrorView};
use crate::types::dbi::Gender;

verus! {

/// What reading an optional text gives: no gender for a missing or empty
/// text, else the gender that the text names, or an error.
pub open spec fn optional_gender(value: Option<Seq<char>>) -> Result<
    Option<Gender>,
    EdupageErrorView,
> {
    match value {
        None => Ok(None),
        Some(text) => if text.len() == 0 {
            Ok(None)
        } else {
            match gender_of(text) {
                Some(gender) => Ok(Some(gender)),
                None => Err(
                    EdupageErrorView::ParseError("Failed to deserialize gender: "@ + text),
                ),
            }
        },
    }
}

pub fn serialize(gender: &Option<Gender>) -> (r: Option<&'static str>)
    ensures
        match *gender {
            Some(g) => r matches Some(text) && text@ == gender_text(g),
            None => r is None,
        },
{
    match gender {
        Some(g) => Some(super::gender::serialize(g)),
        None => None,
    }
}

/// Reads an optional gender.
pub fn deserialize(value: Option<&str>) -> (r: Result<Option<Gender>, EdupageError>)
    ensures
        match optional_gender(
            match value {
                Some(text) => Some(text@),
                None => None,
            },
        ) {
            Ok(gender) => r == Ok::<Option<Gender>, EdupageError>(gender),
            Err(e) => r matches Err(error) && error@ == e,
        },
{
    let text = match value {
        Some(text) => text,
        None => {
            return Ok(None);
        },
    };
    if text.unicode_len() == 0 {
        return Ok(None);
    }
    match parse_gender(text) {
        Some(gender) => Ok(Some(gender)),
        None => Err(
            EdupageError::ParseError(
                String::from_str("Failed to deserialize gender: ").concat(text),
            ),
        ),
    }
}

} // verus!
