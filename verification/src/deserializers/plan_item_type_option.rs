//! The kind of a plan item, where the portal names one.

use vstd::prelude::*;
use vstd::string::StringExecFns;

use crate::edupage::{EdupageError, EdupageErrorView};
use crate::text::{chars_of, text_is};
use crate::types::timetable::PlanItemType;

verus! {

/// The name of a kind.
pub open spec fn kind_text(kind: PlanItemType) -> Seq<char> {
    match kind {
        PlanItemType::Period => "period"@,
        PlanItemType::Lesson => "lesson"@,
    }
}

/// What reading an optional text gives: no kind for a missing text, the
/// kind that the text names, or an error for any other text.
pub open spec fn optional_kind(value: Option<Seq<char>>) -> Result<
    Option<PlanItemType>,
    EdupageErrorView,
> {
    match value {
        None => Ok(None),
        Some(text) => if text == "period"@ {
            Ok(Some(PlanItemType::Period))
        } else if text == "lesson"@ {
            Ok(Some(PlanItemType::Lesson))
        } else {
            Err(EdupageErrorView::ParseError("Unknown plan item type "@ + text))
        },
    }
}

/// A kind reads back from its name.
pub proof fn lemma_kind_round_trip(kind: PlanItemType)
    ensures
        optional_kind(Some(kind_text(kind))) == Ok::<Option<PlanItemType>, EdupageErrorView>(
            Some(kind),
        ),
{
    reveal_strlit("period");
    reveal_strlit("lesson");
    assert("period"@[0] == 'p');
    assert("lesson"@[0] == 'l');
}

pub fn serialize(item: &Option<PlanItemType>) -> (r: Option<&'static str>)
    ensures
        match *item {
            Some(kind) => r matches Some(text) && text@ == kind_text(kind),
            None => r is None,
        },
{
    match item {
        Some(PlanItemType::Period) => Some("period"),
        Some(PlanItemType::Lesson) => Some("lesson"),
        None => None,
    }
}

/// Reads an optional kind.
pub fn deserialize(value: Option<&str>) -> (r: Result<Option<PlanItemType>, EdupageError>)
    ensures
        match optional_kind(
            match value {
                Some(text) => Some(text@),
                None => None,
            },
        ) {
            Ok(kind) => r == Ok::<Option<PlanItemType>, EdupageError>(kind),
            Err(e) => r matches Err(error) && error@ == e,
        },
{
    let text = match value {
        Some(text) => text,
        None => {
            return Ok(None);
        },
    };
    let v = chars_of(text);
    if text_is(&v, "period") {
        Ok(Some(PlanItemType::Period))
    } else if text_is(&v, "lesson") {
        Ok(Some(PlanItemType::Lesson))
    } else {
        Err(EdupageError::ParseError(String::from_str("Unknown plan item type ").concat(text)))
    }
}

} // verus!
