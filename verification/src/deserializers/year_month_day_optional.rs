//! A day that the portal sends as `YYYY-MM-DD`, as an empty text, or not at
//! all.

use vstd::prelude::*;
use vstd::string::StringExecFns;

use crate::calendar::{date_of_text, date_text, format_date, parse_date, parse_error_text};
use crate::edupage::EdupageError;
use crate::types::time::Date;

verus! {

/// The day that a parsed text names.
pub open spec fn date_from(numbers: (i32, u32, u32)) -> Date {
    Date { year: numbers.0, month: numbers.1, day: numbers.2 }
}

/// What reading an optional text gives, where `read` is what the calendar
/// reads from the text: no day for a missing or empty text, else the day
/// read, and no result where none was read.
pub open spec fn optional_date(value: Option<Seq<char>>, read: Option<(i32, u32, u32)>) -> Option<
    Option<Date>,
> {
    match value {
        None => Some(None),
        Some(text) => if text.len() == 0 {
            Some(None)
        } else {
            match read {
                Some(numbers) => Some(Some(date_from(numbers))),
                None => None,
            }
        },
    }
}

/// Decides what a text that the calendar has read, or failed to read,
/// stands for. `read` is the calendar's answer for `text`.
pub fn date_of_reading(text: &str, read: Result<Date, String>) -> (r: Result<
    Option<Date>,
    EdupageError,
>)
    ensures
        text@.len() == 0 ==> r matches Ok(None),
        text@.len() > 0 ==> match read {
            Ok(day) => r == Ok::<Option<Date>, EdupageError>(Some(day)),
            Err(message) => r == Err::<Option<Date>, EdupageError>(
                EdupageError::ParseError(message),
            ),
        },
{
    if text.unicode_len() == 0 {
        return Ok(None);
    }
    match read {
        Ok(day) => Ok(Some(day)),
        Err(message) => Err(EdupageError::ParseError(message)),
    }
}

/// Reads an optional day. A text that is not empty and names no day is an
/// error.
pub fn deserialize(value: Option<&str>) -> (r: Result<Option<Date>, EdupageError>)
    ensures
        match optional_date(
            match value {
                Some(text) => Some(text@),
                None => None,
            },
            match value {
                Some(text) => date_of_text(text@),
                None => None,
            },
        ) {
            Some(day) => r == Ok::<Option<Date>, EdupageError>(day),
            None => r matches Err(EdupageError::ParseError(_)),
        },
{
    let text = match value {
        Some(text) => text,
        None => {
            return Ok(None);
        },
    };
    let read = match parse_date(text) {
        Ok(day) => Ok(day),
        Err(e) => Err(parse_error_text(&e)),
    };
    date_of_reading(text, read)
}

/// Writes an optional day. A day that the calendar does not have cannot be
/// written.
pub fn serialize(date: &Option<Date>) -> (r: Result<Option<String>, EdupageError>)
    ensures
        match *date {
            None => r matches Ok(None),
            Some(day) => match date_text(day.year, day.month, day.day) {
                Some(text) => r matches Ok(Some(written)) && written@ == text,
                None => r matches Err(EdupageError::SerializationError(_)),
            },
        },
{
    match date {
        None => Ok(None),
        Some(day) => match format_date(day) {
            Some(written) => Ok(Some(written)),
            None => Err(EdupageError::SerializationError(String::from_str("No such day"))),
        },
    }
}

} // verus!
