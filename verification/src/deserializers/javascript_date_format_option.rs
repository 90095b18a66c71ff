//! A moment that the portal sends as `YYYY-MM-DD HH:MM:SS`, or not at all.

use vstd::prelude::*;
use vstd::string::StringExecFns;

use crate::calendar::{
    date_time_of_text, date_time_text, format_date_time, parse_date_time, parse_error_text,
};
use crate::edupage::EdupageError;
use crate::types::time::{Date, DateTime};

verus! {

/// The moment that a parsed text names.
pub open spec fn moment_from(numbers: (i32, u32, u32, u32, u32, u32, u32)) -> DateTime {
    DateTime {
        date: Date { year: numbers.0, month: numbers.1, day: numbers.2 },
        hour: numbers.3,
        minute: numbers.4,
        second: numbers.5,
        nanosecond: numbers.6,
    }
}

/// Decides what an optional text that the calendar has read, or failed to
/// read, stands for. `read` is the calendar's answer for the text, if there
/// is a text.
pub fn moment_of_reading(read: Option<Result<DateTime, String>>) -> (r: Result<
    Option<DateTime>,
    EdupageError,
>)
    ensures
        match read {
            None => r matches Ok(None),
            Some(Ok(moment)) => r == Ok::<Option<DateTime>, EdupageError>(Some(moment)),
            Some(Err(message)) => r == Err::<Option<DateTime>, EdupageError>(
                EdupageError::ParseError(message),
            ),
        },
{
    match read {
        None => Ok(None),
        Some(Ok(moment)) => Ok(Some(moment)),
        Some(Err(message)) => Err(EdupageError::ParseError(message)),
    }
}

/// Reads an optional moment. A text that names no moment is an error, an
/// empty one too.
pub fn deserialize(value: Option<&str>) -> (r: Result<Option<DateTime>, EdupageError>)
    ensures
        match value {
            None => r matches Ok(None),
            Some(text) => match date_time_of_text(text@) {
                Some(numbers) => r == Ok::<Option<DateTime>, EdupageError>(
                    Some(moment_from(numbers)),
                ),
                None => r matches Err(EdupageError::ParseError(_)),
            },
        },
{
    let read = match value {
        None => None,
        Some(text) => match parse_date_time(text) {
            Ok(moment) => Some(Ok(moment)),
            Err(e) => Some(Err(parse_error_text(&e))),
        },
    };
    moment_of_reading(read)
}

/// Writes an optional moment. A moment that the calendar does not have
/// cannot be written.
pub fn serialize(date: &Option<DateTime>) -> (r: Result<Option<String>, EdupageError>)
    ensures
        match *date {
            None => r matches Ok(None),
            Some(t) => match date_time_text(
                t.date.year,
                t.date.month,
                t.date.day,
                t.hour,
                t.minute,
                t.second,
                t.nanosecond,
            ) {
                Some(text) => r matches Ok(Some(written)) && written@ == text,
                None => r matches Err(EdupageError::SerializationError(_)),
            },
        },
{
    match date {
        None => Ok(None),
        Some(moment) => match format_date_time(moment) {
            Some(written) => Ok(Some(written)),
            None => Err(EdupageError::SerializationError(String::from_str("No such moment"))),
        },
    }
}

} // verus!
