//! Times of day that the portal sends as `hour:minute`.
//!
//! Such a text names no day. Reading it puts the time on a day that the
//! caller gives, or on the local day of the call.

use vstd::prelude::*;
use vstd::string::StringExecFns;

use crate::calendar::{is_time_of_day, local_today};
use crate::edupage::{EdupageError, EdupageErrorView};
use crate::numeral::{parse_u32_in, parse_u32_spec};
use crate::text::{after_first, before_first, chars_of, find_in};
use crate::types::time::{Date, DateTime};

verus! {

/// Why a text is no time of day.
#[derive(Clone, Copy, Debug, PartialEq, Eq, Structural)]
pub enum TimeFault {
    /// What stands before the first `:` is no number.
    Hour,
    /// Nothing follows a `:`, or what follows is no number.
    Minute,
    /// The hour is above 23 or the minute above 59.
    Range,
}

/// The hour and minute that `s` writes: the numerals before the first `:`
/// and between it and the next one, or the end. What follows a second `:` is
/// not looked at.
pub open spec fn time_of_day(s: Seq<char>) -> Result<(u32, u32), TimeFault> {
    match parse_u32_spec(before_first(s, ":"@)) {
        None => Err(TimeFault::Hour),
        Some(hour) => match after_first(s, ":"@) {
            None => Err(TimeFault::Minute),
            Some(text) => match parse_u32_spec(text) {
                None => Err(TimeFault::Minute),
                Some(minute) => if hour < 24 && minute < 60 {
                    Ok((hour, minute))
                } else {
                    Err(TimeFault::Range)
                },
            },
        },
    }
}

/// The message of the error that a fault is reported with.
pub open spec fn fault_message(fault: TimeFault) -> Seq<char> {
    match fault {
        TimeFault::Hour => "Failed to parse hours"@,
        TimeFault::Minute => "Failed to parse minutes"@,
        TimeFault::Range => "Hours or minutes out of range"@,
    }
}

/// What reading `s` on the day `today` gives.
pub open spec fn time_on(today: Date, s: Seq<char>) -> Result<DateTime, EdupageErrorView> {
    match time_of_day(s) {
        Ok((hour, minute)) => Ok(
            DateTime { date: today, hour, minute, second: 0, nanosecond: 0 },
        ),
        Err(fault) => Err(EdupageErrorView::ParseError(fault_message(fault))),
    }
}

/// Reads the hour and the minute of `s`.
pub fn parse_time_of_day(s: &str) -> (r: Result<(u32, u32), TimeFault>)
    ensures
        r == time_of_day(s@),
{
    let v = chars_of(s);
    let colon = chars_of(":");
    assert(v@.subrange(0, v@.len() as int) =~= v@);
    let first = find_in(&v, &colon, 0, v.len());
    let hour_end = match first {
        Some(i) => i,
        None => v.len(),
    };
    assert(before_first(v@, colon@) =~= v@.subrange(0, hour_end as int));
    let hour = match parse_u32_in(&v, 0, hour_end) {
        Some(hour) => hour,
        None => {
            return Err(TimeFault::Hour);
        },
    };
    let start = match first {
        Some(i) => i + colon.len(),
        None => {
            return Err(TimeFault::Minute);
        },
    };
    assert(v@.skip(start as int) =~= v@.subrange(start as int, v@.len() as int));
    let minute_end = match find_in(&v, &colon, start, v.len()) {
        Some(j) => j,
        None => v.len(),
    };
    assert(after_first(v@, colon@) == Some(v@.subrange(start as int, minute_end as int))) by {
        assert(v@.skip(start as int).take(minute_end - start) =~= v@.subrange(
            start as int,
            minute_end as int,
        ));
    }
    let minute = match parse_u32_in(&v, start, minute_end) {
        Some(minute) => minute,
        None => {
            return Err(TimeFault::Minute);
        },
    };
    if is_time_of_day(hour, minute) {
        Ok((hour, minute))
    } else {
        Err(TimeFault::Range)
    }
}

/// The error that a fault is reported with.
pub fn fault_error(fault: TimeFault) -> (r: EdupageError)
    ensures
        r@ == EdupageErrorView::ParseError(fault_message(fault)),
{
    match fault {
        TimeFault::Hour => EdupageError::ParseError(String::from_str("Failed to parse hours")),
        TimeFault::Minute => EdupageError::ParseError(
            String::from_str("Failed to parse minutes"),
        ),
        TimeFault::Range => EdupageError::ParseError(
            String::from_str("Hours or minutes out of range"),
        ),
    }
}

/// Reads `s` as a time of day on the day `today`.
pub fn deserialize_time_on(today: Date, s: &str) -> (r: Result<DateTime, EdupageError>)
    ensures
        match time_on(today, s@) {
            Ok(moment) => r == Ok::<DateTime, EdupageError>(moment),
            Err(e) => r matches Err(error) && error@ == e,
        },
{
    match parse_time_of_day(s) {
        Ok((hour, minute)) => Ok(DateTime::at(today, hour, minute)),
        Err(fault) => Err(fault_error(fault)),
    }
}

/// Reads `s` as a time of day on the local day of the call. Whatever that
/// day is, the time and the errors are those of `deserialize_time_on`.
pub fn deserialize_time(s: &str) -> (r: Result<DateTime, EdupageError>)
    ensures
        match time_of_day(s@) {
            Ok((hour, minute)) => r matches Ok(moment) && moment.hour == hour && moment.minute
                == minute && moment.second == 0 && moment.nanosecond == 0,
            Err(fault) => r matches Err(error) && error@ == EdupageErrorView::ParseError(
                fault_message(fault),
            ),
        },
{
    deserialize_time_on(local_today(), s)
}

} // verus!
