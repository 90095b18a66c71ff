//! A time of day that a plan item may carry, as `hour:minute`.

use vstd::prelude::*;
use vstd::string::StringExecFns;

use super::date::{parse_time_of_day, time_of_day, TimeFault};
use crate::calendar::local_today;
use crate::edupage::{EdupageError, EdupageErrorView};
use crate::numeral::{all_digits, is_digit, lemma_nat_text, nat_text, push_nat};
use crate::text::{after_first, before_first, lemma_first_is, lemma_first_is_none, occurs_at};
use crate::types::time::{Date, DateTime};

verus! {

/// The message of the error that a fault in `value` is reported with.
pub open spec fn fault_message(fault: TimeFault, value: Seq<char>) -> Seq<char> {
    match fault {
        TimeFault::Hour => "Failed to deserialize hour from "@ + value,
        TimeFault::Minute => "Failed to deserialize minute from "@ + value,
        TimeFault::Range => "Failed to create NaiveTime from "@ + value,
    }
}

/// What reading an optional text on the day `today` gives: no time for a
/// missing text, else the time that the text writes, or the error of its
/// fault.
pub open spec fn optional_time_on(today: Date, value: Option<Seq<char>>) -> Result<
    Option<DateTime>,
    EdupageErrorView,
> {
    match value {
        None => Ok(None),
        Some(text) => match time_of_day(text) {
            Ok((hour, minute)) => Ok(
                Some(DateTime { date: today, hour, minute, second: 0, nanosecond: 0 }),
            ),
            Err(fault) => Err(EdupageErrorView::ParseError(fault_message(fault, text))),
        },
    }
}

/// How a time of day is written: hour and minute without leading zeros.
pub open spec fn time_text(moment: DateTime) -> Seq<char> {
    nat_text(moment.hour as nat) + ":"@ + nat_text(moment.minute as nat)
}

/// A run of digits holds no `:`.
proof fn lemma_digits_hold_no_colon(digits: Seq<char>)
    requires
        all_digits(digits),
    ensures
        forall|j: int| 0 <= j ==> !occurs_at(digits, ":"@, j),
{
    reveal_strlit(":");
    assert forall|j: int| 0 <= j implies !occurs_at(digits, ":"@, j) by {
        if occurs_at(digits, ":"@, j) {
            assert(digits.subrange(j, j + 1)[0] == digits[j]);
            assert(is_digit(digits[j]));
        }
    }
}

/// A time of day reads back from its text: for every hour below 24 and
/// minute below 60, what `serialize` writes is read as that hour and minute.
pub proof fn lemma_time_round_trip(moment: DateTime)
    requires
        moment.hour < 24,
        moment.minute < 60,
    ensures
        time_of_day(time_text(moment)) == Ok::<(u32, u32), TimeFault>(
            (moment.hour, moment.minute),
        ),
{
    reveal_strlit(":");
    let hour = nat_text(moment.hour as nat);
    let minute = nat_text(moment.minute as nat);
    let s = time_text(moment);
    lemma_nat_text(moment.hour as nat);
    lemma_nat_text(moment.minute as nat);
    lemma_digits_hold_no_colon(hour);
    lemma_digits_hold_no_colon(minute);
    let n = hour.len() as int;
    assert(s.len() == n + 1 + minute.len());
    assert(s.subrange(n, n + 1) =~= ":"@);
    assert forall|j: int| 0 <= j < n implies !occurs_at(s, ":"@, j) by {
        if occurs_at(s, ":"@, j) {
            assert(s.subrange(j, j + 1)[0] == s[j]);
            assert(s[j] == hour[j]);
            assert(is_digit(hour[j]));
        }
    }
    lemma_first_is(s, ":"@, n);
    assert(s.take(n) =~= hour);
    assert(s.skip(n + 1) =~= minute);
    lemma_first_is_none(minute, ":"@);
    assert(before_first(s, ":"@) == hour);
    assert(after_first(s, ":"@) == Some(minute));
    assert(is_digit(hour[0]));
    assert(is_digit(minute[0]));
}

/// Writes the time of day of an optional moment.
pub fn serialize(item: &Option<DateTime>) -> (r: Option<String>)
    ensures
        match *item {
            Some(moment) => r matches Some(text) && text@ == time_text(moment),
            None => r is None,
        },
{
    match item {
        Some(moment) => {
            let mut out = String::new();
            push_nat(&mut out, moment.hour as u64);
            out.append(":");
            push_nat(&mut out, moment.minute as u64);
            assert(out@ =~= time_text(*moment));
            Some(out)
        },
        None => None,
    }
}

/// Reads an optional time of day on the day `today`.
pub fn deserialize_on(today: Date, value: Option<&str>) -> (r: Result<
    Option<DateTime>,
    EdupageError,
>)
    ensures
        match optional_time_on(
            today,
            match value {
                Some(text) => Some(text@),
                None => None,
            },
        ) {
            Ok(moment) => r == Ok::<Option<DateTime>, EdupageError>(moment),
            Err(e) => r matches Err(error) && error@ == e,
        },
{
    let text = match value {
        Some(text) => text,
        None => {
            return Ok(None);
        },
    };
    match parse_time_of_day(text) {
        Ok((hour, minute)) => Ok(Some(DateTime::at(today, hour, minute))),
        Err(fault) => {
            let prefix = match fault {
                TimeFault::Hour => "Failed to deserialize hour from ",
                TimeFault::Minute => "Failed to deserialize minute from ",
                TimeFault::Range => "Failed to create NaiveTime from ",
            };
            Err(EdupageError::ParseError(String::from_str(prefix).concat(text)))
        },
    }
}

/// Reads an optional time of day on the local day of the call. Whatever
/// that day is, the time and the errors are those of `deserialize_on`.
pub fn deserialize(value: Option<&str>) -> (r: Result<Option<DateTime>, EdupageError>)
    ensures
        match value {
            None => r matches Ok(None),
            Some(text) => match time_of_day(text@) {
                Ok((hour, minute)) => r matches Ok(Some(moment)) && moment.hour == hour
                    && moment.minute == minute && moment.second == 0 && moment.nanosecond == 0,
                Err(fault) => r matches Err(error) && error@ == EdupageErrorView::ParseError(
                    fault_message(fault, text@),
                ),
            },
        },
{
    deserialize_on(local_today(), value)
}

} // verus!
