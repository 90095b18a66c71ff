//! What the `chrono` crate computes for the library: reading and writing
//! dates, the validity of a time of day, and the current local day.
//!
//! Every item here is believed, not proved. Dates cross the boundary as
//! plain numbers.

use chrono::Datelike;
use chrono::Timelike;
use vstd::prelude::*;

use crate::types::time::{Date, DateTime, Weekday};

verus! {

/// The error of `chrono`'s parsers.
#[verifier::external_type_specification]
#[verifier::external_body]
pub struct ExParseError(chrono::format::ParseError);

/// Year, month and day of the date that `chrono` reads from `text` under the
/// format `%Y-%m-%d`; `None` where it reads none.
pub uninterp spec fn date_of_text(text: Seq<char>) -> Option<(i32, u32, u32)>;

/// The numbers of the moment that `chrono` reads from `text` under the
/// format `%Y-%m-%d %H:%M:%S`: year, month, day, hour, minute, second and
/// nanosecond; `None` where it reads none.
pub uninterp spec fn date_time_of_text(text: Seq<char>) -> Option<
    (i32, u32, u32, u32, u32, u32, u32),
>;

/// What `chrono` writes for a day under the format `%Y-%m-%d`; `None` where
/// the three numbers name no day of its calendar.
pub uninterp spec fn date_text(year: i32, month: u32, day: u32) -> Option<Seq<char>>;

/// What `chrono` writes for a moment under the format `%Y-%m-%d %H:%M:%S`;
/// `None` where the numbers name no moment of its calendar.
pub uninterp spec fn date_time_text(
    year: i32,
    month: u32,
    day: u32,
    hour: u32,
    minute: u32,
    second: u32,
    nanosecond: u32,
) -> Option<Seq<char>>;

/// The numbers of a date: year, month and day.
pub open spec fn date_numbers(d: Date) -> (i32, u32, u32) {
    (d.year, d.month, d.day)
}

/// The numbers of a moment: those of its date, then hour, minute, second
/// and nanosecond.
pub open spec fn date_time_numbers(t: DateTime) -> (i32, u32, u32, u32, u32, u32, u32) {
    (t.date.year, t.date.month, t.date.day, t.hour, t.minute, t.second, t.nanosecond)
}

/// `NaiveDate::parse_from_str` with the format `%Y-%m-%d`. The contract only
/// names the outcome: the same text always reads the same way.
#[verifier::external_body]
pub(crate) fn parse_date(s: &str) -> (r: Result<Date, chrono::format::ParseError>)
    ensures
        match r {
            Ok(d) => date_of_text(s@) == Some(date_numbers(d)),
            Err(_) => date_of_text(s@) is None,
        },
{
    chrono::NaiveDate::parse_from_str(s, "%Y-%m-%d").map(
        |d| Date { year: d.year(), month: d.month(), day: d.day() },
    )
}

/// `NaiveDateTime::parse_from_str` with the format `%Y-%m-%d %H:%M:%S`. The
/// contract only names the outcome.
#[verifier::external_body]
pub(crate) fn parse_date_time(s: &str) -> (r: Result<DateTime, chrono::format::ParseError>)
    ensures
        match r {
            Ok(t) => date_time_of_text(s@) == Some(date_time_numbers(t)),
            Err(_) => date_time_of_text(s@) is None,
        },
{
    chrono::NaiveDateTime::parse_from_str(s, "%Y-%m-%d %H:%M:%S").map(
        |t| DateTime {
            date: Date { year: t.year(), month: t.month(), day: t.day() },
            hour: t.hour(),
            minute: t.minute(),
            second: t.second(),
            nanosecond: t.nanosecond(),
        },
    )
}

/// The message of a `chrono` parse error, from its `Display`. Nothing is
/// claimed of the text.
#[verifier::external_body]
pub(crate) fn parse_error_text(e: &chrono::format::ParseError) -> String {
    e.to_string()
}

/// `NaiveDate::from_ymd_opt`, then `format` with `%Y-%m-%d`. The contract
/// only names the outcome.
#[verifier::external_body]
pub(crate) fn format_date(d: &Date) -> (r: Option<String>)
    ensures
        match r {
            Some(s) => date_text(d.year, d.month, d.day) == Some(s@),
            None => date_text(d.year, d.month, d.day) is None,
        },
{
    chrono::NaiveDate::from_ymd_opt(d.year, d.month, d.day).map(
        |day| day.format("%Y-%m-%d").to_string(),
    )
}

/// `NaiveDate::from_ymd_opt` and `and_hms_nano_opt`, then `format` with
/// `%Y-%m-%d %H:%M:%S`. The contract only names the outcome.
#[verifier::external_body]
pub(crate) fn format_date_time(t: &DateTime) -> (r: Option<String>)
    ensures
        match r {
            Some(s) => date_time_text(
                t.date.year,
                t.date.month,
                t.date.day,
                t.hour,
                t.minute,
                t.second,
                t.nanosecond,
            ) == Some(s@),
            None => date_time_text(
                t.date.year,
                t.date.month,
                t.date.day,
                t.hour,
                t.minute,
                t.second,
                t.nanosecond,
            ) is None,
        },
{
    chrono::NaiveDate::from_ymd_opt(t.date.year, t.date.month, t.date.day)
        .and_then(|day| day.and_hms_nano_opt(t.hour, t.minute, t.second, t.nanosecond))
        .map(|moment| moment.format("%Y-%m-%d %H:%M:%S").to_string())
}

/// `NaiveTime::from_hms_opt` with zero seconds: there is such a time of day
/// exactly when the hour is below 24 and the minute below 60.
#[verifier::external_body]
pub(crate) fn is_time_of_day(hour: u32, minute: u32) -> (r: bool)
    ensures
        r == (hour < 24 && minute < 60),
{
    chrono::NaiveTime::from_hms_opt(hour, minute, 0).is_some()
}

/// The day that `Local::now` falls on. It differs from call to call, so
/// nothing is claimed of it.
#[verifier::external_body]
pub(crate) fn local_today() -> Date {
    let today = chrono::Local::now().date_naive();
    Date { year: today.year(), month: today.month(), day: today.day() }
}

/// The day of the week that `Local::now` falls on. It differs from call to
/// call, so nothing is claimed of it.
#[verifier::external_body]
pub(crate) fn local_weekday() -> Weekday {
    match chrono::Local::now().date_naive().weekday() {
        chrono::Weekday::Mon => Weekday::Monday,
        chrono::Weekday::Tue => Weekday::Tuesday,
        chrono::Weekday::Wed => Weekday::Wednesday,
        chrono::Weekday::Thu => Weekday::Thursday,
        chrono::Weekday::Fri => Weekday::Friday,
        chrono::Weekday::Sat => Weekday::Saturday,
        chrono::Weekday::Sun => Weekday::Sunday,
    }
}

} // verus!
