//! Calendar dates and times of day as plain numbers.

use vstd::prelude::*;

verus! {

/// A calendar date.
#[derive(Clone, Copy, Debug, PartialEq, Eq, Structural)]
pub struct Date {
    pub year: i32,
    pub month: u32,
    pub day: u32,
}

/// A date with a time of day, in no time zone.
#[derive(Clone, Copy, Debug, PartialEq, Eq, Structural)]
pub struct DateTime {
    pub date: Date,
    pub hour: u32,
    pub minute: u32,
    pub second: u32,
    pub nanosecond: u32,
}

/// A day of the week.
#[derive(Clone, Copy, Debug, PartialEq, Eq, Structural)]
pub enum Weekday {
    Monday,
    Tuesday,
    Wednesday,
    Thursday,
    Friday,
    Saturday,
    Sunday,
}

impl Date {
    /// `self` is an earlier day than `other`.
    pub open spec fn precedes(self, other: Date) -> bool {
        self.year < other.year || (self.year == other.year && (self.month < other.month || (
        self.month == other.month && self.day < other.day)))
    }

    pub fn new(year: i32, month: u32, day: u32) -> (r: Date)
        ensures
            r == (Date { year, month, day }),
    {
        Date { year, month, day }
    }

    /// Whether `self` is an earlier day than `other`.
    pub fn is_before(&self, other: &Date) -> (r: bool)
        ensures
            r == self.precedes(*other),
    {
        self.year < other.year || (self.year == other.year && (self.month < other.month || (
        self.month == other.month && self.day < other.day)))
    }
}

impl DateTime {
    /// The time of day of `self` is earlier than that of `other`.
    pub open spec fn time_precedes(self, other: DateTime) -> bool {
        self.hour < other.hour || (self.hour == other.hour && (self.minute < other.minute || (
        self.minute == other.minute && (self.second < other.second || (self.second
            == other.second && self.nanosecond < other.nanosecond)))))
    }

    /// `self` is an earlier moment than `other`: an earlier day, or the same
    /// day and an earlier time.
    pub open spec fn precedes(self, other: DateTime) -> bool {
        self.date.precedes(other.date) || (self.date == other.date && self.time_precedes(other))
    }

    /// `self` is `other` or an earlier moment.
    pub open spec fn at_or_before(self, other: DateTime) -> bool {
        self == other || self.precedes(other)
    }

    /// The moment `hour:minute:00` on `date`.
    pub fn at(date: Date, hour: u32, minute: u32) -> (r: DateTime)
        ensures
            r == (DateTime { date, hour, minute, second: 0, nanosecond: 0 }),
    {
        DateTime { date, hour, minute, second: 0, nanosecond: 0 }
    }

    /// Whether `self` is an earlier moment than `other`.
    pub fn is_before(&self, other: &DateTime) -> (r: bool)
        ensures
            r == self.precedes(*other),
    {
        if self.date.is_before(&other.date) {
            true
        } else if self.date == other.date {
            self.hour < other.hour || (self.hour == other.hour && (self.minute < other.minute || (
            self.minute == other.minute && (self.second < other.second || (self.second
                == other.second && self.nanosecond < other.nanosecond)))))
        } else {
            false
        }
    }

    /// Whether `self` is `other` or an earlier moment.
    pub fn is_at_or_before(&self, other: &DateTime) -> (r: bool)
        ensures
            r == self.at_or_before(*other),
    {
        *self == *other || self.is_before(other)
    }
}

impl Weekday {
    /// Saturday and Sunday.
    pub open spec fn weekend(self) -> bool {
        self == Weekday::Saturday || self == Weekday::Sunday
    }

    /// Whether `self` is Saturday or Sunday.
    pub fn is_weekend(&self) -> (r: bool)
        ensures
            r == self.weekend(),
    {
        match self {
            Weekday::Saturday | Weekday::Sunday => true,
            _ => false,
        }
    }
}

} // verus!
