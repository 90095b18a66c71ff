//! The bell schedule: when the next lesson or break begins.

use vstd::prelude::*;

use crate::calendar::local_weekday;
use crate::edupage::Edupage;
use crate::types::time::{DateTime, Weekday};
use crate::types::RingingTime;

verus! {

/// What begins at a boundary of the bell schedule.
#[derive(Clone, Copy, Debug, PartialEq, Eq, Structural)]
pub enum NextDayPart {
    LESSON,
    BREAK,
}

/// The next boundary after `time`. The intervals are taken in their order;
/// the first that has not yet started gives its start and a lesson, the
/// first that has started and not yet ended gives its end and a break,
/// whichever comes first.
pub open spec fn next_boundary(times: Seq<RingingTime>, time: DateTime) -> Option<
    (DateTime, NextDayPart),
>
    decreases times.len(),
{
    if times.len() == 0 {
        None
    } else if time.precedes(times[0].start_time) {
        Some((times[0].start_time, NextDayPart::LESSON))
    } else if time.precedes(times[0].end_time) {
        Some((times[0].end_time, NextDayPart::BREAK))
    } else {
        next_boundary(times.skip(1), time)
    }
}

/// The next boundary after `time` on a day of the week `today`: none at the
/// weekend, whatever `time` is.
pub open spec fn next_boundary_on(today: Weekday, times: Seq<RingingTime>, time: DateTime) -> Option<
    (DateTime, NextDayPart),
> {
    if today.weekend() {
        None
    } else {
        next_boundary(times, time)
    }
}

/// At the weekend there is no next boundary, whatever the schedule and the
/// time asked for.
pub proof fn lemma_weekend_has_no_boundary(today: Weekday, times: Seq<RingingTime>, time: DateTime)
    requires
        today.weekend(),
    ensures
        next_boundary_on(today, times, time) is None,
{
}

impl RingingTime {
    pub fn new(name: i64, start_time: DateTime, end_time: DateTime) -> (r: Self)
        ensures
            r == (RingingTime { name, start_time, end_time }),
    {
        Self { name, start_time, end_time }
    }
}

/// The next boundary of the schedule `times` after `time`, asked on a day of
/// the week `today`. The day of `time` itself is not looked at.
pub fn next_lesson_time_on(today: Weekday, times: &Vec<RingingTime>, time: DateTime) -> (r: Option<
    (DateTime, NextDayPart),
>)
    ensures
        r == next_boundary_on(today, times@, time),
        today.weekend() ==> r is None,
{
    if today.is_weekend() {
        return None;
    }
    let mut i: usize = 0;
    assert(times@.skip(0) =~= times@);
    while i < times.len()
        invariant
            i <= times.len(),
            !today.weekend(),
            next_boundary(times@, time) == next_boundary(times@.skip(i as int), time),
        decreases times.len() - i,
    {
        proof {
            let rest = times@.skip(i as int);
            assert(rest[0] == times@[i as int]);
            assert(rest.skip(1) =~= times@.skip(i + 1));
        }
        let interval = times[i];
        if time.is_before(&interval.start_time) {
            return Some((interval.start_time, NextDayPart::LESSON));
        } else if time.is_before(&interval.end_time) {
            return Some((interval.end_time, NextDayPart::BREAK));
        }
        i += 1;
    }
    None
}

/// The bell schedule of a session.
pub trait Ringing {
    fn get_ringing_times(&self) -> Vec<RingingTime>;

    fn get_next_lesson_time(&self, time: DateTime) -> Option<(DateTime, NextDayPart)>;
}

/// The bell schedule that a session holds: none outside a login.
pub open spec fn schedule_of(session: Edupage) -> Seq<RingingTime> {
    match session.snapshot() {
        Some(data) => data.ringing_times@,
        None => Seq::empty(),
    }
}

impl Ringing for Edupage {
    /// The intervals of the bell schedule, in their order.
    fn get_ringing_times(&self) -> (r: Vec<RingingTime>)
        ensures
            r@ == schedule_of(*self),
    {
        proof {
            use_type_invariant(self);
        }
        let mut out: Vec<RingingTime> = Vec::new();
        if !self.is_logged_in {
            return out;
        }
        match &self.data {
            Some(data) => {
                let times = &data.ringing_times;
                let mut i: usize = 0;
                while i < times.len()
                    invariant
                        i <= times.len(),
                        out@ == times@.take(i as int),
                    decreases times.len() - i,
                {
                    out.push(times[i]);
                    assert(out@ =~= times@.take(i + 1));
                    i += 1;
                }
                assert(times@.take(i as int) =~= times@);
                out
            },
            None => out,
        }
    }

    /// The next boundary of the schedule after `time`, or `None` where the
    /// call is made on a Saturday or a Sunday: the day of the call decides,
    /// not the day of `time`.
    fn get_next_lesson_time(&self, time: DateTime) -> (r: Option<(DateTime, NextDayPart)>)
        ensures
            r is None || r == next_boundary(schedule_of(*self), time),
    {
        let today = local_weekday();
        let times = self.get_ringing_times();
        next_lesson_time_on(today, &times, time)
    }
}

} // verus!
