use vstd::prelude::*;

pub mod cloud;
pub mod dbi;
pub mod person;
pub mod time;
pub mod timeline;
pub mod timetable;

pub use cloud::{CloudFile, EdupageCloudResponse, EdupageCloudResponseStatus};
pub use dbi::{DBIBase, Gender, DBI};
pub use person::{Class, Parent, Student, Teacher, UserID};
pub use time::{Date, DateTime, Weekday};
pub use timeline::{TimelineItem, TimelineItemType};
pub use timetable::{
    Lesson, Plan, PlanItem, PlanItemHeaderItem, PlanItemHeaderPart, PlanItemType, Timetable, DP,
};

verus! {

/// Everything the portal tells about the user who logged in.
#[derive(Clone, Debug, PartialEq, Eq)]
pub struct UserData {
    pub items: Vec<TimelineItem>,
    pub dbi: DBI,
    pub nameday_today: String,
    pub nameday_tomorrow: String,
    pub user_id: UserID,
    pub ringing_times: Vec<RingingTime>,
    pub dp: DP,
}

/// One interval of the bell schedule: a lesson's number, start and end.
#[derive(Clone, Copy, Debug, PartialEq, Eq, Structural)]
pub struct RingingTime {
    pub name: i64,
    pub start_time: DateTime,
    pub end_time: DateTime,
}

} // verus!
