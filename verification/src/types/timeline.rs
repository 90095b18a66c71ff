//! Items of the timeline: the notices and events that the portal shows.

use vstd::prelude::*;

use super::person::UserID;
use super::time::DateTime;

verus! {

/// What a timeline item is about. `Unknown` stands for every kind that the
/// library has no name for.
#[derive(Clone, Copy, Debug, PartialEq, Eq, Structural)]
pub enum TimelineItemType {
    News,
    Message,
    HDailyPlan,
    StudentAbsent,
    Confirmation,
    HClearPlans,
    HFinances,
    HLunchMenu,
    HClearISICData,
    Substitution,
    HClearCache,
    Event,
    HHomework,
    Grade,
    HSubstitution,
    HGrades,
    Homework,
    HClearDBI,
    Unknown,
    TestAssignment,
}

#[derive(Debug, PartialEq, Eq)]
pub struct TimelineItem {
    pub user: UserID,
    pub time_added: Option<DateTime>,
    pub time_added_btc: Option<DateTime>,
    pub time_of_event: Option<DateTime>,
    pub additional_data: String,
    pub reactions_n: i64,
    pub target_user: Option<UserID>,
    pub item_type: TimelineItemType,
    pub timeline_id: i64,
    pub timestamp: Option<DateTime>,
    pub reaction_to: Option<i64>,
    pub text: String,
    pub user_name: String,
    pub owner: String,
}

impl Clone for TimelineItem {
    fn clone(&self) -> (r: Self)
        ensures
            r == *self,
    {
        TimelineItem {
            user: self.user,
            time_added: self.time_added,
            time_added_btc: self.time_added_btc,
            time_of_event: self.time_of_event,
            additional_data: self.additional_data.clone(),
            reactions_n: self.reactions_n,
            target_user: self.target_user,
            item_type: self.item_type,
            timeline_id: self.timeline_id,
            timestamp: self.timestamp,
            reaction_to: self.reaction_to,
            text: self.text.clone(),
            user_name: self.user_name.clone(),
            owner: self.owner.clone(),
        }
    }
}

} // verus!
