//! Choosing items of the timeline by their kind.

use vstd::prelude::*;

use crate::edupage::{Edupage, EdupageError};
use crate::types::timeline::{TimelineItem, TimelineItemType};
use crate::types::UserData;

verus! {

/// The items of `items` whose kind is one of `kinds`, in their order.
pub open spec fn of_kinds(items: Seq<TimelineItem>, kinds: Seq<TimelineItemType>) -> Seq<
    TimelineItem,
>
    decreases items.len(),
{
    if items.len() == 0 {
        Seq::empty()
    } else if kinds.contains(items.last().item_type) {
        of_kinds(items.drop_last(), kinds).push(items.last())
    } else {
        of_kinds(items.drop_last(), kinds)
    }
}

/// Whether `kind` is one of `kinds`.
pub fn is_one_of(kinds: &Vec<TimelineItemType>, kind: TimelineItemType) -> (r: bool)
    ensures
        r == kinds@.contains(kind),
{
    let mut i: usize = 0;
    while i < kinds.len()
        invariant
            i <= kinds.len(),
            forall|j: int| 0 <= j < i ==> kinds@[j] != kind,
        decreases kinds.len() - i,
    {
        if kinds[i] == kind {
            return true;
        }
        i += 1;
    }
    false
}

/// The items of `items` whose kind is one of `kinds`, in their order.
pub fn filter_by_item_types(items: &Vec<TimelineItem>, kinds: &Vec<TimelineItemType>) -> (r: Vec<
    TimelineItem,
>)
    ensures
        r@ == of_kinds(items@, kinds@),
{
    let mut out: Vec<TimelineItem> = Vec::new();
    let mut i: usize = 0;
    while i < items.len()
        invariant
            i <= items.len(),
            out@ == of_kinds(items@.take(i as int), kinds@),
        decreases items.len() - i,
    {
        proof {
            assert(items@.take(i + 1).drop_last() =~= items@.take(i as int));
        }
        if is_one_of(kinds, items[i].item_type) {
            out.push(items[i].clone());
        }
        i += 1;
    }
    assert(items@.take(i as int) =~= items@);
    out
}

/// The timeline of a session, by kind of item.
pub trait Timeline {
    fn filter_timeline_by_item_type(&self, item_type: TimelineItemType) -> Result<
        Vec<TimelineItem>,
        EdupageError,
    >;

    fn filter_timeline_by_item_types(&self, item_types: Vec<TimelineItemType>) -> Result<
        Vec<TimelineItem>,
        EdupageError,
    >;
}

/// The items of a session's timeline whose kind is one of `kinds`.
pub open spec fn timeline_of_kinds(snapshot: Option<UserData>, kinds: Seq<TimelineItemType>) -> Result<
    Seq<TimelineItem>,
    EdupageError,
> {
    match snapshot {
        Some(data) => Ok(of_kinds(data.items@, kinds)),
        None => Err(EdupageError::NotLoggedIn),
    }
}

impl Timeline for Edupage {
    /// The items of the timeline that are of the kind `item_type`.
    fn filter_timeline_by_item_type(&self, item_type: TimelineItemType) -> (r: Result<
        Vec<TimelineItem>,
        EdupageError,
    >)
        ensures
            match timeline_of_kinds(self.snapshot(), seq![item_type]) {
                Ok(items) => r matches Ok(v) && v@ == items,
                Err(e) => r == Err::<Vec<TimelineItem>, EdupageError>(e),
            },
    {
        let mut kinds: Vec<TimelineItemType> = Vec::new();
        kinds.push(item_type);
        assert(kinds@ =~= seq![item_type]);
        self.filter_timeline_by_item_types(kinds)
    }

    /// The items of the timeline whose kind is one of `item_types`.
    fn filter_timeline_by_item_types(&self, item_types: Vec<TimelineItemType>) -> (r: Result<
        Vec<TimelineItem>,
        EdupageError,
    >)
        ensures
            match timeline_of_kinds(self.snapshot(), item_types@) {
                Ok(items) => r matches Ok(v) && v@ == items,
                Err(e) => r == Err::<Vec<TimelineItem>, EdupageError>(e),
            },
    {
        proof {
            use_type_invariant(self);
        }
        if !self.is_logged_in {
            return Err(EdupageError::NotLoggedIn);
        }
        match &self.data {
            Some(data) => Ok(filter_by_item_types(&data.items, &item_types)),
            None => Err(EdupageError::NotLoggedIn),
        }
    }
}

} // verus!
