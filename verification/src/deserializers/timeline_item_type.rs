//! The kind of a timeline item as the portal writes it.

use vstd::prelude::*;

use super::timeline::{item_type_of, name_of};
use crate::types::timeline::TimelineItemType;

verus! {

/// Writes the kind by its name.
pub fn serialize(item_type: &TimelineItemType) -> (r: &'static str)
    ensures
        r@ == name_of(*item_type),
{
    item_type.as_str()
}

/// Reads the kind that `s` names. No text is an error: the portal adds
/// kinds over time, and a name that is not known yet reads as `Unknown`.
pub fn deserialize(s: &str) -> (r: TimelineItemType)
    ensures
        r == item_type_of(s@),
{
    TimelineItemType::from_name(s)
}

} // verus!
