//! A collection of the directory, which the portal sends in two shapes.

use vstd::prelude::*;

verus! {

/// A collection as it arrives: the records of a map from keys to records,
/// in the order of the map, or a list of records. The portal sends a list in
/// place of an empty map.
#[derive(Debug, PartialEq, Eq)]
pub enum MapOrVec<T> {
    Keyed(Vec<T>),
    Listed(Vec<T>),
}

/// The entries that a collection stands for, whichever shape it came in.
/// An empty list stands for no entries, as an empty map does.
pub open spec fn entries_of<T>(shape: MapOrVec<T>) -> Seq<T> {
    match shape {
        MapOrVec::Keyed(entries) => entries@,
        MapOrVec::Listed(entries) => entries@,
    }
}

/// The entries of a collection as one list.
pub fn deserialize_dbi_base<T>(shape: MapOrVec<T>) -> (r: Vec<T>)
    ensures
        r@ == entries_of(shape),
        shape matches MapOrVec::Listed(list) && list@.len() == 0 ==> r@.len() == 0,
{
    match shape {
        MapOrVec::Keyed(entries) => entries,
        MapOrVec::Listed(entries) => entries,
    }
}

} // verus!
