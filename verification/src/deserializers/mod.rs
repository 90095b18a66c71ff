use vstd::prelude::*;

pub mod date;
pub mod dbi;
pub mod gender;
pub mod gender_option;
pub mod hh_mm_naivedatetime_option;
pub mod javascript_date_format_option;
pub mod person;
pub mod plan_item_type_option;
pub mod string_i64_option;
pub mod string_i64_vec_option;
pub mod timeline;
pub mod timeline_item_type;
pub mod year_month_day_optional;

pub use date::deserialize_time;
pub use dbi::deserialize_dbi_base;
pub use person::{get_string_representation, parse_userid};

verus! {

/// The value that a field takes when the portal leaves it out.
pub fn none<T>() -> (r: Option<T>)
    ensures
        r is None,
{
    None
}

} // verus!
