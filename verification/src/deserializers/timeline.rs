//! The names by which the portal calls the kinds of timeline items.

use vstd::prelude::*;

use crate::text::{chars_of, text_is};
use crate::types::timeline::TimelineItemType;

verus! {

/// The table of names, in its fixed order.
pub open spec fn item_type_names() -> Seq<Seq<char>> {
    seq![
        "news"@,
        "sprava"@,
        "h_dailyplan"@,
        "student_absent"@,
        "confirmation"@,
        "h_clearplany"@,
        "h_financie"@,
        "h_stravamenu"@,
        "h_clearisicdata"@,
        "substitution"@,
        "h_clearcache"@,
        "event"@,
        "h_homework"@,
        "znamka"@,
        "h_substitution"@,
        "h_znamky"@,
        "homework"@,
        "h_cleardbi"@,
        "testpridelenie"@,
    ]
}

/// The kind that stands at place `n` of the table.
pub open spec fn kind_at(n: int) -> TimelineItemType {
    if n == 0 {
        TimelineItemType::News
    } else if n == 1 {
        TimelineItemType::Message
    } else if n == 2 {
        TimelineItemType::HDailyPlan
    } else if n == 3 {
        TimelineItemType::StudentAbsent
    } else if n == 4 {
        TimelineItemType::Confirmation
    } else if n == 5 {
        TimelineItemType::HClearPlans
    } else if n == 6 {
        TimelineItemType::HFinances
    } else if n == 7 {
        TimelineItemType::HLunchMenu
    } else if n == 8 {
        TimelineItemType::HClearISICData
    } else if n == 9 {
        TimelineItemType::Substitution
    } else if n == 10 {
        TimelineItemType::HClearCache
    } else if n == 11 {
        TimelineItemType::Event
    } else if n == 12 {
        TimelineItemType::HHomework
    } else if n == 13 {
        TimelineItemType::Grade
    } else if n == 14 {
        TimelineItemType::HSubstitution
    } else if n == 15 {
        TimelineItemType::HGrades
    } else if n == 16 {
        TimelineItemType::Homework
    } else if n == 17 {
        TimelineItemType::HClearDBI
    } else if n == 18 {
        TimelineItemType::TestAssignment
    } else {
        TimelineItemType::Unknown
    }
}

/// The kind that a name stands for: the kind at the name's place in the
/// table, and `Unknown` for a name that the table lacks.
pub open spec fn item_type_of(name: Seq<char>) -> TimelineItemType {
    if name == "news"@ {
        TimelineItemType::News
    } else if name == "sprava"@ {
        TimelineItemType::Message
    } else if name == "h_dailyplan"@ {
        TimelineItemType::HDailyPlan
    } else if name == "student_absent"@ {
        TimelineItemType::StudentAbsent
    } else if name == "confirmation"@ {
        TimelineItemType::Confirmation
    } else if name == "h_clearplany"@ {
        TimelineItemType::HClearPlans
    } else if name == "h_financie"@ {
        TimelineItemType::HFinances
    } else if name == "h_stravamenu"@ {
        TimelineItemType::HLunchMenu
    } else if name == "h_clearisicdata"@ {
        TimelineItemType::HClearISICData
    } else if name == "substitution"@ {
        TimelineItemType::Substitution
    } else if name == "h_clearcache"@ {
        TimelineItemType::HClearCache
    } else if name == "event"@ {
        TimelineItemType::Event
    } else if name == "h_homework"@ {
        TimelineItemType::HHomework
    } else if name == "znamka"@ {
        TimelineItemType::Grade
    } else if name == "h_substitution"@ {
        TimelineItemType::HSubstitution
    } else if name == "h_znamky"@ {
        TimelineItemType::HGrades
    } else if name == "homework"@ {
        TimelineItemType::Homework
    } else if name == "h_cleardbi"@ {
        TimelineItemType::HClearDBI
    } else if name == "testpridelenie"@ {
        TimelineItemType::TestAssignment
    } else {
        TimelineItemType::Unknown
    }
}

/// The name of a kind. `Unknown` is written `unknown`, which the table
/// lacks.
pub open spec fn name_of(kind: TimelineItemType) -> Seq<char> {
    match kind {
        TimelineItemType::News => "news"@,
        TimelineItemType::Message => "sprava"@,
        TimelineItemType::HDailyPlan => "h_dailyplan"@,
        TimelineItemType::StudentAbsent => "student_absent"@,
        TimelineItemType::Confirmation => "confirmation"@,
        TimelineItemType::HClearPlans => "h_clearplany"@,
        TimelineItemType::HFinances => "h_financie"@,
        TimelineItemType::HLunchMenu => "h_stravamenu"@,
        TimelineItemType::HClearISICData => "h_clearisicdata"@,
        TimelineItemType::Substitution => "substitution"@,
        TimelineItemType::HClearCache => "h_clearcache"@,
        TimelineItemType::Event => "event"@,
        TimelineItemType::HHomework => "h_homework"@,
        TimelineItemType::Grade => "znamka"@,
        TimelineItemType::HSubstitution => "h_substitution"@,
        TimelineItemType::HGrades => "h_znamky"@,
        TimelineItemType::Homework => "homework"@,
        TimelineItemType::HClearDBI => "h_cleardbi"@,
        TimelineItemType::TestAssignment => "testpridelenie"@,
        TimelineItemType::Unknown => "unknown"@,
    }
}

/// What is known of the texts of the table.
proof fn reveal_names()
    ensures
        "news"@.len() == 4,
        "sprava"@.len() == 6,
        "h_dailyplan"@.len() == 11,
        "student_absent"@.len() == 14,
        "confirmation"@.len() == 12,
        "h_clearplany"@.len() == 12,
        "h_financie"@.len() == 10,
        "h_stravamenu"@.len() == 12,
        "h_clearisicdata"@.len() == 15,
        "substitution"@.len() == 12,
        "h_clearcache"@.len() == 12,
        "event"@.len() == 5,
        "h_homework"@.len() == 10,
        "znamka"@.len() == 6,
        "h_substitution"@.len() == 14,
        "h_znamky"@.len() == 8,
        "homework"@.len() == 8,
        "h_cleardbi"@.len() == 10,
        "testpridelenie"@.len() == 14,
        "unknown"@.len() == 7,
        "news"@[0] == 'n',
        "news"@[1] == 'e',
        "news"@[2] == 'w',
        "sprava"@[0] == 's',
        "sprava"@[1] == 'p',
        "sprava"@[2] == 'r',
        "h_dailyplan"@[0] == 'h',
        "h_dailyplan"@[1] == '_',
        "h_dailyplan"@[2] == 'd',
        "h_dailyplan"@[7] == 'p',
        "student_absent"@[0] == 's',
        "student_absent"@[1] == 't',
        "student_absent"@[2] == 'u',
        "student_absent"@[7] == '_',
        "confirmation"@[0] == 'c',
        "confirmation"@[1] == 'o',
        "confirmation"@[2] == 'n',
        "confirmation"@[7] == 'a',
        "h_clearplany"@[0] == 'h',
        "h_clearplany"@[1] == '_',
        "h_clearplany"@[2] == 'c',
        "h_clearplany"@[7] == 'p',
        "h_financie"@[0] == 'h',
        "h_financie"@[1] == '_',
        "h_financie"@[2] == 'f',
        "h_financie"@[7] == 'c',
        "h_stravamenu"@[0] == 'h',
        "h_stravamenu"@[1] == '_',
        "h_stravamenu"@[2] == 's',
        "h_stravamenu"@[7] == 'a',
        "h_clearisicdata"@[0] == 'h',
        "h_clearisicdata"@[1] == '_',
        "h_clearisicdata"@[2] == 'c',
        "h_clearisicdata"@[7] == 'i',
        "substitution"@[0] == 's',
        "substitution"@[1] == 'u',
        "substitution"@[2] == 'b',
        "substitution"@[7] == 'u',
        "h_clearcache"@[0] == 'h',
        "h_clearcache"@[1] == '_',
        "h_clearcache"@[2] == 'c',
        "h_clearcache"@[7] == 'c',
        "event"@[0] == 'e',
        "event"@[1] == 'v',
        "event"@[2] == 'e',
        "h_homework"@[0] == 'h',
        "h_homework"@[1] == '_',
        "h_homework"@[2] == 'h',
        "h_homework"@[7] == 'o',
        "znamka"@[0] == 'z',
        "znamka"@[1] == 'n',
        "znamka"@[2] == 'a',
        "h_substitution"@[0] == 'h',
        "h_substitution"@[1] == '_',
        "h_substitution"@[2] == 's',
        "h_substitution"@[7] == 'i',
        "h_znamky"@[0] == 'h',
        "h_znamky"@[1] == '_',
        "h_znamky"@[2] == 'z',
        "h_znamky"@[7] == 'y',
        "homework"@[0] == 'h',
        "homework"@[1] == 'o',
        "homework"@[2] == 'm',
        "homework"@[7] == 'k',
        "h_cleardbi"@[0] == 'h',
        "h_cleardbi"@[1] == '_',
        "h_cleardbi"@[2] == 'c',
        "h_cleardbi"@[7] == 'd',
        "testpridelenie"@[0] == 't',
        "testpridelenie"@[1] == 'e',
        "testpridelenie"@[2] == 's',
        "testpridelenie"@[7] == 'd',
        "unknown"@[0] == 'u',
        "unknown"@[1] == 'n',
        "unknown"@[2] == 'k',
{
    reveal_strlit("news");
    reveal_strlit("sprava");
    reveal_strlit("h_dailyplan");
    reveal_strlit("student_absent");
    reveal_strlit("confirmation");
    reveal_strlit("h_clearplany");
    reveal_strlit("h_financie");
    reveal_strlit("h_stravamenu");
    reveal_strlit("h_clearisicdata");
    reveal_strlit("substitution");
    reveal_strlit("h_clearcache");
    reveal_strlit("event");
    reveal_strlit("h_homework");
    reveal_strlit("znamka");
    reveal_strlit("h_substitution");
    reveal_strlit("h_znamky");
    reveal_strlit("homework");
    reveal_strlit("h_cleardbi");
    reveal_strlit("testpridelenie");
    reveal_strlit("unknown");
}

/// Every kind reads back from its name, `Unknown` too.
pub proof fn lemma_kind_round_trip(kind: TimelineItemType)
    ensures
        item_type_of(name_of(kind)) == kind,
{
    reveal_names();
}

/// Every name of the table is the name of the kind that it stands for.
pub proof fn lemma_name_round_trip(n: int)
    requires
        0 <= n < 19,
    ensures
        item_type_of(item_type_names()[n]) == kind_at(n),
        name_of(kind_at(n)) == item_type_names()[n],
        kind_at(n) != TimelineItemType::Unknown,
{
    reveal_names();
}

/// Every text stands for a kind of the table or for `Unknown`: a text that
/// stands for another kind than `Unknown` is that kind's name.
pub proof fn lemma_decode_total(name: Seq<char>)
    ensures
        item_type_of(name) != TimelineItemType::Unknown ==> name_of(item_type_of(name)) == name,
{
}

impl TimelineItemType {
    /// The name of the kind.
    pub fn as_str(&self) -> (r: &'static str)
        ensures
            r@ == name_of(*self),
    {
        match self {
            TimelineItemType::News => "news",
            TimelineItemType::Message => "sprava",
            TimelineItemType::HDailyPlan => "h_dailyplan",
            TimelineItemType::StudentAbsent => "student_absent",
            TimelineItemType::Confirmation => "confirmation",
            TimelineItemType::HClearPlans => "h_clearplany",
            TimelineItemType::HFinances => "h_financie",
            TimelineItemType::HLunchMenu => "h_stravamenu",
            TimelineItemType::HClearISICData => "h_clearisicdata",
            TimelineItemType::Substitution => "substitution",
            TimelineItemType::HClearCache => "h_clearcache",
            TimelineItemType::Event => "event",
            TimelineItemType::HHomework => "h_homework",
            TimelineItemType::Grade => "znamka",
            TimelineItemType::HSubstitution => "h_substitution",
            TimelineItemType::HGrades => "h_znamky",
            TimelineItemType::Homework => "homework",
            TimelineItemType::HClearDBI => "h_cleardbi",
            TimelineItemType::TestAssignment => "testpridelenie",
            TimelineItemType::Unknown => "unknown",
        }
    }

    /// The name at place `n` of the table.
    pub fn key_name_for_n(n: usize) -> (r: &'static str)
        requires
            n < 19,
        ensures
            r@ == item_type_names()[n as int],
    {
        if n == 0 {
            "news"
        } else if n == 1 {
            "sprava"
        } else if n == 2 {
            "h_dailyplan"
        } else if n == 3 {
            "student_absent"
        } else if n == 4 {
            "confirmation"
        } else if n == 5 {
            "h_clearplany"
        } else if n == 6 {
            "h_financie"
        } else if n == 7 {
            "h_stravamenu"
        } else if n == 8 {
            "h_clearisicdata"
        } else if n == 9 {
            "substitution"
        } else if n == 10 {
            "h_clearcache"
        } else if n == 11 {
            "event"
        } else if n == 12 {
            "h_homework"
        } else if n == 13 {
            "znamka"
        } else if n == 14 {
            "h_substitution"
        } else if n == 15 {
            "h_znamky"
        } else if n == 16 {
            "homework"
        } else if n == 17 {
            "h_cleardbi"
        } else {
            "testpridelenie"
        }
    }

    /// The kind that `name` stands for. Every text stands for one: a name
    /// that the table lacks stands for `Unknown`.
    pub fn from_name(name: &str) -> (r: TimelineItemType)
        ensures
            r == item_type_of(name@),
    {
        let v = chars_of(name);
        if text_is(&v, "news") {
            TimelineItemType::News
        } else if text_is(&v, "sprava") {
            TimelineItemType::Message
        } else if text_is(&v, "h_dailyplan") {
            TimelineItemType::HDailyPlan
        } else if text_is(&v, "student_absent") {
            TimelineItemType::StudentAbsent
        } else if text_is(&v, "confirmation") {
            TimelineItemType::Confirmation
        } else if text_is(&v, "h_clearplany") {
            TimelineItemType::HClearPlans
        } else if text_is(&v, "h_financie") {
            TimelineItemType::HFinances
        } else if text_is(&v, "h_stravamenu") {
            TimelineItemType::HLunchMenu
        } else if text_is(&v, "h_clearisicdata") {
            TimelineItemType::HClearISICData
        } else if text_is(&v, "substitution") {
            TimelineItemType::Substitution
        } else if text_is(&v, "h_clearcache") {
            TimelineItemType::HClearCache
        } else if text_is(&v, "event") {
            TimelineItemType::Event
        } else if text_is(&v, "h_homework") {
            TimelineItemType::HHomework
        } else if text_is(&v, "znamka") {
            TimelineItemType::Grade
        } else if text_is(&v, "h_substitution") {
            TimelineItemType::HSubstitution
        } else if text_is(&v, "h_znamky") {
            TimelineItemType::HGrades
        } else if text_is(&v, "homework") {
            TimelineItemType::Homework
        } else if text_is(&v, "h_cleardbi") {
            TimelineItemType::HClearDBI
        } else if text_is(&v, "testpridelenie") {
            TimelineItemType::TestAssignment
        } else {
            TimelineItemType::Unknown
        }
    }
}

} // verus!
