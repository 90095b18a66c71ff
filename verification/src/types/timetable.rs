//! Daily plans as the portal sends them, and the lessons resolved from them.

use vstd::prelude::*;
use vstd::string::StringExecFns;

use super::dbi::DBIBase;
use super::person::Teacher;
use super::time::{Date, DateTime};

verus! {

/// The lessons of one day, in the order of the plan they come from.
#[derive(Debug, PartialEq, Eq)]
pub struct Timetable {
    pub lessons: Vec<Lesson>,
}

#[derive(Clone, Copy, Debug, PartialEq, Eq, Structural)]
pub enum PlanItemType {
    Period,
    Lesson,
}

/// The daily plans by date. A date is written `YYYY-MM-DD`; where one is
/// held twice, the first entry counts.
#[derive(Clone, Debug, PartialEq, Eq)]
pub struct DP {
    pub dates: Vec<(String, Plan)>,
    pub school_year: i32,
}

/// A plan item with its references to the directory resolved.
#[derive(Debug, PartialEq, Eq)]
pub struct Lesson {
    pub teachers: Vec<Teacher>,
    pub classrooms: Vec<DBIBase>,
    pub start_of_lesson: DateTime,
    pub end_of_lesson: DateTime,
    pub online_lesson_link: Option<String>,
    pub subject_id: i64,
    pub name: String,
}

/// What a `Lesson` holds, as mathematical values.
pub struct LessonView {
    pub teachers: Seq<Teacher>,
    pub classrooms: Seq<DBIBase>,
    pub start_of_lesson: DateTime,
    pub end_of_lesson: DateTime,
    pub online_lesson_link: Option<Seq<char>>,
    pub subject_id: i64,
    pub name: Seq<char>,
}

#[derive(Clone, Debug, PartialEq, Eq)]
pub struct Plan {
    pub day: i32,
    pub plan_items: Vec<PlanItem>,
    pub week: i32,
}

#[derive(Clone, Copy, Debug, PartialEq, Eq, Structural)]
pub struct PlanItemHeaderPart {
    pub item: Option<PlanItemHeaderItem>,
}

#[derive(Clone, Copy, Debug, PartialEq, Eq, Structural)]
pub struct PlanItemHeaderItem {
    pub subject_id: Option<i64>,
}

/// One entry of a daily plan, as loosely as the portal sends it.
#[derive(Clone, Debug, PartialEq, Eq)]
pub struct PlanItem {
    pub class_ids: Option<Vec<i64>>,
    pub date: Option<Date>,
    pub item_type: Option<PlanItemType>,
    pub header: Vec<PlanItemHeaderPart>,
    pub subject_id: Option<i64>,
    pub teacher_ids: Option<Vec<i64>>,
    pub classroom_ids: Option<Vec<i64>>,
    pub start_time: Option<DateTime>,
    pub end_time: Option<DateTime>,
    pub online_link: Option<String>,
}

/// The plan of the first of `dates` that is written `key`.
pub open spec fn first_dated(dates: Seq<(String, Plan)>, key: Seq<char>) -> Option<Plan>
    decreases dates.len(),
{
    if dates.len() == 0 {
        None
    } else if dates[0].0@ == key {
        Some(dates[0].1)
    } else {
        first_dated(dates.skip(1), key)
    }
}

impl DP {
    /// The plan of the date written `key`.
    pub open spec fn plan_for(&self, key: Seq<char>) -> Option<Plan> {
        first_dated(self.dates@, key)
    }

    /// The plan of the date written `key`, if the portal sent one.
    pub fn get(&self, key: &str) -> (r: Option<&Plan>)
        ensures
            match r {
                Some(plan) => self.plan_for(key@) == Some(*plan),
                None => self.plan_for(key@) is None,
            },
    {
        let wanted = String::from_str(key);
        let mut i: usize = 0;
        assert(self.dates@.skip(0) =~= self.dates@);
        while i < self.dates.len()
            invariant
                i <= self.dates.len(),
                wanted@ == key@,
                first_dated(self.dates@, key@) == first_dated(self.dates@.skip(i as int), key@),
            decreases self.dates.len() - i,
        {
            proof {
                let rest = self.dates@.skip(i as int);
                assert(rest[0] == self.dates@[i as int]);
                assert(rest.skip(1) =~= self.dates@.skip(i + 1));
            }
            if self.dates[i].0 == wanted {
                return Some(&self.dates[i].1);
            }
            i += 1;
        }
        None
    }
}

/// The characters of an optional text.
pub open spec fn text_view(s: Option<String>) -> Option<Seq<char>> {
    match s {
        Some(t) => Some(t@),
        None => None,
    }
}

impl View for Lesson {
    type V = LessonView;

    open spec fn view(&self) -> LessonView {
        LessonView {
            teachers: self.teachers@,
            classrooms: self.classrooms@,
            start_of_lesson: self.start_of_lesson,
            end_of_lesson: self.end_of_lesson,
            online_lesson_link: text_view(self.online_lesson_link),
            subject_id: self.subject_id,
            name: self.name@,
        }
    }
}

impl View for Timetable {
    type V = Seq<LessonView>;

    open spec fn view(&self) -> Seq<LessonView> {
        self.lessons@.map_values(|l: Lesson| l@)
    }
}

/// A copy of an optional text.
pub fn copy_text(s: &Option<String>) -> (r: Option<String>)
    ensures
        r == *s,
{
    match s {
        Some(t) => Some(t.clone()),
        None => None,
    }
}

/// A copy of a list of teachers.
pub fn copy_teachers(v: &Vec<Teacher>) -> (r: Vec<Teacher>)
    ensures
        r@ == v@,
{
    let mut out: Vec<Teacher> = Vec::new();
    let mut i: usize = 0;
    while i < v.len()
        invariant
            i <= v.len(),
            out@ == v@.take(i as int),
        decreases v.len() - i,
    {
        out.push(v[i].clone());
        assert(out@ =~= v@.take(i + 1));
        i += 1;
    }
    assert(v@.take(i as int) =~= v@);
    out
}

/// A copy of a list of subjects or classrooms.
pub fn copy_bases(v: &Vec<DBIBase>) -> (r: Vec<DBIBase>)
    ensures
        r@ == v@,
{
    let mut out: Vec<DBIBase> = Vec::new();
    let mut i: usize = 0;
    while i < v.len()
        invariant
            i <= v.len(),
            out@ == v@.take(i as int),
        decreases v.len() - i,
    {
        out.push(v[i].clone());
        assert(out@ =~= v@.take(i + 1));
        i += 1;
    }
    assert(v@.take(i as int) =~= v@);
    out
}

impl Clone for Lesson {
    fn clone(&self) -> (r: Self)
        ensures
            r@ == self@,
    {
        Lesson {
            teachers: copy_teachers(&self.teachers),
            classrooms: copy_bases(&self.classrooms),
            start_of_lesson: self.start_of_lesson,
            end_of_lesson: self.end_of_lesson,
            online_lesson_link: copy_text(&self.online_lesson_link),
            subject_id: self.subject_id,
            name: self.name.clone(),
        }
    }
}

impl Clone for Timetable {
    fn clone(&self) -> (r: Self)
        ensures
            r@ == self@,
    {
        let mut lessons: Vec<Lesson> = Vec::new();
        let mut i: usize = 0;
        while i < self.lessons.len()
            invariant
                i <= self.lessons.len(),
                lessons.len() == i,
                forall|j: int| 0 <= j < i ==> (#[trigger] lessons@[j])@ == self.lessons@[j]@,
            decreases self.lessons.len() - i,
        {
            lessons.push(self.lessons[i].clone());
            i += 1;
        }
        let r = Timetable { lessons };
        assert(r@ =~= self@);
        r
    }
}

} // verus!
