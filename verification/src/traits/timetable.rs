//! Resolving a day's plan into lessons, and asking a timetable what is on.

use vstd::prelude::*;
use vstd::string::StringExecFns;

use crate::calendar::{date_text, format_date};
use crate::edupage::{Edupage, EdupageError, Request, RequestType};
use crate::numeral::{int_text, push_i64};
use crate::text::{after_first, cut_after};
use crate::traits::substitution::{is_json_post, json_post};
use crate::traits::dbi::{find_by_id, first_with_id, Identified};
use crate::types::dbi::{DBIBase, DBI};
use crate::types::person::Teacher;
use crate::types::time::{Date, DateTime};
use crate::types::timetable::{copy_text, text_view, Lesson, LessonView, Plan, PlanItem};
use crate::types::UserData;

verus! {

/// The entries that the numbers `ids` name, in the order of `ids`. A number
/// that names no entry adds none.
pub open spec fn resolved<T: Identified>(entries: Seq<T>, ids: Seq<i64>) -> Seq<T>
    decreases ids.len(),
{
    if ids.len() == 0 {
        Seq::empty()
    } else {
        let before = resolved(entries, ids.drop_last());
        match first_with_id(entries, ids.last()) {
            Some(e) => before.push(e),
            None => before,
        }
    }
}

/// The entries that an optional list of numbers names: none where the list
/// is missing.
pub open spec fn resolved_or_none<T: Identified>(entries: Seq<T>, ids: Option<Vec<i64>>) -> Seq<
    T,
> {
    match ids {
        Some(v) => resolved(entries, v@),
        None => Seq::empty(),
    }
}

/// The subject that the first part of an item's header names.
pub open spec fn header_subject(item: PlanItem) -> Option<i64> {
    if item.header@.len() == 0 {
        None
    } else {
        match item.header@[0].item {
            Some(h) => h.subject_id,
            None => None,
        }
    }
}

/// What becomes of one plan item.
pub enum Resolution {
    /// The item names no subject in its header, or lacks a start or an end:
    /// it is left out.
    Skipped,
    /// The directory has no subject of the number in the header.
    MissingSubject,
    /// The item is a lesson.
    Resolved(LessonView),
}

/// What becomes of `item` against the directory `dbi`. The lesson is named
/// after the subject in the header; its own subject number is the item's,
/// or the header's where the item has none.
pub open spec fn resolve_item(dbi: DBI, item: PlanItem) -> Resolution {
    match header_subject(item) {
        None => Resolution::Skipped,
        Some(header_id) => match first_with_id(dbi.subjects@, header_id) {
            None => Resolution::MissingSubject,
            Some(subject) => if item.start_time is None || item.end_time is None {
                Resolution::Skipped
            } else {
                Resolution::Resolved(
                    LessonView {
                        teachers: resolved_or_none(dbi.teachers@, item.teacher_ids),
                        classrooms: resolved_or_none(dbi.classrooms@, item.classroom_ids),
                        start_of_lesson: item.start_time->0,
                        end_of_lesson: item.end_time->0,
                        online_lesson_link: text_view(item.online_link),
                        subject_id: match item.subject_id {
                            Some(own) => own,
                            None => header_id,
                        },
                        name: subject.name@,
                    },
                )
            },
        },
    }
}

/// The lessons of `items`, in their order; `None` where one of them names a
/// subject that the directory lacks.
pub open spec fn resolve_items(dbi: DBI, items: Seq<PlanItem>) -> Option<Seq<LessonView>>
    decreases items.len(),
{
    if items.len() == 0 {
        Some(Seq::empty())
    } else {
        match resolve_items(dbi, items.drop_last()) {
            None => None,
            Some(before) => match resolve_item(dbi, items.last()) {
                Resolution::Skipped => Some(before),
                Resolution::MissingSubject => None,
                Resolution::Resolved(lesson) => Some(before.push(lesson)),
            },
        }
    }
}

/// The timetable of the date written `key` in the snapshot `data`.
pub open spec fn timetable_of_day(data: UserData, key: Seq<char>) -> Result<
    Seq<LessonView>,
    EdupageError,
> {
    match data.dp.plan_for(key) {
        None => Err(EdupageError::MissingData),
        Some(plan) => match resolve_items(data.dbi, plan.plan_items@) {
            None => Err(EdupageError::MissingData),
            Some(lessons) => Ok(lessons),
        },
    }
}

/// The timetable of the date written `key` in a session.
pub open spec fn timetable_of_session(snapshot: Option<UserData>, key: Seq<char>) -> Result<
    Seq<LessonView>,
    EdupageError,
> {
    match snapshot {
        None => Err(EdupageError::NotLoggedIn),
        Some(data) => timetable_of_day(data, key),
    }
}

/// A number that names no entry adds nothing to what the numbers before it
/// resolve to: it is left out, and the others stay.
pub proof fn lemma_unknown_number_adds_nothing<T: Identified>(
    entries: Seq<T>,
    ids: Seq<i64>,
    id: i64,
)
    requires
        first_with_id(entries, id) is None,
    ensures
        resolved(entries, ids.push(id)) == resolved(entries, ids),
{
    assert(ids.push(id).drop_last() =~= ids);
}

/// A number that names an entry adds that entry after those of the numbers
/// before it.
pub proof fn lemma_known_number_adds_its_entry<T: Identified>(
    entries: Seq<T>,
    ids: Seq<i64>,
    id: i64,
)
    requires
        first_with_id(entries, id) is Some,
    ensures
        resolved(entries, ids.push(id)) == resolved(entries, ids).push(
            first_with_id(entries, id)->0,
        ),
{
    assert(ids.push(id).drop_last() =~= ids);
}

/// A date that the snapshot has no plan for has no timetable: asking for it
/// is answered with `MissingData`.
pub proof fn lemma_absent_date_is_missing_data(data: UserData, key: Seq<char>)
    requires
        data.dp.plan_for(key) is None,
    ensures
        timetable_of_session(Some(data), key) == Err::<Seq<LessonView>, EdupageError>(
            EdupageError::MissingData,
        ),
{
}

/// Once a subject is missing, the plan stays unresolved however it goes on.
pub proof fn lemma_missing_subject_stays(dbi: DBI, items: Seq<PlanItem>, n: int)
    requires
        0 <= n <= items.len(),
        resolve_items(dbi, items.take(n)) is None,
    ensures
        resolve_items(dbi, items) is None,
    decreases items.len() - n,
{
    if n == items.len() {
        assert(items.take(n) =~= items);
    } else {
        assert(items.take(n + 1).drop_last() =~= items.take(n));
        lemma_missing_subject_stays(dbi, items, n + 1);
    }
}

/// An item with an empty header leaves a plan's lessons as they were: it
/// adds no lesson and raises no error.
pub proof fn lemma_empty_header_is_left_out(dbi: DBI, items: Seq<PlanItem>, item: PlanItem)
    requires
        item.header@.len() == 0,
    ensures
        resolve_item(dbi, item) == Resolution::Skipped,
        resolve_items(dbi, items.push(item)) == resolve_items(dbi, items),
{
    assert(items.push(item).drop_last() =~= items);
}

/// The teachers that `ids` names.
pub fn resolve_teachers(teachers: &Vec<Teacher>, ids: &Option<Vec<i64>>) -> (r: Vec<Teacher>)
    ensures
        r@ == resolved_or_none(teachers@, *ids),
{
    let mut out: Vec<Teacher> = Vec::new();
    match ids {
        None => {},
        Some(list) => {
            let mut i: usize = 0;
            while i < list.len()
                invariant
                    i <= list.len(),
                    out@ == resolved(teachers@, list@.take(i as int)),
                decreases list.len() - i,
            {
                proof {
                    assert(list@.take(i + 1).drop_last() =~= list@.take(i as int));
                }
                match find_by_id(teachers, list[i]) {
                    Some(t) => {
                        out.push(t.clone());
                    },
                    None => {},
                }
                i += 1;
            }
            assert(list@.take(i as int) =~= list@);
        },
    }
    out
}

/// The subjects or classrooms that `ids` names.
pub fn resolve_bases(bases: &Vec<DBIBase>, ids: &Option<Vec<i64>>) -> (r: Vec<DBIBase>)
    ensures
        r@ == resolved_or_none(bases@, *ids),
{
    let mut out: Vec<DBIBase> = Vec::new();
    match ids {
        None => {},
        Some(list) => {
            let mut i: usize = 0;
            while i < list.len()
                invariant
                    i <= list.len(),
                    out@ == resolved(bases@, list@.take(i as int)),
                decreases list.len() - i,
            {
                proof {
                    assert(list@.take(i + 1).drop_last() =~= list@.take(i as int));
                }
                match find_by_id(bases, list[i]) {
                    Some(b) => {
                        out.push(b.clone());
                    },
                    None => {},
                }
                i += 1;
            }
            assert(list@.take(i as int) =~= list@);
        },
    }
    out
}

/// Resolves one plan item: `Ok(None)` where it is left out.
pub fn lesson_of(dbi: &DBI, item: &PlanItem) -> (r: Result<Option<Lesson>, EdupageError>)
    ensures
        match resolve_item(*dbi, *item) {
            Resolution::Skipped => r matches Ok(None),
            Resolution::MissingSubject => r == Err::<Option<Lesson>, EdupageError>(
                EdupageError::MissingData,
            ),
            Resolution::Resolved(lesson) => r matches Ok(Some(l)) && l@ == lesson,
        },
{
    if item.header.len() == 0 {
        return Ok(None);
    }
    let header_id = match item.header[0].item {
        Some(h) => match h.subject_id {
            Some(id) => id,
            None => {
                return Ok(None);
            },
        },
        None => {
            return Ok(None);
        },
    };
    let teachers = resolve_teachers(&dbi.teachers, &item.teacher_ids);
    let classrooms = resolve_bases(&dbi.classrooms, &item.classroom_ids);
    let name = match find_by_id(&dbi.subjects, header_id) {
        Some(subject) => subject.name.clone(),
        None => {
            return Err(EdupageError::MissingData);
        },
    };
    let start_of_lesson = match item.start_time {
        Some(t) => t,
        None => {
            return Ok(None);
        },
    };
    let end_of_lesson = match item.end_time {
        Some(t) => t,
        None => {
            return Ok(None);
        },
    };
    let subject_id = match item.subject_id {
        Some(own) => own,
        None => header_id,
    };
    Ok(
        Some(
            Lesson {
                teachers,
                classrooms,
                start_of_lesson,
                end_of_lesson,
                online_lesson_link: copy_text(&item.online_link),
                subject_id,
                name,
            },
        ),
    )
}

/// Resolves a day's plan into its timetable, keeping the order of the plan.
pub fn timetable_of_plan(dbi: &DBI, plan: &Plan) -> (r: Result<
    crate::types::timetable::Timetable,
    EdupageError,
>)
    ensures
        match resolve_items(*dbi, plan.plan_items@) {
            Some(lessons) => r matches Ok(t) && t@ == lessons,
            None => r == Err::<crate::types::timetable::Timetable, EdupageError>(
                EdupageError::MissingData,
            ),
        },
{
    let items = &plan.plan_items;
    let mut lessons: Vec<Lesson> = Vec::new();
    let mut i: usize = 0;
    while i < items.len()
        invariant
            i <= items.len(),
            items@ == plan.plan_items@,
            resolve_items(*dbi, items@.take(i as int)) == Some(
                lessons@.map_values(|l: Lesson| l@),
            ),
        decreases items.len() - i,
    {
        proof {
            assert(items@.take(i + 1).drop_last() =~= items@.take(i as int));
            assert(items@.take(i + 1).last() == items@[i as int]);
        }
        let ghost before = lessons@.map_values(|l: Lesson| l@);
        match lesson_of(dbi, &items[i]) {
            Ok(Some(lesson)) => {
                lessons.push(lesson);
                assert(lessons@.map_values(|l: Lesson| l@) =~= before.push(lesson@));
            },
            Ok(None) => {},
            Err(e) => {
                proof {
                    lemma_missing_subject_stays(*dbi, items@, i + 1);
                }
                return Err(e);
            },
        }
        i += 1;
    }
    assert(items@.take(i as int) =~= items@);
    Ok(crate::types::timetable::Timetable { lessons })
}

/// The timetable of a day.
pub trait Timetable {
    fn get_timetable(&self, date: Date) -> Result<crate::types::timetable::Timetable, EdupageError>;
}

impl Edupage {
    /// The timetable of the date written `key`, as `YYYY-MM-DD`.
    ///
    /// Fails with `NotLoggedIn` outside a login, and with `MissingData`
    /// where the snapshot has no plan for the date or a plan item names a
    /// subject that the directory lacks.
    pub fn timetable_on(&self, key: &str) -> (r: Result<
        crate::types::timetable::Timetable,
        EdupageError,
    >)
        ensures
            match timetable_of_session(self.snapshot(), key@) {
                Ok(lessons) => r matches Ok(t) && t@ == lessons,
                Err(e) => r == Err::<crate::types::timetable::Timetable, EdupageError>(e),
            },
    {
        proof {
            use_type_invariant(self);
        }
        if !self.is_logged_in {
            return Err(EdupageError::NotLoggedIn);
        }
        let data = match &self.data {
            Some(data) => data,
            None => {
                return Err(EdupageError::NotLoggedIn);
            },
        };
        match data.dp.get(key) {
            Some(plan) => timetable_of_plan(&data.dbi, plan),
            None => Err(EdupageError::MissingData),
        }
    }
}

impl Timetable for Edupage {
    /// The timetable of `date`. The snapshot only holds the plans of a few
    /// days; a date that is no day of the calendar has none.
    fn get_timetable(&self, date: Date) -> (r: Result<
        crate::types::timetable::Timetable,
        EdupageError,
    >)
        ensures
            match date_text(date.year, date.month, date.day) {
                Some(key) => match timetable_of_session(self.snapshot(), key) {
                    Ok(lessons) => r matches Ok(t) && t@ == lessons,
                    Err(e) => r == Err::<crate::types::timetable::Timetable, EdupageError>(e),
                },
                None => r == Err::<crate::types::timetable::Timetable, EdupageError>(
                    if self.snapshot() is Some {
                        EdupageError::MissingData
                    } else {
                        EdupageError::NotLoggedIn
                    },
                ),
            },
    {
        proof {
            use_type_invariant(self);
        }
        if !self.is_logged_in {
            return Err(EdupageError::NotLoggedIn);
        }
        match format_date(&date) {
            Some(key) => self.timetable_on(key.as_str()),
            None => Err(EdupageError::MissingData),
        }
    }
}

/// What a timetable is asked for.
#[derive(Clone, Copy, Debug, PartialEq, Eq, Structural)]
pub enum LessonQuery {
    /// A lesson that is on at the moment: it has started and not yet ended,
    /// both ends counted in.
    At(DateTime),
    /// A lesson that starts after the moment.
    After(DateTime),
    /// A lesson that starts after the moment and has an online link.
    OnlineAfter(DateTime),
}

/// Whether `lesson` is what `query` asks for.
pub open spec fn answers(query: LessonQuery, lesson: LessonView) -> bool {
    match query {
        LessonQuery::At(time) => lesson.start_of_lesson.at_or_before(time) && time.at_or_before(
            lesson.end_of_lesson,
        ),
        LessonQuery::After(time) => time.precedes(lesson.start_of_lesson),
        LessonQuery::OnlineAfter(time) => time.precedes(lesson.start_of_lesson)
            && lesson.online_lesson_link is Some,
    }
}

/// The first of `lessons` that is what `query` asks for.
pub open spec fn first_answer(lessons: Seq<LessonView>, query: LessonQuery) -> Option<LessonView>
    decreases lessons.len(),
{
    if lessons.len() == 0 {
        None
    } else if answers(query, lessons[0]) {
        Some(lessons[0])
    } else {
        first_answer(lessons.skip(1), query)
    }
}

impl Lesson {
    /// Whether the lesson has a link to an online meeting.
    pub fn is_online_lesson(&self) -> (r: bool)
        ensures
            r == self@.online_lesson_link is Some,
    {
        self.online_lesson_link.is_some()
    }

    /// Whether the lesson is what `query` asks for.
    pub fn answers(&self, query: LessonQuery) -> (r: bool)
        ensures
            r == answers(query, self@),
    {
        match query {
            LessonQuery::At(time) => self.start_of_lesson.is_at_or_before(&time)
                && time.is_at_or_before(&self.end_of_lesson),
            LessonQuery::After(time) => time.is_before(&self.start_of_lesson),
            LessonQuery::OnlineAfter(time) => time.is_before(&self.start_of_lesson)
                && self.is_online_lesson(),
        }
    }
}

/// A walk through the lessons of a timetable, from the first on.
pub struct TimetableIntoIterator {
    index: usize,
    timetable: crate::types::timetable::Timetable,
}

impl TimetableIntoIterator {
    /// The lessons that the walk goes through.
    pub closed spec fn lessons(&self) -> Seq<LessonView> {
        self.timetable@
    }

    /// The number of lessons that the walk has passed.
    pub closed spec fn position(&self) -> nat {
        self.index as nat
    }

    /// The next lesson, or `None` when all have been passed.
    pub fn next(&mut self) -> (r: Option<Lesson>)
        ensures
            final(self).lessons() == old(self).lessons(),
            final(self).position() == old(self).position() + (if r is Some {
                1nat
            } else {
                0nat
            }),
            match r {
                Some(l) => old(self).position() < old(self).lessons().len() && l@ == old(
                    self
                ).lessons()[old(self).position() as int],
                None => old(self).position() >= old(self).lessons().len(),
            },
    {
        if self.index < self.timetable.lessons.len() {
            let lesson = self.timetable.lessons[self.index].clone();
            self.index = self.index + 1;
            Some(lesson)
        } else {
            None
        }
    }
}

impl crate::types::timetable::Timetable {
    /// A walk through the lessons, which starts before the first.
    pub fn into_iter(self) -> (r: TimetableIntoIterator)
        ensures
            r.lessons() == self@,
            r.position() == 0,
    {
        TimetableIntoIterator { index: 0, timetable: self }
    }

    /// The first lesson that is what `query` asks for.
    pub fn find(&self, query: LessonQuery) -> (r: Option<Lesson>)
        ensures
            match first_answer(self@, query) {
                Some(lesson) => r matches Some(l) && l@ == lesson,
                None => r is None,
            },
    {
        let mut i: usize = 0;
        assert(self@.skip(0) =~= self@);
        while i < self.lessons.len()
            invariant
                i <= self.lessons.len(),
                first_answer(self@, query) == first_answer(self@.skip(i as int), query),
            decreases self.lessons.len() - i,
        {
            proof {
                let rest = self@.skip(i as int);
                assert(rest[0] == self.lessons@[i as int]@);
                assert(rest.skip(1) =~= self@.skip(i + 1));
            }
            if self.lessons[i].answers(query) {
                return Some(self.lessons[i].clone());
            }
            i += 1;
        }
        None
    }

    /// The first lesson that is on at `time`.
    pub fn get_lesson_at_time(&self, time: DateTime) -> (r: Option<Lesson>)
        ensures
            match first_answer(self@, LessonQuery::At(time)) {
                Some(lesson) => r matches Some(l) && l@ == lesson,
                None => r is None,
            },
    {
        self.find(LessonQuery::At(time))
    }

    /// The first lesson that starts after `time`.
    pub fn get_next_lesson_at_time(&self, time: DateTime) -> (r: Option<Lesson>)
        ensures
            match first_answer(self@, LessonQuery::After(time)) {
                Some(lesson) => r matches Some(l) && l@ == lesson,
                None => r is None,
            },
    {
        self.find(LessonQuery::After(time))
    }

    /// The first online lesson that starts after `time`.
    pub fn get_next_online_lesson_at_time(&self, time: DateTime) -> (r: Option<Lesson>)
        ensures
            match first_answer(self@, LessonQuery::OnlineAfter(time)) {
                Some(lesson) => r matches Some(l) && l@ == lesson,
                None => r is None,
            },
    {
        self.find(LessonQuery::OnlineAfter(time))
    }

    pub fn get_first_lesson(&self) -> (r: Option<Lesson>)
        ensures
            self@.len() == 0 ==> r is None,
            self@.len() > 0 ==> (r matches Some(l) && l@ == self@[0]),
    {
        if self.lessons.len() > 0 {
            return Some(self.lessons[0].clone());
        }
        None
    }

    pub fn get_last_lesson(&self) -> (r: Option<Lesson>)
        ensures
            self@.len() == 0 ==> r is None,
            self@.len() > 0 ==> (r matches Some(l) && l@ == self@.last()),
    {
        if self.lessons.len() > 0 {
            return Some(self.lessons[self.lessons.len() - 1].clone());
        }
        None
    }
}

/// The address of the page that carries the token for a sign-in.
pub open spec fn dashboard_url(subdomain: Seq<char>) -> Seq<char> {
    "https://"@ + subdomain + ".edupage.org/dashboard/eb.php"@
}

/// The address that takes a sign-in to an online lesson.
pub open spec fn sign_in_url(subdomain: Seq<char>) -> Seq<char> {
    "https://"@ + subdomain
        + ".edupage.org/dashboard/server/onlinelesson.js?__func=getOnlineLessonOpenUrl"@
}

/// The token that the dashboard page carries: what stands between the first
/// two quotation marks after the first `gsechash=`.
pub open spec fn dashboard_token(page: Seq<char>) -> Option<Seq<char>> {
    match after_first(page, "gsechash="@) {
        Some(rest) => after_first(rest, "\""@),
        None => None,
    }
}

/// The body of a sign-in on the day written `day` to the lesson of the
/// subject `subject_id` that is held at `link`, signed with `gsec_hash`.
pub open spec fn sign_in_body(
    day: Seq<char>,
    link: Seq<char>,
    subject_id: i64,
    gsec_hash: Seq<char>,
) -> Seq<char> {
    "{[null,{\"click\": true,\n                \"date\": \""@ + day
        + "\",\n                \"ol_url\": \""@ + link
        + "\",\n                \"subjectid\": \""@ + int_text(subject_id as int)
        + "\",\n            }\n            ], \"__gsh\": \""@ + gsec_hash + "\"}"@
}

/// Reads the token of a dashboard page.
pub fn extract_dashboard_token(page: &str) -> (r: Option<String>)
    ensures
        match r {
            Some(token) => dashboard_token(page@) == Some(token@),
            None => dashboard_token(page@) is None,
        },
{
    match cut_after(page, "gsechash=") {
        Some(rest) => cut_after(rest.as_str(), "\""),
        None => None,
    }
}

impl Edupage {
    /// The request for the page that carries the token for a sign-in.
    pub fn dashboard_request(&self) -> (r: Result<Request, EdupageError>)
        ensures
            match self.portal() {
                Some(subdomain) => r matches Ok(request) && request.request_type
                    == RequestType::GET && request.url@ == dashboard_url(subdomain)
                    && request.headers@.len() == 0 && request.post_data is None,
                None => r == Err::<Request, EdupageError>(EdupageError::NotLoggedIn),
            },
    {
        match self.subdomain() {
            Some(subdomain) => Ok(
                Request {
                    url: String::from_str("https://").concat(subdomain.as_str()).concat(
                        ".edupage.org/dashboard/eb.php",
                    ),
                    request_type: RequestType::GET,
                    headers: Vec::new(),
                    post_data: None,
                },
            ),
            None => Err(EdupageError::NotLoggedIn),
        }
    }
}

impl Lesson {
    /// The request that reports presence at this lesson on the day written
    /// `day`, signed with the token `gsec_hash` of the dashboard page. It
    /// takes a session that is logged in and a lesson that is held online.
    pub fn sign_in_request(&self, edupage: &Edupage, day: &str, gsec_hash: &str) -> (r: Result<
        Request,
        EdupageError,
    >)
        ensures
            match edupage.portal() {
                None => r == Err::<Request, EdupageError>(EdupageError::NotLoggedIn),
                Some(subdomain) => match self@.online_lesson_link {
                    None => r == Err::<Request, EdupageError>(EdupageError::MissingData),
                    Some(link) => r matches Ok(request) && is_json_post(
                        request,
                        sign_in_url(subdomain),
                        sign_in_body(day@, link, self.subject_id, gsec_hash@),
                    ),
                },
            },
    {
        let subdomain = match edupage.subdomain() {
            Some(subdomain) => subdomain,
            None => {
                return Err(EdupageError::NotLoggedIn);
            },
        };
        let link = match &self.online_lesson_link {
            Some(link) => link,
            None => {
                return Err(EdupageError::MissingData);
            },
        };
        let url = String::from_str("https://").concat(subdomain.as_str()).concat(
            ".edupage.org/dashboard/server/onlinelesson.js?__func=getOnlineLessonOpenUrl",
        );
        let mut body = String::from_str(
            "{[null,{\"click\": true,\n                \"date\": \"",
        ).concat(day).concat("\",\n                \"ol_url\": \"").concat(
            link.as_str(),
        ).concat("\",\n                \"subjectid\": \"");
        push_i64(&mut body, self.subject_id);
        let body = body.concat("\",\n            }\n            ], \"__gsh\": \"").concat(
            gsec_hash,
        ).concat("\"}");
        Ok(json_post(url, body))
    }
}

} // verus!
