use cdupage::edupage::{Edupage, EdupageError, Request, RequestType, Response};
use cdupage::traits::dbi::DBI;
use cdupage::traits::login::{LoginAction, LoginCredentials, LoginEvent};
use cdupage::traits::ringing::{next_lesson_time_on, NextDayPart, Ringing};
use cdupage::traits::timeline::Timeline;
use cdupage::traits::timetable::{extract_dashboard_token, LessonQuery, Timetable};
use cdupage::types::dbi::{DBIBase, Gender};
use cdupage::types::person::{Student, Teacher, UserID};
use cdupage::types::time::{Date, DateTime, Weekday};
use cdupage::types::timeline::{TimelineItem, TimelineItemType};
use cdupage::types::timetable::{
    Plan, PlanItem, PlanItemHeaderItem, PlanItemHeaderPart, PlanItemType, DP,
};
use cdupage::types::{RingingTime, UserData};
use chrono::Datelike;

const LOGIN_PAGE: &str =
    "<form><input type=\"hidden\" name=\"csrfauth\" value=\"tok123\"><input name=\"username\"></form>";
const HOME_PAGE: &str =
    "<script>$(function(){\n\tuserhome({\"items\":[],\r\n\"dbi\":{}});\n});\nASC.gsechash=\"deadbeef\";</script>";

fn teacher(id: Option<i64>, first_name: &str, last_name: &str) -> Teacher {
    Teacher {
        id,
        first_name: first_name.to_string(),
        last_name: last_name.to_string(),
        short: last_name.chars().take(2).collect(),
        gender: Some(Gender::Female),
        classroom_id: None,
        is_out: false,
        date_from: None,
        date_to: None,
    }
}

fn student(id: Option<i64>, first_name: &str) -> Student {
    Student {
        id,
        class_id: Some(1),
        first_name: first_name.to_string(),
        last_name: "Nova".to_string(),
        first_parent_id: None,
        second_parent_id: None,
        third_parent_id: None,
        gender: None,
        date_from: Some(Date::new(2023, 9, 1)),
        date_to: None,
        number_in_class: Some(3),
    }
}

fn base(id: Option<i64>, name: &str, short: &str) -> DBIBase {
    DBIBase { id, name: name.to_string(), short: short.to_string() }
}

fn day() -> Date {
    Date::new(2024, 1, 10)
}

fn at(hour: u32, minute: u32) -> DateTime {
    DateTime::at(day(), hour, minute)
}

fn header(subject_id: Option<i64>) -> Vec<PlanItemHeaderPart> {
    vec![PlanItemHeaderPart { item: Some(PlanItemHeaderItem { subject_id }) }]
}

fn plan_item(subject: Option<i64>, teachers: Vec<i64>, rooms: Vec<i64>) -> PlanItem {
    PlanItem {
        class_ids: Some(vec![1]),
        date: Some(day()),
        item_type: Some(PlanItemType::Lesson),
        header: header(subject),
        subject_id: subject,
        teacher_ids: Some(teachers),
        classroom_ids: Some(rooms),
        start_time: Some(at(8, 0)),
        end_time: Some(at(8, 45)),
        online_link: None,
    }
}

fn timeline_item(id: i64, item_type: TimelineItemType) -> TimelineItem {
    TimelineItem {
        user: UserID::Teacher(1),
        time_added: None,
        time_added_btc: None,
        time_of_event: None,
        additional_data: String::new(),
        reactions_n: 0,
        target_user: Some(UserID::Everyone),
        item_type,
        timeline_id: id,
        timestamp: None,
        reaction_to: None,
        text: format!("item {}", id),
        user_name: "Anna".to_string(),
        owner: "Ucitel1".to_string(),
    }
}

fn directory() -> cdupage::types::dbi::DBI {
    cdupage::types::dbi::DBI {
        teachers: vec![
            teacher(Some(1), "Anna", "Kovac"),
            teacher(None, "Nobody", "Unnumbered"),
            teacher(Some(2), "Boris", "Horvat"),
            teacher(Some(2), "Second", "Two"),
        ],
        classes: vec![],
        subjects: vec![base(Some(10), "Mathematics", "MAT"), base(Some(11), "Physics", "FYZ")],
        classrooms: vec![base(Some(5), "Room 5", "R5"), base(Some(6), "Room 6", "R6")],
        students: vec![student(Some(100), "Cyril"), student(Some(101), "Dana")],
        parents: vec![],
        is_art_school: false,
    }
}

fn snapshot_with(dates: Vec<(String, Plan)>) -> UserData {
    UserData {
        items: vec![
            timeline_item(1, TimelineItemType::Homework),
            timeline_item(2, TimelineItemType::Message),
            timeline_item(3, TimelineItemType::Homework),
            timeline_item(4, TimelineItemType::Grade),
        ],
        dbi: directory(),
        nameday_today: "Dasa".to_string(),
        nameday_tomorrow: "Malvina".to_string(),
        user_id: UserID::Student(100),
        ringing_times: vec![
            RingingTime::new(1, at(8, 0), at(8, 45)),
            RingingTime::new(2, at(8, 55), at(9, 40)),
        ],
        dp: DP { dates, school_year: 2023 },
    }
}

fn one_day(items: Vec<PlanItem>) -> Vec<(String, Plan)> {
    vec![("2024-01-10".to_string(), Plan { day: 3, plan_items: items, week: 2 })]
}

fn snapshot() -> UserData {
    snapshot_with(one_day(vec![plan_item(Some(10), vec![1, 2], vec![5])]))
}

fn answered(url: &str, body: &str) -> LoginEvent {
    LoginEvent::Responded(Ok(Response { url: url.to_string(), text: Ok(body.to_string()) }))
}

fn sent(action: LoginAction) -> Request {
    match action {
        LoginAction::Send(request) => request,
        other => panic!("expected a request, got {:?}", other),
    }
}

/// Runs the handshake against canned pages and hands back its result.
fn login_with(
    edupage: &mut Edupage,
    subdomain: &str,
    username: &str,
    password: &str,
    data: UserData,
) -> Result<(), EdupageError> {
    let first = edupage.begin_login(subdomain, username, password);
    assert_eq!(first.request_type, RequestType::GET);
    let mut action = edupage.advance_login(answered(&first.url, LOGIN_PAGE));
    let mut data = Some(data);
    loop {
        action = match action {
            LoginAction::Send(request) => {
                assert_eq!(request.request_type, RequestType::POST);
                edupage.advance_login(answered("https://school.edupage.org/user/", HOME_PAGE))
            }
            LoginAction::Decode(json) => {
                assert_eq!(json, "{\"items\":[],\"dbi\":{}}");
                edupage.advance_login(LoginEvent::Decoded(Ok(data.take().unwrap())))
            }
            LoginAction::Done(result) => return result,
        };
    }
}

fn session(data: UserData) -> Edupage {
    let mut edupage = Edupage::new();
    login_with(&mut edupage, "school", "user", "secret", data).unwrap();
    edupage
}

#[test]
fn login_test() {
    let subdomain = Some("school".to_string());
    let username = Some("user".to_string());
    let password = Some("secret".to_string());

    let mut edupage = Edupage::new();

    let subdomain = subdomain.unwrap();
    let username = username.unwrap();
    let password = password.unwrap();

    let login_result = login_with(&mut edupage, &subdomain, &username, &password, snapshot());

    assert!(matches!(login_result, Ok(_)));

    assert!(edupage.logged_in());
}

#[test]
fn dbi_test() {
    let mut edupage = Edupage::new();

    let login_result = login_with(&mut edupage, "school", "user", "secret", snapshot());
    assert!(matches!(login_result, Ok(_)));

    let homework = edupage.filter_timeline_by_item_type(TimelineItemType::Homework);
    assert!(matches!(homework, Ok(_)));

    let teachers = edupage.get_teachers();
    assert!(matches!(teachers, Ok(_)));

    let students = edupage.get_students();
    assert!(matches!(students, Ok(_)));

    let subjects = edupage.get_subjects();
    assert!(matches!(subjects, Ok(_)));

    let classrooms = edupage.get_classrooms();
    assert!(matches!(classrooms, Ok(_)));
}

#[test]
fn timetable_test() {
    let today = chrono::Utc::now().naive_local().date();
    let key = today.format("%Y-%m-%d").to_string();
    let plan = Plan { day: 1, plan_items: vec![plan_item(Some(10), vec![1], vec![5])], week: 1 };

    let mut edupage = Edupage::new();
    let login_result =
        login_with(&mut edupage, "school", "user", "secret", snapshot_with(vec![(key, plan)]));
    assert!(matches!(login_result, Ok(_)));

    let result =
        edupage.get_timetable(Date::new(today.year(), today.month(), today.day()));
    assert!(matches!(result, Ok(_)));
}

#[test]
fn new_session_is_logged_out() {
    let edupage = Edupage::new();
    assert!(!edupage.logged_in());
    assert_eq!(edupage.subdomain(), None);
    assert_eq!(edupage.gsec_hash(), None);
    assert_eq!(edupage.get_teachers(), Err(EdupageError::NotLoggedIn));
    assert_eq!(edupage.get_teacher_by_id(1), Err(EdupageError::NotLoggedIn));
    assert_eq!(edupage.get_students(), Err(EdupageError::NotLoggedIn));
    assert_eq!(edupage.get_student_by_id(100), Err(EdupageError::NotLoggedIn));
    assert_eq!(edupage.get_subjects(), Err(EdupageError::NotLoggedIn));
    assert_eq!(edupage.get_subject_by_id(10), Err(EdupageError::NotLoggedIn));
    assert_eq!(edupage.get_classrooms(), Err(EdupageError::NotLoggedIn));
    assert_eq!(edupage.get_classroom_by_id(5), Err(EdupageError::NotLoggedIn));
    assert_eq!(edupage.get_timetable(day()), Err(EdupageError::NotLoggedIn));
    assert_eq!(edupage.timetable_on("2024-01-10"), Err(EdupageError::NotLoggedIn));
    assert_eq!(
        edupage.filter_timeline_by_item_type(TimelineItemType::News),
        Err(EdupageError::NotLoggedIn)
    );
    assert_eq!(edupage.get_ringing_times(), vec![]);
}

#[test]
fn handshake_asks_for_the_login_page_first() {
    let mut edupage = Edupage::new();
    let request = edupage.begin_login("school", "user", "secret");
    assert_eq!(
        request,
        Request {
            url: "https://school.edupage.org/login/index.php".to_string(),
            request_type: RequestType::GET,
            headers: vec![],
            post_data: None,
        }
    );
    assert!(!edupage.logged_in());
}

#[test]
fn handshake_posts_the_credentials_with_the_token() {
    let mut edupage = Edupage::new();
    let first = edupage.begin_login("school", "us er", "p&ss=é");
    let request = sent(edupage.advance_login(answered(&first.url, LOGIN_PAGE)));
    assert_eq!(
        request,
        Request {
            url: "https://school.edupage.org/login/edubarLogin.php".to_string(),
            request_type: RequestType::POST,
            headers: vec![(
                "Content-Type".to_string(),
                "application/x-www-form-urlencoded".to_string()
            )],
            post_data: Some("username=us+er&password=p%26ss%3D%C3%A9&csrfauth=tok123".to_string()),
        }
    );
}

#[test]
fn login_fills_the_session() {
    let edupage = session(snapshot());
    assert!(edupage.logged_in());
    assert_eq!(edupage.subdomain(), Some(&"school".to_string()));
    assert_eq!(edupage.gsec_hash(), Some(&"deadbeef".to_string()));
}

#[test]
fn login_page_without_token_field_is_an_invalid_response() {
    let mut edupage = Edupage::new();
    let first = edupage.begin_login("school", "user", "secret");
    let action = edupage.advance_login(answered(&first.url, "<html>maintenance</html>"));
    assert_eq!(action, LoginAction::Done(Err(EdupageError::InvalidResponse)));
    assert!(!edupage.logged_in());
}

#[test]
fn login_page_with_unreadable_token_is_a_parse_error() {
    let mut edupage = Edupage::new();
    let first = edupage.begin_login("school", "user", "secret");
    let action = edupage.advance_login(answered(&first.url, "<input name='csrfauth'>"));
    assert_eq!(
        action,
        LoginAction::Done(Err(EdupageError::ParseError("Failed to parse csrf token.".to_string())))
    );
}

#[test]
fn transport_failure_is_an_http_error() {
    let mut edupage = Edupage::new();
    edupage.begin_login("school", "user", "secret");
    let action = edupage.advance_login(LoginEvent::Responded(Err("connection refused".to_string())));
    assert_eq!(
        action,
        LoginAction::Done(Err(EdupageError::HTTPError("connection refused".to_string())))
    );
    let mut edupage = Edupage::new();
    let first = edupage.begin_login("school", "user", "secret");
    edupage.advance_login(answered(&first.url, LOGIN_PAGE));
    let action = edupage.advance_login(LoginEvent::Responded(Ok(Response {
        url: "https://school.edupage.org/user/".to_string(),
        text: Err("body cut short".to_string()),
    })));
    assert_eq!(
        action,
        LoginAction::Done(Err(EdupageError::HTTPError("body cut short".to_string())))
    );
}

#[test]
fn redirect_with_failure_marker_is_invalid_credentials() {
    let mut edupage = Edupage::new();
    let first = edupage.begin_login("school", "user", "wrong");
    edupage.advance_login(answered(&first.url, LOGIN_PAGE));
    let action = edupage
        .advance_login(answered("https://school.edupage.org/login/?bad=1", HOME_PAGE));
    assert_eq!(action, LoginAction::Done(Err(EdupageError::InvalidCredentials)));
    assert!(!edupage.logged_in());
}

#[test]
fn page_without_snapshot_is_a_parse_error() {
    let mut edupage = Edupage::new();
    let first = edupage.begin_login("school", "user", "secret");
    edupage.advance_login(answered(&first.url, LOGIN_PAGE));
    let action = edupage
        .advance_login(answered("https://school.edupage.org/user/", "<html>nothing</html>"));
    assert_eq!(
        action,
        LoginAction::Done(Err(EdupageError::ParseError("Bad data!".to_string())))
    );
    assert!(!edupage.logged_in());
}

#[test]
fn page_without_security_token_is_a_parse_error() {
    let mut edupage = Edupage::new();
    let first = edupage.begin_login("school", "user", "secret");
    edupage.advance_login(answered(&first.url, LOGIN_PAGE));
    let action = edupage
        .advance_login(answered("https://school.edupage.org/user/", "userhome({});\n});"));
    assert_eq!(action, LoginAction::Decode("{}".to_string()));
    let action = edupage.advance_login(LoginEvent::Decoded(Ok(snapshot())));
    assert_eq!(
        action,
        LoginAction::Done(Err(EdupageError::ParseError("No gsechash in response!".to_string())))
    );
    assert!(!edupage.logged_in());
}

#[test]
fn undecodable_snapshot_is_a_parse_error() {
    let mut edupage = Edupage::new();
    let first = edupage.begin_login("school", "user", "secret");
    edupage.advance_login(answered(&first.url, LOGIN_PAGE));
    edupage.advance_login(answered("https://school.edupage.org/user/", HOME_PAGE));
    let action = edupage.advance_login(LoginEvent::Decoded(Err("missing field `dbi`".to_string())));
    assert_eq!(
        action,
        LoginAction::Done(Err(EdupageError::ParseError("missing field `dbi`".to_string())))
    );
    assert!(!edupage.logged_in());
}

#[test]
fn event_without_login_is_refused() {
    let mut edupage = Edupage::new();
    let action = edupage.advance_login(answered("https://x", LOGIN_PAGE));
    assert_eq!(
        action,
        LoginAction::Done(Err(EdupageError::Other("No login is under way.".to_string())))
    );
    let first = edupage.begin_login("school", "user", "secret");
    assert_eq!(first.request_type, RequestType::GET);
    let action = edupage.advance_login(LoginEvent::Decoded(Ok(snapshot())));
    assert_eq!(
        action,
        LoginAction::Done(Err(EdupageError::Other("Unexpected event.".to_string())))
    );
    assert!(!edupage.logged_in());
}

#[test]
fn failed_login_keeps_an_earlier_session() {
    let mut edupage = session(snapshot());
    let first = edupage.begin_login("other", "user", "wrong");
    edupage.advance_login(answered(&first.url, LOGIN_PAGE));
    let action =
        edupage.advance_login(answered("https://other.edupage.org/login/?bad=1", ""));
    assert_eq!(action, LoginAction::Done(Err(EdupageError::InvalidCredentials)));
    assert!(edupage.logged_in());
    assert_eq!(edupage.subdomain(), Some(&"school".to_string()));
    assert_eq!(edupage.get_teachers().unwrap().len(), 4);
}

#[test]
fn credentials_are_written_as_a_form() {
    let credentials =
        LoginCredentials::new("anna".to_string(), "tajne heslo".to_string(), "abc".to_string());
    assert_eq!(credentials.username, "anna");
    assert_eq!(credentials.password, "tajne heslo");
    assert_eq!(credentials.csrfauth, "abc");
    assert_eq!(
        credentials.to_form(),
        Ok("username=anna&password=tajne+heslo&csrfauth=abc".to_string())
    );
}

#[test]
fn authenticated_request_needs_a_login() {
    let edupage = Edupage::new();
    assert_eq!(
        edupage.request("https://x".to_string(), RequestType::GET, None, None),
        Err(EdupageError::NotLoggedIn)
    );
    let edupage = session(snapshot());
    let headers = vec![("Content-Type".to_string(), "application/json".to_string())];
    assert_eq!(
        edupage.request(
            "https://school.edupage.org/timeline/".to_string(),
            RequestType::POST,
            Some(headers.clone()),
            Some("{}".to_string())
        ),
        Ok(Request {
            url: "https://school.edupage.org/timeline/".to_string(),
            request_type: RequestType::POST,
            headers,
            post_data: Some("{}".to_string()),
        })
    );
    assert_eq!(
        edupage.request("/x".to_string(), RequestType::GET, None, Some("dropped".to_string())),
        Ok(Request {
            url: "/x".to_string(),
            request_type: RequestType::GET,
            headers: vec![],
            post_data: None,
        })
    );
}

#[test]
fn directory_lists_are_handed_out_whole() {
    let edupage = session(snapshot());
    assert_eq!(edupage.get_teachers(), Ok(directory().teachers));
    assert_eq!(edupage.get_students(), Ok(directory().students));
    assert_eq!(edupage.get_subjects(), Ok(directory().subjects));
    assert_eq!(edupage.get_classrooms(), Ok(directory().classrooms));
}

#[test]
fn lookup_finds_the_first_entry_with_the_number() {
    let edupage = session(snapshot());
    assert_eq!(edupage.get_teacher_by_id(1), Ok(Some(teacher(Some(1), "Anna", "Kovac"))));
    assert_eq!(edupage.get_teacher_by_id(2), Ok(Some(teacher(Some(2), "Boris", "Horvat"))));
    assert_eq!(edupage.get_teacher_by_id(99), Ok(None));
    assert_eq!(edupage.get_student_by_id(101), Ok(Some(student(Some(101), "Dana"))));
    assert_eq!(edupage.get_student_by_id(1), Ok(None));
    assert_eq!(edupage.get_subject_by_id(11), Ok(Some(base(Some(11), "Physics", "FYZ"))));
    assert_eq!(edupage.get_subject_by_id(5), Ok(None));
    assert_eq!(edupage.get_classroom_by_id(6), Ok(Some(base(Some(6), "Room 6", "R6"))));
    assert_eq!(edupage.get_classroom_by_id(10), Ok(None));
}

#[test]
fn entry_without_number_is_never_found() {
    let edupage = session(snapshot());
    for id in [i64::MIN, -1, 0, 3, i64::MAX] {
        assert_eq!(edupage.get_teacher_by_id(id), Ok(None));
    }
}

#[test]
fn unresolvable_teacher_is_left_out_of_the_lesson() {
    let data = snapshot_with(one_day(vec![plan_item(Some(10), vec![1, 2, 99], vec![5, 77])]));
    let timetable = session(data).get_timetable(day()).unwrap();
    assert_eq!(timetable.lessons.len(), 1);
    assert_eq!(
        timetable.lessons[0].teachers,
        vec![teacher(Some(1), "Anna", "Kovac"), teacher(Some(2), "Boris", "Horvat")]
    );
    assert_eq!(timetable.lessons[0].classrooms, vec![base(Some(5), "Room 5", "R5")]);
}

#[test]
fn item_with_empty_header_is_absent_from_the_timetable() {
    let mut empty = plan_item(Some(10), vec![1], vec![5]);
    empty.header = vec![];
    let timetable = session(snapshot_with(one_day(vec![empty]))).get_timetable(day());
    assert_eq!(timetable.map(|t| t.lessons), Ok(vec![]));
}

#[test]
fn item_whose_header_names_no_subject_is_skipped() {
    let mut no_item = plan_item(Some(10), vec![1], vec![5]);
    no_item.header = vec![PlanItemHeaderPart { item: None }];
    let no_subject = plan_item(None, vec![1], vec![5]);
    let mut later_part = plan_item(Some(10), vec![1], vec![5]);
    later_part.header = vec![
        PlanItemHeaderPart { item: None },
        PlanItemHeaderPart { item: Some(PlanItemHeaderItem { subject_id: Some(10) }) },
    ];
    let data = snapshot_with(one_day(vec![no_item, no_subject, later_part]));
    assert_eq!(session(data).get_timetable(day()).map(|t| t.lessons), Ok(vec![]));
}

#[test]
fn item_without_start_or_end_is_skipped() {
    let mut no_start = plan_item(Some(10), vec![1], vec![5]);
    no_start.start_time = None;
    let mut no_end = plan_item(Some(11), vec![1], vec![5]);
    no_end.end_time = None;
    let data = snapshot_with(one_day(vec![no_start, plan_item(Some(11), vec![], vec![]), no_end]));
    let timetable = session(data).get_timetable(day()).unwrap();
    assert_eq!(timetable.lessons.len(), 1);
    assert_eq!(timetable.lessons[0].name, "Physics");
}

#[test]
fn date_without_plan_is_missing_data() {
    let edupage = session(snapshot());
    assert_eq!(edupage.get_timetable(Date::new(2024, 1, 11)), Err(EdupageError::MissingData));
    assert_eq!(edupage.timetable_on("2024-01-11"), Err(EdupageError::MissingData));
    assert_eq!(edupage.timetable_on(""), Err(EdupageError::MissingData));
}

#[test]
fn date_that_is_no_day_is_missing_data() {
    let edupage = session(snapshot());
    assert_eq!(edupage.get_timetable(Date::new(2024, 2, 30)), Err(EdupageError::MissingData));
    assert_eq!(edupage.get_timetable(Date::new(2024, 13, 1)), Err(EdupageError::MissingData));
}

#[test]
fn unknown_subject_fails_the_whole_timetable() {
    let data = snapshot_with(one_day(vec![
        plan_item(Some(10), vec![1], vec![5]),
        plan_item(Some(12), vec![1], vec![5]),
    ]));
    assert_eq!(session(data).get_timetable(day()), Err(EdupageError::MissingData));
    let mut timeless = plan_item(Some(12), vec![1], vec![5]);
    timeless.start_time = None;
    let data = snapshot_with(one_day(vec![timeless]));
    assert_eq!(session(data).get_timetable(day()), Err(EdupageError::MissingData));
}

#[test]
fn end_to_end_timetable_of_one_day() {
    let mut empty = plan_item(Some(11), vec![2], vec![6]);
    empty.header = vec![];
    let data = snapshot_with(one_day(vec![plan_item(Some(10), vec![1, 2], vec![5, 6]), empty]));
    let timetable = session(data).get_timetable(day()).unwrap();
    assert_eq!(timetable.lessons.len(), 1);
    let lesson = &timetable.lessons[0];
    assert_eq!(lesson.name, "Mathematics");
    assert_eq!(lesson.subject_id, 10);
    assert_eq!(lesson.start_of_lesson, at(8, 0));
    assert_eq!(lesson.end_of_lesson, at(8, 45));
    assert_eq!(lesson.teachers.len(), 2);
    assert_eq!(lesson.classrooms.len(), 2);
    assert_eq!(lesson.online_lesson_link, None);
    assert!(!lesson.is_online_lesson());
}

#[test]
fn lesson_keeps_the_order_of_the_plan_and_of_its_numbers() {
    let mut second = plan_item(Some(11), vec![2, 1], vec![6, 5]);
    second.start_time = Some(at(7, 0));
    second.end_time = Some(at(7, 45));
    second.online_link = Some("https://meet.example/1".to_string());
    second.subject_id = None;
    let data = snapshot_with(one_day(vec![plan_item(Some(10), vec![1], vec![5]), second]));
    let timetable = session(data).get_timetable(day()).unwrap();
    assert_eq!(timetable.lessons.len(), 2);
    assert_eq!(timetable.lessons[0].name, "Mathematics");
    assert_eq!(timetable.lessons[1].name, "Physics");
    assert_eq!(timetable.lessons[1].subject_id, 11);
    assert_eq!(timetable.lessons[1].teachers[0].id, Some(2));
    assert_eq!(timetable.lessons[1].teachers[1].id, Some(1));
    assert_eq!(timetable.lessons[1].classrooms[0].id, Some(6));
    assert!(timetable.lessons[1].is_online_lesson());
}

#[test]
fn lesson_takes_the_subject_number_of_the_item() {
    let mut item = plan_item(Some(10), vec![], vec![]);
    item.subject_id = Some(11);
    let timetable = session(snapshot_with(one_day(vec![item]))).get_timetable(day()).unwrap();
    assert_eq!(timetable.lessons[0].name, "Mathematics");
    assert_eq!(timetable.lessons[0].subject_id, 11);
}

#[test]
fn first_plan_of_a_repeated_date_counts() {
    let mut dates = one_day(vec![plan_item(Some(10), vec![], vec![])]);
    dates.extend(one_day(vec![plan_item(Some(11), vec![], vec![])]));
    let dp = DP { dates, school_year: 2023 };
    assert_eq!(dp.get("2024-01-10").map(|p| p.plan_items.len()), Some(1));
    assert_eq!(dp.get("2024-01-10").unwrap().plan_items[0].subject_id, Some(10));
    assert_eq!(dp.get("2024-01-1"), None);
}

fn three_lessons() -> cdupage::types::timetable::Timetable {
    let mut first = plan_item(Some(10), vec![1], vec![5]);
    first.start_time = Some(at(8, 0));
    first.end_time = Some(at(8, 45));
    let mut second = plan_item(Some(11), vec![2], vec![6]);
    second.start_time = Some(at(8, 55));
    second.end_time = Some(at(9, 40));
    let mut third = plan_item(Some(10), vec![2], vec![6]);
    third.start_time = Some(at(9, 50));
    third.end_time = Some(at(10, 35));
    third.online_link = Some("https://meet.example/3".to_string());
    session(snapshot_with(one_day(vec![first, second, third]))).get_timetable(day()).unwrap()
}

#[test]
fn lesson_at_time_counts_both_ends() {
    let timetable = three_lessons();
    assert_eq!(timetable.get_lesson_at_time(at(8, 0)).unwrap().name, "Mathematics");
    assert_eq!(timetable.get_lesson_at_time(at(8, 45)).unwrap().name, "Mathematics");
    assert_eq!(timetable.get_lesson_at_time(at(8, 50)), None);
    assert_eq!(timetable.get_lesson_at_time(at(9, 0)).unwrap().name, "Physics");
    assert_eq!(timetable.get_lesson_at_time(at(7, 59)), None);
    assert_eq!(timetable.get_lesson_at_time(at(10, 36)), None);
    let next_day = DateTime::at(Date::new(2024, 1, 11), 8, 10);
    assert_eq!(timetable.get_lesson_at_time(next_day), None);
}

#[test]
fn next_lesson_starts_strictly_later() {
    let timetable = three_lessons();
    assert_eq!(timetable.get_next_lesson_at_time(at(7, 0)).unwrap().start_of_lesson, at(8, 0));
    assert_eq!(timetable.get_next_lesson_at_time(at(8, 0)).unwrap().start_of_lesson, at(8, 55));
    assert_eq!(timetable.get_next_lesson_at_time(at(9, 50)), None);
    let day_before = DateTime::at(Date::new(2024, 1, 9), 23, 0);
    assert_eq!(
        timetable.get_next_lesson_at_time(day_before).unwrap().start_of_lesson,
        at(8, 0)
    );
    assert_eq!(timetable.find(LessonQuery::After(at(9, 0))).unwrap().start_of_lesson, at(9, 50));
}

#[test]
fn next_online_lesson_skips_lessons_without_link() {
    let timetable = three_lessons();
    assert_eq!(
        timetable.get_next_online_lesson_at_time(at(7, 0)).unwrap().start_of_lesson,
        at(9, 50)
    );
    assert_eq!(timetable.get_next_online_lesson_at_time(at(9, 50)), None);
}

#[test]
fn first_and_last_lesson() {
    let timetable = three_lessons();
    assert_eq!(timetable.get_first_lesson().unwrap().start_of_lesson, at(8, 0));
    assert_eq!(timetable.get_last_lesson().unwrap().start_of_lesson, at(9, 50));
    let none = cdupage::types::timetable::Timetable { lessons: vec![] };
    assert_eq!(none.get_first_lesson(), None);
    assert_eq!(none.get_last_lesson(), None);
    assert_eq!(none.get_lesson_at_time(at(8, 0)), None);
}

#[test]
fn walk_goes_through_the_lessons_once() {
    let timetable = three_lessons();
    let copy = timetable.clone();
    assert_eq!(copy, timetable);
    let mut walk = timetable.into_iter();
    assert_eq!(walk.next(), Some(copy.lessons[0].clone()));
    assert_eq!(walk.next(), Some(copy.lessons[1].clone()));
    assert_eq!(walk.next(), Some(copy.lessons[2].clone()));
    assert_eq!(walk.next(), None);
    assert_eq!(walk.next(), None);
}

#[test]
fn weekend_has_no_next_boundary() {
    let times = snapshot().ringing_times;
    for today in [Weekday::Saturday, Weekday::Sunday] {
        for time in [at(0, 0), at(7, 0), at(8, 30), at(8, 50), at(23, 59)] {
            assert_eq!(next_lesson_time_on(today, &times, time), None);
        }
    }
}

#[test]
fn next_boundary_on_a_school_day() {
    let times = snapshot().ringing_times;
    let today = Weekday::Wednesday;
    assert_eq!(
        next_lesson_time_on(today, &times, at(7, 0)),
        Some((at(8, 0), NextDayPart::LESSON))
    );
    assert_eq!(
        next_lesson_time_on(today, &times, at(8, 0)),
        Some((at(8, 45), NextDayPart::BREAK))
    );
    assert_eq!(
        next_lesson_time_on(today, &times, at(8, 30)),
        Some((at(8, 45), NextDayPart::BREAK))
    );
    assert_eq!(
        next_lesson_time_on(today, &times, at(8, 45)),
        Some((at(8, 55), NextDayPart::LESSON))
    );
    assert_eq!(
        next_lesson_time_on(today, &times, at(9, 39)),
        Some((at(9, 40), NextDayPart::BREAK))
    );
    assert_eq!(next_lesson_time_on(today, &times, at(9, 40)), None);
    assert_eq!(next_lesson_time_on(Weekday::Monday, &vec![], at(8, 0)), None);
    assert_eq!(next_lesson_time_on(Weekday::Friday, &times, at(9, 40)), None);
}

#[test]
fn session_hands_out_its_bell_schedule() {
    let edupage = session(snapshot());
    assert_eq!(edupage.get_ringing_times(), snapshot().ringing_times);
    let answer = edupage.get_next_lesson_time(at(8, 30));
    assert!(answer == None || answer == Some((at(8, 45), NextDayPart::BREAK)));
    assert_eq!(edupage.get_next_lesson_time(at(23, 0)), None);
}

#[test]
fn cloud_file_address_is_made_of_the_subdomain() {
    let file = cdupage::types::cloud::CloudFile {
        cloud_id: "c1".to_string(),
        extension: "pdf".to_string(),
        file_type: "document".to_string(),
        file: "/elearn/cloud/c1.pdf".to_string(),
        name: "notes".to_string(),
    };
    assert_eq!(
        file.get_url(&session(snapshot())),
        Ok("https://school.edupage.org/elearn/cloud/c1.pdf".to_string())
    );
}

#[test]
fn substitution_request_carries_the_day_and_the_token() {
    let edupage = session(snapshot());
    let expected = Request {
        url: "https://school.edupage.org/substitution/server/viewer.js?__func=getSubstViewerDayDataHtml"
            .to_string(),
        request_type: RequestType::POST,
        headers: vec![("Content-Type".to_string(), "application/json".to_string())],
        post_data: Some(
            "{\"__args\":[null,{\"date\":\"2024-01-10\",\"mode\":\"classes\"}],\"__gsh\":\"deadbeef\"}"
                .to_string(),
        ),
    };
    assert_eq!(edupage.substitution_request(day(), "school"), Ok(expected));
    assert_eq!(
        edupage.substitution_request(Date::new(2024, 2, 31), "school"),
        Err(EdupageError::Other("No such day".to_string()))
    );
    assert_eq!(
        Edupage::new().substitution_request(day(), "school"),
        Err(EdupageError::NotLoggedIn)
    );
    assert_eq!(
        Edupage::new().substitution_request_on("2024-01-10", "school"),
        Err(EdupageError::NotLoggedIn)
    );
}

#[test]
fn upload_goes_to_the_timeline_of_the_subdomain() {
    assert_eq!(
        session(snapshot()).upload_url(),
        Ok("https://school.edupage.org/timeline/?akcia=uploadAtt".to_string())
    );
    assert_eq!(Edupage::new().upload_url(), Err(EdupageError::NotLoggedIn));
}

#[test]
fn sign_in_to_an_online_lesson() {
    let edupage = session(snapshot());
    assert_eq!(
        edupage.dashboard_request(),
        Ok(Request {
            url: "https://school.edupage.org/dashboard/eb.php".to_string(),
            request_type: RequestType::GET,
            headers: vec![],
            post_data: None,
        })
    );
    assert_eq!(Edupage::new().dashboard_request(), Err(EdupageError::NotLoggedIn));
    assert_eq!(
        extract_dashboard_token("var x; ASC.gsechash=\"cafe01\"; y=\"z\""),
        "var x; ASC.gsechash=\"cafe01\"; y=\"z\""
            .split("gsechash=")
            .nth(1)
            .and_then(|s| s.split("\"").nth(1))
            .map(|s| s.to_string())
    );
    assert_eq!(extract_dashboard_token("gsechash=\"cafe01\""), Some("cafe01".to_string()));
    assert_eq!(extract_dashboard_token("gsechash=cafe01"), None);
    assert_eq!(extract_dashboard_token("no token"), None);

    let timetable = three_lessons();
    let online = &timetable.lessons[2];
    let today = "2024-01-10";
    let link = "https://meet.example/3";
    let expected_body = format!(
        "{{[\
            null,\
            {{\
                \"click\": true,
                \"date\": \"{}\",
                \"ol_url\": \"{}\",
                \"subjectid\": \"{}\",
            }}
            ], \"__gsh\": \"{}\"}}",
        today, link, 10, "cafe01"
    );
    assert_eq!(
        online.sign_in_request(&edupage, today, "cafe01"),
        Ok(Request {
            url: "https://school.edupage.org/dashboard/server/onlinelesson.js?__func=getOnlineLessonOpenUrl"
                .to_string(),
            request_type: RequestType::POST,
            headers: vec![("Content-Type".to_string(), "application/json".to_string())],
            post_data: Some(expected_body),
        })
    );
    assert_eq!(
        timetable.lessons[0].sign_in_request(&edupage, today, "cafe01"),
        Err(EdupageError::MissingData)
    );
    assert_eq!(
        online.sign_in_request(&Edupage::new(), today, "cafe01"),
        Err(EdupageError::NotLoggedIn)
    );
}

#[test]
fn timeline_is_chosen_by_kind() {
    let edupage = session(snapshot());
    let homework = edupage.filter_timeline_by_item_type(TimelineItemType::Homework).unwrap();
    assert_eq!(
        homework,
        vec![
            timeline_item(1, TimelineItemType::Homework),
            timeline_item(3, TimelineItemType::Homework)
        ]
    );
    let several = edupage
        .filter_timeline_by_item_types(vec![TimelineItemType::Grade, TimelineItemType::Message])
        .unwrap();
    assert_eq!(
        several,
        vec![timeline_item(2, TimelineItemType::Message), timeline_item(4, TimelineItemType::Grade)]
    );
    assert_eq!(edupage.filter_timeline_by_item_types(vec![]), Ok(vec![]));
    assert_eq!(edupage.filter_timeline_by_item_type(TimelineItemType::Unknown), Ok(vec![]));
}
