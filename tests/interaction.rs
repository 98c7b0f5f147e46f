use chrono::Datelike;
use course_bot::codec::{encode_control, Control, PageAction};
use course_bot::controls::{create_buttons, create_courses_select_menu};
use course_bot::dates::Date;
use course_bot::dispatch::{
    check_interaction_caller, controls_expired, decide_click, list_kind_of, ClickDecision,
    ControlEvent, ControlKind, ListKind,
};
use course_bot::messages::{
    assessment_removed_message, course_removed_message, date_format_problems, inserted_message,
};
use course_bot::records::{Assessment, Course, Decimal};
use course_bot::views::{
    assessments_click_view_on, courses_click_view, list_assessments_view_on, list_courses_view,
};

fn day(y: i32, m: u32, d: u32) -> Date {
    Date { days: chrono::NaiveDate::from_ymd_opt(y, m, d).unwrap().num_days_from_ce() }
}

fn course(id: i64, name: &str) -> Course {
    Course {
        id,
        name: name.to_string(),
        code: "CS301".to_string(),
        semester: 1,
        year: 2024,
        credit: Decimal { thousandths: 4000 },
    }
}

fn courses(n: i64) -> Vec<Course> {
    (1..=n).map(|i| course(i, &format!("Course {}", i))).collect()
}

fn assessments(n: i64) -> Vec<Assessment> {
    (1..=n)
        .map(|i| Assessment {
            id: i,
            name: format!("Exam {}", i),
            weight: Decimal { thousandths: 10000 },
            take1: "2024-01-05".to_string(),
            retake1: "2024-01-12".to_string(),
            retake2: "2024-03-01".to_string(),
            fk_course_id: 1,
        })
        .collect()
}

fn click(kind: ControlKind, value: &str, actor: u64, selection: Option<&str>) -> ControlEvent {
    ControlEvent {
        kind,
        value: value.to_string(),
        actor,
        invoker: 7,
        selection_id: selection.map(|s| s.to_string()),
        rendered_at_ms: 1_000,
        clicked_at_ms: 5_000,
    }
}

#[test]
fn buttons_disable_at_the_ends() {
    let (p, n, r) = create_buttons(1, 2);
    assert!(p.disabled && !n.disabled && !r.disabled);
    assert_eq!(p.custom_id, "previous_page;1");
    assert_eq!(n.custom_id, "next_page;1");
    assert_eq!(r.custom_id, "refresh_page;1");
    assert_eq!((p.label.as_str(), n.label.as_str(), r.label.as_str()), ("Previous", "Next", "\u{21bb}"));
    let (p, n, _) = create_buttons(2, 2);
    assert!(!p.disabled && !n.disabled);
    let (p, n, _) = create_buttons(3, 2);
    assert!(!p.disabled && n.disabled);
    let (p, n, _) = create_buttons(1, 0);
    assert!(p.disabled && n.disabled);
}

#[test]
fn a_single_page_has_no_controls() {
    let five = courses(5);
    let view = list_courses_view(&five, None);
    assert!(view.buttons.is_empty());
    assert!(view.menu.is_none());
    assert!(courses_click_view(&five, 1).buttons.is_empty());
    let six = courses(6);
    let view = list_courses_view(&six, None);
    assert_eq!(view.buttons.len(), 2);
    assert!(view.buttons[0].disabled && !view.buttons[1].disabled);
    let clicked = courses_click_view(&six, 2);
    assert_eq!(clicked.buttons.len(), 3);
    assert!(!clicked.buttons[0].disabled && clicked.buttons[1].disabled);
}

#[test]
fn list_command_rejects_missing_pages() {
    let six = courses(6);
    assert_eq!(list_courses_view(&six, Some(3)).content, "Page 3 does not exist");
    assert_eq!(list_courses_view(&six, Some(0)).content, "Page 0 does not exist");
    assert!(list_courses_view(&six, Some(2)).content.starts_with("# Courses list (Page 2/2)"));
    let today = day(2024, 1, 10);
    let view = list_assessments_view_on(&six, &assessments(3), 1, Some(2), today);
    assert_eq!(view.content, "Page 2 does not exist");
    assert!(view.menu.is_none());
}

#[test]
fn refresh_reproduces_the_page() {
    let data = courses(12);
    let shown = list_courses_view(&data, Some(2));
    let decision = decide_click(
        ListKind::Courses,
        &click(ControlKind::Button, &encode_control(Control::Page(PageAction::Refresh, 2)), 7, None),
    );
    assert_eq!(decision, ClickDecision::ShowCourses(2));
    let first = courses_click_view(&data, 2);
    let second = courses_click_view(&data, 2);
    assert_eq!(first.content, shown.content);
    assert_eq!(first.content, second.content);
}

#[test]
fn stale_pages_fall_back_to_the_first() {
    let today = day(2024, 1, 10);
    let cs = vec![course(1, "Algorithms")];
    let decision = decide_click(
        ListKind::Assessments,
        &click(ControlKind::Button, "next_page;3", 7, Some("select_course;1")),
    );
    assert_eq!(decision, ClickDecision::ShowAssessments(1, 4));
    let remaining = assessments(5);
    let view = assessments_click_view_on(&cs, &remaining, 1, 4, today);
    let first = list_assessments_view_on(&cs, &remaining, 1, None, today);
    assert_eq!(view.content, first.content);
    assert!(view.content.starts_with("# Algorithms\n"));
    let many = assessments(20);
    let page1 = assessments_click_view_on(&cs, &many, 1, 4, today);
    assert!(page1.content.starts_with("# Assessments list (Page 1/3)\n"));
    assert!(page1.buttons[0].disabled);
    let courses_view = courses_click_view(&courses(6), 9);
    assert!(courses_view.content.starts_with("# Courses list (Page 1/2)\n"));
}

#[test]
fn foreign_clicks_are_rejected() {
    for list in [ListKind::Courses, ListKind::Assessments] {
        let e = click(ControlKind::Button, "next_page;1", 8, Some("select_course;1"));
        assert_eq!(decide_click(list, &e), ClickDecision::Reject);
        let e = click(ControlKind::SelectMenu, "1", 9, None);
        assert_eq!(decide_click(list, &e), ClickDecision::Reject);
    }
    assert!(check_interaction_caller(7, 7));
    assert!(!check_interaction_caller(7, 8));
}

#[test]
fn undecodable_clicks_are_ignored() {
    let e = click(ControlKind::Button, "garbage", 7, None);
    assert_eq!(decide_click(ListKind::Courses, &e), ClickDecision::Ignore);
    let e = click(ControlKind::SelectMenu, "1", 7, None);
    assert_eq!(decide_click(ListKind::Courses, &e), ClickDecision::Ignore);
    let e = click(ControlKind::Button, "next_page;1", 7, None);
    assert_eq!(decide_click(ListKind::Assessments, &e), ClickDecision::Ignore);
    let e = click(ControlKind::Button, "next_page;1", 7, Some("select_course;x"));
    assert_eq!(decide_click(ListKind::Assessments, &e), ClickDecision::Ignore);
    let e = click(ControlKind::SelectMenu, "abc", 7, None);
    assert_eq!(decide_click(ListKind::Assessments, &e), ClickDecision::Ignore);
    let e = click(ControlKind::SelectMenu, "12", 7, None);
    assert_eq!(decide_click(ListKind::Assessments, &e), ClickDecision::ShowAssessments(12, 1));
    let e = click(ControlKind::Button, "previous_page;2", 7, None);
    assert_eq!(decide_click(ListKind::Courses, &e), ClickDecision::ShowCourses(1));
}

#[test]
fn controls_expire_after_inactivity() {
    assert!(!controls_expired(0, 20_000));
    assert!(controls_expired(0, 20_001));
    assert!(!controls_expired(5_000, 1_000));
    assert!(controls_expired(i64::MIN, i64::MAX));
    let mut e = click(ControlKind::Button, "next_page;1", 7, None);
    e.clicked_at_ms = 60_000;
    assert_eq!(decide_click(ListKind::Courses, &e), ClickDecision::Expire);
}

#[test]
fn list_commands_are_routed_by_name() {
    assert_eq!(list_kind_of("list_courses"), Some(ListKind::Courses));
    assert_eq!(list_kind_of("list_assessments"), Some(ListKind::Assessments));
    assert_eq!(list_kind_of("insert_course"), None);
    assert_eq!(list_kind_of(""), None);
}

#[test]
fn course_selector_falls_back_when_the_course_is_gone() {
    let cs = vec![course(1, "Algorithms"), course(2, "Databases")];
    let menu = create_courses_select_menu(&cs, 2).unwrap();
    assert_eq!(menu.custom_id, "select_course;2");
    assert_eq!(menu.placeholder, "Databases");
    assert_eq!(menu.options.len(), 2);
    assert_eq!((menu.options[0].label.as_str(), menu.options[0].value.as_str()), ("Algorithms", "1"));
    let missing = create_courses_select_menu(&cs, 5).unwrap_err();
    assert_eq!(missing.placeholder, "No course selected");
    let today = day(2024, 1, 10);
    let view = assessments_click_view_on(&cs, &assessments(2), 5, 1, today);
    assert_eq!(
        view.content,
        "Error creating select menu: Course not found. Please select a course from the list below."
    );
    assert_eq!(view.menu.unwrap().placeholder, "No course selected");
}

#[test]
fn insert_then_remove_a_course() {
    assert_eq!(inserted_message(1), "Inserted 1 rows");
    let stored = vec![Course {
        id: 1,
        name: "Algorithms".to_string(),
        code: "CS301".to_string(),
        semester: 1,
        year: 2024,
        credit: Decimal { thousandths: 4000 },
    }];
    let view = list_courses_view(&stored, None);
    assert!(view.content.starts_with("# Courses list\n"));
    for cell in ["Algorithms", "CS301", "2024"] {
        assert!(view.content.contains(cell), "{}", cell);
    }
    assert_eq!(course_removed_message(1, &Some(stored[0].clone())), "Deleted course: Algorithms, ID: 1");
    let empty: Vec<Course> = Vec::new();
    let after = list_courses_view(&empty, None);
    assert!(!after.content.contains("Algorithms"));
    assert_eq!(courses_click_view(&empty, 1).content, "No courses found");
    assert_eq!(course_removed_message(1, &None), "Course not found with id: 1");
}

#[test]
fn removal_messages_name_the_assessment() {
    let a = assessments(1).remove(0);
    assert_eq!(assessment_removed_message(1, &Some(a)), "Deleted assessment: Exam 1, ID: 1");
    assert_eq!(assessment_removed_message(-4, &None), "Assessment not found with id: -4");
}

#[test]
fn bad_dates_are_reported_in_field_order() {
    assert!(date_format_problems("2024-01-05", "2024-02-01", "2024-03-01").is_empty());
    assert_eq!(
        date_format_problems("soon", "2024-02-01", "2024-13-01"),
        vec![
            "Invalid date format of take1: soon".to_string(),
            "Invalid date format of retake2: 2024-13-01".to_string(),
        ]
    );
}
