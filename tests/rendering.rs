use chrono::Datelike;
use course_bot::dates::{add_date_color, classify_date, Date, DateClass};
use course_bot::pagination::{calculate_range, page_count, ASSESSMENTS_PER_PAGE, COURSES_PER_PAGE};
use course_bot::records::{Assessment, Course, Decimal};
use course_bot::tables::{
    build_assessments_table_on, build_courses_table, format_assessment_response_on,
    format_course_response,
};

fn day(y: i32, m: u32, d: u32) -> Date {
    Date { days: chrono::NaiveDate::from_ymd_opt(y, m, d).unwrap().num_days_from_ce() }
}

fn course(id: i64, name: &str) -> Course {
    Course {
        id,
        name: name.to_string(),
        code: format!("C{}", id),
        semester: 1,
        year: 2024,
        credit: Decimal { thousandths: 4000 },
    }
}

fn assessment(id: i64, take1: &str) -> Assessment {
    Assessment {
        id,
        name: format!("Exam {}", id),
        weight: Decimal { thousandths: 25500 },
        take1: take1.to_string(),
        retake1: "tbd".to_string(),
        retake2: "2024-03-01".to_string(),
        fk_course_id: 1,
    }
}

#[test]
fn slices_stay_within_the_records() {
    assert_eq!(calculate_range(1, 5, 12), 0..5);
    assert_eq!(calculate_range(2, 5, 12), 5..10);
    assert_eq!(calculate_range(3, 5, 12), 10..12);
    assert_eq!(calculate_range(1, 5, 0), 0..0);
    assert_eq!(calculate_range(2, 5, 5), 5..5);
    assert_eq!(calculate_range(1, 9, 3), 0..3);
    for total in 0..30usize {
        for per_page in 1..7usize {
            for page in 1..=page_count(total, per_page) {
                let r = calculate_range(page, per_page, total);
                assert!(r.start <= r.end && r.end <= total);
            }
        }
    }
}

#[test]
fn last_page_counts_an_extra_page_on_exact_multiples() {
    assert_eq!(page_count(0, COURSES_PER_PAGE), 1);
    assert_eq!(page_count(5, COURSES_PER_PAGE), 2);
    assert_eq!(page_count(6, COURSES_PER_PAGE), 2);
    assert_eq!(page_count(10, COURSES_PER_PAGE), 3);
    assert_eq!(page_count(20, ASSESSMENTS_PER_PAGE), 3);
}

#[test]
fn decimals_print_shortest() {
    assert_eq!(Decimal { thousandths: 4000 }.to_text(), "4");
    assert_eq!(Decimal { thousandths: 3500 }.to_text(), "3.5");
    assert_eq!(Decimal { thousandths: 50 }.to_text(), "0.05");
    assert_eq!(Decimal { thousandths: 125 }.to_text(), "0.125");
    assert_eq!(Decimal { thousandths: 0 }.to_text(), "0");
    assert_eq!(Decimal { thousandths: -2250 }.to_text(), "-2.25");
    assert_eq!(Decimal { thousandths: 999000 }.to_text(), "999");
}

#[test]
fn dates_are_classified_by_proximity() {
    let today = day(2024, 1, 10);
    assert_eq!(classify_date(day(2024, 1, 5), today), DateClass::Overdue);
    assert_eq!(classify_date(day(2024, 1, 10), today), DateClass::DueThisWeek);
    assert_eq!(classify_date(day(2024, 1, 12), today), DateClass::DueThisWeek);
    assert_eq!(classify_date(day(2024, 1, 17), today), DateClass::DueThisWeek);
    assert_eq!(classify_date(day(2024, 1, 18), today), DateClass::DueInTwoWeeks);
    assert_eq!(classify_date(day(2024, 1, 20), today), DateClass::DueInTwoWeeks);
    assert_eq!(classify_date(day(2024, 1, 24), today), DateClass::DueInTwoWeeks);
    assert_eq!(classify_date(day(2024, 1, 25), today), DateClass::Distant);
    assert_eq!(classify_date(day(2024, 3, 1), today), DateClass::Distant);
}

#[test]
fn date_cells_carry_their_marker() {
    let today = day(2024, 1, 10);
    assert_eq!(add_date_color("2024-01-05", today), "\u{1b}[30m2024-01-05\u{1b}[0m");
    assert_eq!(add_date_color("2024-01-12", today), "\u{1b}[31m2024-01-12\u{1b}[0m");
    assert_eq!(add_date_color("2024-01-20", today), "\u{1b}[33m2024-01-20\u{1b}[0m");
    assert_eq!(add_date_color("2024-03-01", today), "\u{1b}[32m2024-03-01\u{1b}[0m");
    assert_eq!(add_date_color("not a date", today), "not a date");
    assert_eq!(add_date_color("2024-02-30", today), "2024-02-30");
    assert_eq!(add_date_color("", today), "");
}

#[test]
fn course_table_lists_each_course() {
    let courses = vec![course(1, "Algorithms"), course(2, "Databases")];
    let table = build_courses_table(&courses);
    assert!(table.starts_with("```ansi\n"));
    assert!(table.ends_with("```"));
    for word in ["ID", "Name", "Code", "Semester", "Year", "Credit", "Algorithms", "Databases", "C1", "C2", "2024"] {
        assert!(table.contains(word), "{}", word);
    }
    assert_eq!(table, build_courses_table(&courses));
}

#[test]
fn assessment_table_marks_dates() {
    let today = day(2024, 1, 10);
    let items = vec![assessment(1, "2024-01-05")];
    let table = build_assessments_table_on(&items, today);
    assert!(table.contains("Exam 1"));
    assert!(table.contains("25.5"));
    assert!(table.contains("tbd"));
    assert!(table.contains("\u{1b}[30m2024-01-05\u{1b}[0m"));
    assert!(table.contains("\u{1b}[32m2024-03-01\u{1b}[0m"));
    assert_eq!(table, build_assessments_table_on(&items, today));
}

#[test]
fn course_pages_carry_headings() {
    let few: Vec<Course> = (1..=5).map(|i| course(i, &format!("Course {}", i))).collect();
    let text = format_course_response(&few, 1).unwrap();
    assert!(text.starts_with("# Courses list\n```ansi\n"));
    let many: Vec<Course> = (1..=12).map(|i| course(i, &format!("Course {}", i))).collect();
    let page3 = format_course_response(&many, 3).unwrap();
    assert!(page3.starts_with("# Courses list (Page 3/3)\n"));
    assert!(page3.contains("Course 11") && page3.contains("Course 12"));
    assert!(!page3.contains("Course 10"));
}

#[test]
fn assessment_pages_carry_headings() {
    let today = day(2024, 1, 10);
    let few: Vec<Assessment> = (1..=3).map(|i| assessment(i, "2024-01-05")).collect();
    let text = format_assessment_response_on(&few, 1, &"Algorithms".to_string(), today).unwrap();
    assert!(text.starts_with("# Algorithms\n```ansi\n"));
    let many: Vec<Assessment> = (1..=20).map(|i| assessment(i, "2024-01-05")).collect();
    let page2 = format_assessment_response_on(&many, 2, &"Algorithms".to_string(), today).unwrap();
    assert!(page2.starts_with("# Assessments list (Page 2/3)\n"));
    assert!(page2.contains("Exam 10") && page2.contains("Exam 18"));
    assert!(!page2.contains("Exam 19"));
}
