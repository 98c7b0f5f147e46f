use course_bot::codec::{
    decode_control, encode_control, parse_button_page, parse_select_menu_course_id, Control,
    DecodeError, PageAction,
};
use course_bot::text::{int_to_text, parse_i64, parse_usize};

#[test]
fn encodes_navigation_controls() {
    assert_eq!(encode_control(Control::Page(PageAction::Previous, 3)), "previous_page;3");
    assert_eq!(encode_control(Control::Page(PageAction::Next, 1)), "next_page;1");
    assert_eq!(encode_control(Control::Page(PageAction::Refresh, 120)), "refresh_page;120");
    assert_eq!(encode_control(Control::SelectCourse(-7)), "select_course;-7");
    assert_eq!(encode_control(Control::SelectCourse(42)), "select_course;42");
}

#[test]
fn decode_inverts_encode() {
    let controls = vec![
        Control::Page(PageAction::Previous, 1),
        Control::Page(PageAction::Next, 3),
        Control::Page(PageAction::Refresh, usize::MAX),
        Control::SelectCourse(0),
        Control::SelectCourse(i64::MIN),
        Control::SelectCourse(i64::MAX),
    ];
    for c in controls {
        let text = encode_control(c);
        assert_eq!(decode_control(&text), Ok(c));
    }
}

#[test]
fn foreign_identifiers_fail_to_decode() {
    assert_eq!(decode_control(""), Err(DecodeError::UnrecognizedAction));
    assert_eq!(decode_control("hello world"), Err(DecodeError::UnrecognizedAction));
    assert_eq!(decode_control("next;3"), Err(DecodeError::UnrecognizedAction));
    assert_eq!(decode_control("Next_page;3"), Err(DecodeError::UnrecognizedAction));
    assert_eq!(decode_control(";3"), Err(DecodeError::UnrecognizedAction));
    assert_eq!(decode_control("next_page"), Err(DecodeError::MalformedContext));
    assert_eq!(decode_control("next_page;"), Err(DecodeError::MalformedContext));
    assert_eq!(decode_control("next_page;abc"), Err(DecodeError::MalformedContext));
    assert_eq!(decode_control("next_page;0"), Err(DecodeError::MalformedContext));
    assert_eq!(decode_control("next_page;-1"), Err(DecodeError::MalformedContext));
    assert_eq!(decode_control("next_page;1;2"), Err(DecodeError::MalformedContext));
    assert_eq!(decode_control("select_course;x"), Err(DecodeError::MalformedContext));
    assert_eq!(
        decode_control("select_course;9223372036854775808"),
        Err(DecodeError::MalformedContext)
    );
    assert_eq!(decode_control("é;ü"), Err(DecodeError::UnrecognizedAction));
}

#[test]
fn button_pages_follow_their_action() {
    assert_eq!(parse_button_page("previous_page;3"), Ok(2));
    assert_eq!(parse_button_page("next_page;3"), Ok(4));
    assert_eq!(parse_button_page("refresh_page;3"), Ok(3));
    assert_eq!(parse_button_page("previous_page;1"), Ok(1));
    assert_eq!(parse_button_page("next_page;+2"), Ok(3));
    assert_eq!(
        parse_button_page(&format!("next_page;{}", usize::MAX)),
        Err(DecodeError::MalformedContext)
    );
    assert_eq!(parse_button_page("select_course;3"), Err(DecodeError::UnrecognizedAction));
    assert_eq!(parse_button_page("nope"), Err(DecodeError::UnrecognizedAction));
}

#[test]
fn course_selector_ids_decode() {
    assert_eq!(parse_select_menu_course_id("select_course;12"), Ok(12));
    assert_eq!(parse_select_menu_course_id("select_course;-3"), Ok(-3));
    assert_eq!(parse_select_menu_course_id("next_page;12"), Err(DecodeError::UnrecognizedAction));
    assert_eq!(parse_select_menu_course_id("select_course"), Err(DecodeError::MalformedContext));
}

#[test]
fn integer_text_matches_std() {
    for n in [0i64, 7, -7, 10, 1234567, -98765, i64::MAX, i64::MIN] {
        assert_eq!(int_to_text(n), n.to_string());
    }
    for s in ["0", "12", "+12", "", "+", "-1", "1a", "007", "18446744073709551615", "18446744073709551616"] {
        assert_eq!(parse_usize(s), s.parse::<usize>().ok(), "{}", s);
    }
    for s in ["0", "-0", "+5", "-5", "-", "--5", "-+5", "9223372036854775807", "9223372036854775808",
        "-9223372036854775808", "-9223372036854775809", " 1"] {
        assert_eq!(parse_i64(s), s.parse::<i64>().ok(), "{}", s);
    }
}
