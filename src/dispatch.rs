use vstd::prelude::*;
use crate::codec::{
    button_page_spec, parse_button_page, parse_select_menu_course_id, select_course_spec,
};
use crate::text::{i64_from_text, parse_i64};

verus! {

/// The list command that produced a message, which decides how its controls are
/// answered.
#[derive(Clone, Copy, Debug, PartialEq, Eq, Structural)]
pub enum ListKind {
    Courses,
    Assessments,
}

/// The kind of control that was activated.
#[derive(Clone, Copy, Debug, PartialEq, Eq, Structural)]
pub enum ControlKind {
    Button,
    SelectMenu,
}

/// A control activation, as the platform adapter hands it over.
#[derive(Clone, Debug)]
pub struct ControlEvent {
    pub kind: ControlKind,
    /// The identifier of a clicked button, or the value picked in a selection menu.
    pub value: String,
    /// The user who activated the control.
    pub actor: u64,
    /// The user who ran the command that produced the message.
    pub invoker: u64,
    /// The identifier of the message's course selector, if it has one.
    pub selection_id: Option<String>,
    /// When the message was last rendered, in milliseconds.
    pub rendered_at_ms: i64,
    /// When the control was activated, in milliseconds.
    pub clicked_at_ms: i64,
}

/// How to answer a control activation.
#[derive(Clone, Copy, Debug, PartialEq, Eq, Structural)]
pub enum ClickDecision {
    /// Someone other than the invoker clicked: tell them privately, leave the message.
    Reject,
    /// The controls outlived their inactivity window: make them inert.
    Expire,
    /// The control's state could not be decoded: change nothing.
    Ignore,
    /// Show this page of the course list.
    ShowCourses(usize),
    /// Show this page of the assessments of this course.
    ShowAssessments(i64, usize),
}

/// How long controls stay live after the message was last rendered.
pub const CONTROL_LIFETIME_MS: i64 = 20000;

/// The list that a command name produced.
pub open spec fn list_kind_spec(command: Seq<char>) -> Option<ListKind> {
    if command == "list_courses"@ {
        Some(ListKind::Courses)
    } else if command == "list_assessments"@ {
        Some(ListKind::Assessments)
    } else {
        None
    }
}

pub open spec fn expired_spec(rendered_at_ms: int, clicked_at_ms: int) -> bool {
    clicked_at_ms - rendered_at_ms > CONTROL_LIFETIME_MS
}

/// The answer to a control activation on a message of list `list`: authorize,
/// then check expiry, then decode the control state.
pub open spec fn click_decision(list: ListKind, e: ControlEvent) -> ClickDecision {
    if e.actor != e.invoker {
        ClickDecision::Reject
    } else if expired_spec(e.rendered_at_ms as int, e.clicked_at_ms as int) {
        ClickDecision::Expire
    } else {
        match list {
            ListKind::Courses => match e.kind {
                ControlKind::Button => match button_page_spec(e.value@) {
                    Ok(p) => ClickDecision::ShowCourses(p),
                    Err(_) => ClickDecision::Ignore,
                },
                ControlKind::SelectMenu => ClickDecision::Ignore,
            },
            ListKind::Assessments => match e.kind {
                ControlKind::Button => match (button_page_spec(e.value@), e.selection_id) {
                    (Ok(p), Some(sel)) => match select_course_spec(sel@) {
                        Ok(id) => ClickDecision::ShowAssessments(id, p),
                        Err(_) => ClickDecision::Ignore,
                    },
                    _ => ClickDecision::Ignore,
                },
                ControlKind::SelectMenu => match i64_from_text(e.value@) {
                    Some(id) => ClickDecision::ShowAssessments(id, 1),
                    None => ClickDecision::Ignore,
                },
            },
        }
    }
}

/// The list that a command name produced, if it is a list command.
pub fn list_kind_of(command: &str) -> (r: Option<ListKind>)
    ensures
        r == list_kind_spec(command@),
{
    let name = command.to_owned();
    if name == "list_courses".to_owned() {
        Some(ListKind::Courses)
    } else if name == "list_assessments".to_owned() {
        Some(ListKind::Assessments)
    } else {
        None
    }
}

/// Whether the user who clicked is the one who ran the command.
pub fn check_interaction_caller(invoker: u64, caller: u64) -> (r: bool)
    ensures
        r == (invoker == caller),
{
    invoker == caller
}

/// Whether controls rendered at `rendered_at_ms` are past their inactivity window
/// at `clicked_at_ms`.
pub fn controls_expired(rendered_at_ms: i64, clicked_at_ms: i64) -> (r: bool)
    ensures
        r == expired_spec(rendered_at_ms as int, clicked_at_ms as int),
{
    (clicked_at_ms as i128) - (rendered_at_ms as i128) > CONTROL_LIFETIME_MS as i128
}

/// Decides how to answer a control activation on a message of list `list`.
pub fn decide_click(list: ListKind, event: &ControlEvent) -> (r: ClickDecision)
    ensures
        r == click_decision(list, *event),
{
    if !check_interaction_caller(event.invoker, event.actor) {
        return ClickDecision::Reject;
    }
    if controls_expired(event.rendered_at_ms, event.clicked_at_ms) {
        return ClickDecision::Expire;
    }
    match list {
        ListKind::Courses => match event.kind {
            ControlKind::Button => match parse_button_page(event.value.as_str()) {
                Ok(p) => ClickDecision::ShowCourses(p),
                Err(_) => ClickDecision::Ignore,
            },
            ControlKind::SelectMenu => ClickDecision::Ignore,
        },
        ListKind::Assessments => match event.kind {
            ControlKind::Button => {
                let page = parse_button_page(event.value.as_str());
                match (page, &event.selection_id) {
                    (Ok(p), Some(sel)) => match parse_select_menu_course_id(sel.as_str()) {
                        Ok(id) => ClickDecision::ShowAssessments(id, p),
                        Err(_) => ClickDecision::Ignore,
                    },
                    _ => ClickDecision::Ignore,
                }
            },
            ControlKind::SelectMenu => match parse_i64(event.value.as_str()) {
                Some(id) => ClickDecision::ShowAssessments(id, 1),
                None => ClickDecision::Ignore,
            },
        },
    }
}

/// A click by anyone but the invoker is always rejected, whatever the control and
/// its state: the message is never edited for it.
pub proof fn lemma_foreign_click_rejected(list: ListKind, e: ControlEvent)
    requires
        e.actor != e.invoker,
    ensures
        click_decision(list, e) == ClickDecision::Reject,
{
}

} // verus!
