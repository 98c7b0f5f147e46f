use vstd::prelude::*;
use crate::codec::{button_page_spec, control_text, lemma_decode_encode, Control, DecodeError, PageAction};
use crate::controls::{
    course_index, course_menu, course_name, course_name_for, create_buttons,
    create_courses_select_menu, nav_buttons, Button, ButtonModel, SelectMenu, SelectMenuModel,
};
use crate::dates::{today_utc, Date};
use crate::pagination::{page_in_range, ASSESSMENTS_PER_PAGE, COURSES_PER_PAGE};
use crate::records::{Assessment, Course};
use crate::tables::{
    assessments_page_text, courses_page_text, format_assessment_response_on, format_course_response,
};
use crate::text::{nat_text, push_nat};

verus! {

/// What a message shows: its text, a row of navigation buttons (possibly empty)
/// and, for assessment lists, a course selector.
#[derive(Clone, Debug)]
pub struct PageView {
    pub content: String,
    pub buttons: Vec<Button>,
    pub menu: Option<SelectMenu>,
}

pub struct PageModel {
    pub content: Seq<char>,
    pub buttons: Seq<ButtonModel>,
    pub menu: Option<SelectMenuModel>,
}

impl View for PageView {
    type V = PageModel;

    open spec fn view(&self) -> PageModel {
        PageModel {
            content: self.content@,
            buttons: self.buttons@.map_values(|b: Button| b@),
            menu: match self.menu {
                Some(m) => Some(m@),
                None => None,
            },
        }
    }
}

/// A message with text only.
pub open spec fn message_only(text: Seq<char>) -> PageModel {
    PageModel { content: text, buttons: Seq::empty(), menu: None }
}

/// The page that a click shows: the requested one while it exists, else page 1.
pub open spec fn normalized_page(requested: usize, total: int, per_page: int) -> usize {
    if page_in_range(requested as int, total, per_page) {
        requested
    } else {
        1
    }
}

/// The reply to a list command that asks for a page that does not exist.
pub open spec fn page_missing_text(page: usize) -> Seq<char> {
    "Page "@ + nat_text(page as nat) + " does not exist"@
}

/// The text that replaces an assessment list whose course no longer exists.
pub open spec fn missing_course_text() -> Seq<char> {
    "Error creating select menu: Course not found. Please select a course from the list below."@
}

/// The text of a course list clicked on after every course was removed.
pub open spec fn no_courses_text() -> Seq<char> {
    "No courses found"@
}

/// Page `page` of the course list; buttons only when the list spans more than one
/// page, refresh among them when `with_refresh`.
pub open spec fn courses_view_model(cs: Seq<Course>, page: usize, with_refresh: bool) -> PageModel {
    let b = nav_buttons(page, (cs.len() as int / COURSES_PER_PAGE as int) as usize);
    PageModel {
        content: courses_page_text(cs, page as int),
        buttons: if cs.len() <= COURSES_PER_PAGE {
            Seq::empty()
        } else if with_refresh {
            seq![b.0, b.1, b.2]
        } else {
            seq![b.0, b.1]
        },
        menu: None,
    }
}

/// The reply to the course list command for `page` (page 1 when none is given).
pub open spec fn courses_list_model(cs: Seq<Course>, page: Option<usize>) -> PageModel {
    let p = match page {
        Some(p) => p,
        None => 1,
    };
    if page_in_range(p as int, cs.len() as int, COURSES_PER_PAGE as int) {
        courses_view_model(cs, p, false)
    } else {
        message_only(page_missing_text(p))
    }
}

/// The course list after a click that asks for page `requested`.
pub open spec fn courses_click_model(cs: Seq<Course>, requested: usize) -> PageModel {
    if cs.len() == 0 {
        message_only(no_courses_text())
    } else {
        courses_view_model(
            cs,
            normalized_page(requested, cs.len() as int, COURSES_PER_PAGE as int),
            true,
        )
    }
}

/// Page `page` of the assessments of course `id`, seen on day `today`.
pub open spec fn assessments_view_model(
    cs: Seq<Course>,
    items: Seq<Assessment>,
    id: i64,
    page: usize,
    today: int,
) -> PageModel {
    let b = nav_buttons(page, (items.len() as int / ASSESSMENTS_PER_PAGE as int) as usize);
    PageModel {
        content: if course_index(cs, id) is Some {
            assessments_page_text(items, page as int, course_name_for(cs, id), today)
        } else {
            missing_course_text()
        },
        buttons: if items.len() <= ASSESSMENTS_PER_PAGE {
            Seq::empty()
        } else {
            seq![b.0, b.1]
        },
        menu: Some(course_menu(cs, id)),
    }
}

/// The reply to the assessment list command for course `id` and `page`.
pub open spec fn assessments_list_model(
    cs: Seq<Course>,
    items: Seq<Assessment>,
    id: i64,
    page: Option<usize>,
    today: int,
) -> PageModel {
    let p = match page {
        Some(p) => p,
        None => 1,
    };
    if page_in_range(p as int, items.len() as int, ASSESSMENTS_PER_PAGE as int) {
        assessments_view_model(cs, items, id, p, today)
    } else {
        message_only(page_missing_text(p))
    }
}

/// The assessment list of course `id` after a click that asks for page `requested`.
pub open spec fn assessments_click_model(
    cs: Seq<Course>,
    items: Seq<Assessment>,
    id: i64,
    requested: usize,
    today: int,
) -> PageModel {
    assessments_view_model(
        cs,
        items,
        id,
        normalized_page(requested, items.len() as int, ASSESSMENTS_PER_PAGE as int),
        today,
    )
}

fn text_message(text: String) -> (r: PageView)
    ensures
        r@ == message_only(text@),
{
    let r = PageView { content: text, buttons: Vec::new(), menu: None };
    assert(r@.buttons =~= Seq::<ButtonModel>::empty());
    r
}

fn page_missing(page: usize) -> (r: PageView)
    ensures
        r@ == message_only(page_missing_text(page)),
{
    let mut out = "Page ".to_owned();
    push_nat(&mut out, page as u64);
    out.append(" does not exist");
    text_message(out)
}

fn in_range(page: usize, total: usize, per_page: usize) -> (r: bool)
    requires
        per_page >= 1,
    ensures
        r == page_in_range(page as int, total as int, per_page as int),
{
    page >= 1 && page - 1 <= total / per_page
}

fn courses_view(courses: &Vec<Course>, page: usize, with_refresh: bool) -> (r: PageView)
    requires
        page_in_range(page as int, courses@.len() as int, COURSES_PER_PAGE as int),
    ensures
        r@ == courses_view_model(courses@, page, with_refresh),
{
    let content = match format_course_response(courses, page) {
        Ok(t) => t,
        Err(t) => t,
    };
    let mut buttons: Vec<Button> = Vec::new();
    if courses.len() > COURSES_PER_PAGE {
        let (previous, next, refresh) = create_buttons(page, courses.len() / COURSES_PER_PAGE);
        buttons.push(previous);
        buttons.push(next);
        if with_refresh {
            buttons.push(refresh);
        }
    }
    let r = PageView { content, buttons, menu: None };
    assert(r@.buttons =~= courses_view_model(courses@, page, with_refresh).buttons);
    r
}

/// The reply to the course list command: the requested page (page 1 when none is
/// given) with previous/next buttons when the list spans more than one page, or a
/// notice when that page does not exist.
pub fn list_courses_view(courses: &Vec<Course>, page: Option<usize>) -> (r: PageView)
    ensures
        r@ == courses_list_model(courses@, page),
{
    let p = match page {
        Some(p) => p,
        None => 1,
    };
    if in_range(p, courses.len(), COURSES_PER_PAGE) {
        courses_view(courses, p, false)
    } else {
        page_missing(p)
    }
}

/// The course list after a click asking for page `page`, computed from the current
/// courses: a page that no longer exists falls back to page 1.
pub fn courses_click_view(courses: &Vec<Course>, page: usize) -> (r: PageView)
    ensures
        r@ == courses_click_model(courses@, page),
{
    if courses.len() == 0 {
        return text_message("No courses found".to_owned());
    }
    let p = if in_range(page, courses.len(), COURSES_PER_PAGE) {
        page
    } else {
        1
    };
    courses_view(courses, p, true)
}

fn assessments_view(
    courses: &Vec<Course>,
    assessments: &Vec<Assessment>,
    course_id: i64,
    page: usize,
    today: Date,
) -> (r: PageView)
    requires
        page_in_range(page as int, assessments@.len() as int, ASSESSMENTS_PER_PAGE as int),
    ensures
        r@ == assessments_view_model(courses@, assessments@, course_id, page, today.days as int),
{
    let (menu, content) = match create_courses_select_menu(courses, course_id) {
        Ok(menu) => {
            let name = course_name(courses, course_id);
            let content = match format_assessment_response_on(assessments, page, &name, today) {
                Ok(t) => t,
                Err(t) => t,
            };
            (menu, content)
        },
        Err(menu) => (
            menu,
            "Error creating select menu: Course not found. Please select a course from the list below.".to_owned(),
        ),
    };
    let mut buttons: Vec<Button> = Vec::new();
    if assessments.len() > ASSESSMENTS_PER_PAGE {
        let (previous, next, _refresh) = create_buttons(
            page,
            assessments.len() / ASSESSMENTS_PER_PAGE,
        );
        buttons.push(previous);
        buttons.push(next);
    }
    let r = PageView { content, buttons, menu: Some(menu) };
    assert(r@.buttons =~= assessments_view_model(
        courses@,
        assessments@,
        course_id,
        page,
        today.days as int,
    ).buttons);
    r
}

/// The reply to the assessment list command for course `course_id` as seen on day
/// `today`: the requested page (page 1 when none is given) with the course selector,
/// or a notice when that page does not exist.
pub fn list_assessments_view_on(
    courses: &Vec<Course>,
    assessments: &Vec<Assessment>,
    course_id: i64,
    page: Option<usize>,
    today: Date,
) -> (r: PageView)
    ensures
        r@ == assessments_list_model(courses@, assessments@, course_id, page, today.days as int),
{
    let p = match page {
        Some(p) => p,
        None => 1,
    };
    if in_range(p, assessments.len(), ASSESSMENTS_PER_PAGE) {
        assessments_view(courses, assessments, course_id, p, today)
    } else {
        page_missing(p)
    }
}

/// The reply to the assessment list command, as seen today (UTC).
pub fn list_assessments_view(
    courses: &Vec<Course>,
    assessments: &Vec<Assessment>,
    course_id: i64,
    page: Option<usize>,
) -> (r: PageView)
    ensures
        exists|today: Date|
            r@ == #[trigger] assessments_list_model(
                courses@,
                assessments@,
                course_id,
                page,
                today.days as int,
            ),
{
    list_assessments_view_on(courses, assessments, course_id, page, today_utc())
}

/// The assessment list of course `course_id` after a click asking for page `page`,
/// as seen on day `today`: a page that no longer exists falls back to page 1.
pub fn assessments_click_view_on(
    courses: &Vec<Course>,
    assessments: &Vec<Assessment>,
    course_id: i64,
    page: usize,
    today: Date,
) -> (r: PageView)
    ensures
        r@ == assessments_click_model(courses@, assessments@, course_id, page, today.days as int),
{
    let p = if in_range(page, assessments.len(), ASSESSMENTS_PER_PAGE) {
        page
    } else {
        1
    };
    assessments_view(courses, assessments, course_id, p, today)
}

/// The assessment list after a click, as seen today (UTC).
pub fn assessments_click_view(
    courses: &Vec<Course>,
    assessments: &Vec<Assessment>,
    course_id: i64,
    page: usize,
) -> (r: PageView)
    ensures
        exists|today: Date|
            r@ == #[trigger] assessments_click_model(
                courses@,
                assessments@,
                course_id,
                page,
                today.days as int,
            ),
{
    assessments_click_view_on(courses, assessments, course_id, page, today_utc())
}

/// Refreshing recomputes exactly the page that was shown: the refresh button of
/// page `p` decodes to page `p`, and with unchanged courses the click shows the same
/// view as the previous click and the same text as the list command did.
pub proof fn lemma_refresh_reproduces_page(cs: Seq<Course>, p: usize)
    requires
        cs.len() > 0,
        page_in_range(p as int, cs.len() as int, COURSES_PER_PAGE as int),
    ensures
        button_page_spec(control_text(Control::Page(PageAction::Refresh, p)))
            == Ok::<usize, DecodeError>(p),
        courses_click_model(cs, p) == courses_view_model(cs, p, true),
        courses_click_model(cs, p).content == courses_list_model(cs, Some(p)).content,
{
    lemma_decode_encode(Control::Page(PageAction::Refresh, p));
}

/// Showing an existing page of assessments again, with unchanged data and the same
/// day, gives the same view whether it comes from the list command or from a click.
pub proof fn lemma_assessment_page_is_stable(
    cs: Seq<Course>,
    items: Seq<Assessment>,
    id: i64,
    p: usize,
    today: int,
)
    requires
        page_in_range(p as int, items.len() as int, ASSESSMENTS_PER_PAGE as int),
    ensures
        assessments_click_model(cs, items, id, p, today) == assessments_list_model(
            cs,
            items,
            id,
            Some(p),
            today,
        ),
{
}

/// A click that asks for a page beyond the current last page (after records were
/// removed) shows page 1 instead of failing.
pub proof fn lemma_stale_page_falls_back(
    cs: Seq<Course>,
    items: Seq<Assessment>,
    id: i64,
    requested: usize,
    today: int,
)
    ensures
        !page_in_range(requested as int, items.len() as int, ASSESSMENTS_PER_PAGE as int)
            ==> assessments_click_model(cs, items, id, requested, today)
            == assessments_list_model(cs, items, id, Some(1), today),
        cs.len() > 0 && !page_in_range(requested as int, cs.len() as int, COURSES_PER_PAGE as int)
            ==> courses_click_model(cs, requested) == courses_view_model(cs, 1, true),
{
}

/// A list that fits on one page carries no navigation buttons, whether it comes
/// from the list command or from a click.
pub proof fn lemma_single_page_has_no_buttons(
    cs: Seq<Course>,
    items: Seq<Assessment>,
    id: i64,
    page: Option<usize>,
    requested: usize,
    today: int,
)
    ensures
        cs.len() <= COURSES_PER_PAGE ==> courses_list_model(cs, page).buttons.len() == 0
            && courses_click_model(cs, requested).buttons.len() == 0,
        items.len() <= ASSESSMENTS_PER_PAGE ==> assessments_list_model(
            cs,
            items,
            id,
            page,
            today,
        ).buttons.len() == 0 && assessments_click_model(
            cs,
            items,
            id,
            requested,
            today,
        ).buttons.len() == 0,
{
}

/// Previous is greyed out exactly on page 1 and next exactly on the last page;
/// refresh is always live.
pub proof fn lemma_nav_buttons_disabled(page: usize, quotient: usize)
    ensures
        nav_buttons(page, quotient).0.disabled <==> page == 1,
        nav_buttons(page, quotient).1.disabled <==> page == quotient + 1,
        !nav_buttons(page, quotient).2.disabled,
{
}

} // verus!
