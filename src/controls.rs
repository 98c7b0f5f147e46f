use vstd::prelude::*;
use crate::codec::{control_text, encode_control, Control, PageAction};
use crate::records::Course;
use crate::text::{int_text, int_to_text};

verus! {

/// A clickable button: its caption, the identifier that carries its state, and
/// whether it is greyed out.
#[derive(Clone, Debug)]
pub struct Button {
    pub label: String,
    pub custom_id: String,
    pub disabled: bool,
}

pub struct ButtonModel {
    pub label: Seq<char>,
    pub custom_id: Seq<char>,
    pub disabled: bool,
}

impl View for Button {
    type V = ButtonModel;

    open spec fn view(&self) -> ButtonModel {
        ButtonModel { label: self.label@, custom_id: self.custom_id@, disabled: self.disabled }
    }
}

/// One entry of a selection menu: what it shows and the value it submits.
#[derive(Clone, Debug)]
pub struct MenuOption {
    pub label: String,
    pub value: String,
}

/// A selection menu: its identifier, the text shown while nothing is picked, and
/// its entries.
#[derive(Clone, Debug)]
pub struct SelectMenu {
    pub custom_id: String,
    pub placeholder: String,
    pub options: Vec<MenuOption>,
}

pub struct SelectMenuModel {
    pub custom_id: Seq<char>,
    pub placeholder: Seq<char>,
    pub options: Seq<(Seq<char>, Seq<char>)>,
}

pub open spec fn option_view(o: MenuOption) -> (Seq<char>, Seq<char>) {
    (o.label@, o.value@)
}

impl View for SelectMenu {
    type V = SelectMenuModel;

    open spec fn view(&self) -> SelectMenuModel {
        SelectMenuModel {
            custom_id: self.custom_id@,
            placeholder: self.placeholder@,
            options: self.options@.map_values(|o: MenuOption| option_view(o)),
        }
    }
}

/// The navigation button for `action` on page `page`.
pub open spec fn nav_button(action: PageAction, page: usize, disabled: bool) -> ButtonModel {
    ButtonModel {
        label: match action {
            PageAction::Previous => "Previous"@,
            PageAction::Next => "Next"@,
            PageAction::Refresh => "\u{21bb}"@,
        },
        custom_id: control_text(Control::Page(action, page)),
        disabled,
    }
}

/// Previous, next and refresh for page `page` of a list whose last page is
/// `quotient + 1`: previous is greyed out exactly on page 1, next exactly on the
/// last page, refresh never.
pub open spec fn nav_buttons(page: usize, quotient: usize) -> (ButtonModel, ButtonModel, ButtonModel) {
    (
        nav_button(PageAction::Previous, page, page == 1),
        nav_button(PageAction::Next, page, page == quotient + 1),
        nav_button(PageAction::Refresh, page, false),
    )
}

fn make_button(action: PageAction, page: usize, disabled: bool) -> (r: Button)
    ensures
        r@ == nav_button(action, page, disabled),
{
    let label = match action {
        PageAction::Previous => "Previous".to_owned(),
        PageAction::Next => "Next".to_owned(),
        PageAction::Refresh => "\u{21bb}".to_owned(),
    };
    Button { label, custom_id: encode_control(Control::Page(action, page)), disabled }
}

/// The navigation buttons of page `page_num` of a list whose last page is
/// `quotient + 1`.
pub fn create_buttons(page_num: usize, quotient: usize) -> (r: (Button, Button, Button))
    ensures
        (r.0@, r.1@, r.2@) == nav_buttons(page_num, quotient),
{
    let on_last = page_num >= 1 && page_num - 1 == quotient;
    let previous = make_button(PageAction::Previous, page_num, page_num == 1);
    let next = make_button(PageAction::Next, page_num, on_last);
    let refresh = make_button(PageAction::Refresh, page_num, false);
    (previous, next, refresh)
}

/// Position of the first course with id `id`.
pub open spec fn course_index(cs: Seq<Course>, id: i64) -> Option<int>
    decreases cs.len(),
{
    if cs.len() == 0 {
        None
    } else if cs[0].id == id {
        Some(0)
    } else {
        match course_index(cs.drop_first(), id) {
            Some(k) => Some(k + 1),
            None => None,
        }
    }
}

/// The text shown for a course id that names no course.
pub open spec fn no_course_label() -> Seq<char> {
    "No course selected"@
}

/// The name of the first course with id `id`, or the no-course label.
pub open spec fn course_name_for(cs: Seq<Course>, id: i64) -> Seq<char> {
    match course_index(cs, id) {
        Some(k) => cs[k].name@,
        None => no_course_label(),
    }
}

/// The course selector of an assessment list showing course `id`: one entry per
/// course (its name, submitting its id).
pub open spec fn course_menu(cs: Seq<Course>, id: i64) -> SelectMenuModel {
    SelectMenuModel {
        custom_id: control_text(Control::SelectCourse(id)),
        placeholder: course_name_for(cs, id),
        options: cs.map_values(|c: Course| (c.name@, int_text(c.id as int))),
    }
}

proof fn lemma_course_index(cs: Seq<Course>, id: i64, i: int)
    requires
        0 <= i <= cs.len(),
        forall|j: int| 0 <= j < i ==> cs[j].id != id,
        i == cs.len() || cs[i].id == id,
    ensures
        course_index(cs, id) == if i < cs.len() {
            Some(i)
        } else {
            None::<int>
        },
    decreases i,
{
    if i > 0 {
        lemma_course_index(cs.drop_first(), id, i - 1);
    }
}

/// The position of the first course with id `id`.
pub fn find_course(courses: &Vec<Course>, id: i64) -> (r: Option<usize>)
    ensures
        match r {
            Some(k) => k < courses@.len() && course_index(courses@, id) == Some(k as int),
            None => course_index(courses@, id) is None,
        },
{
    let mut i: usize = 0;
    while i < courses.len() && courses[i].id != id
        invariant
            i <= courses@.len(),
            forall|j: int| 0 <= j < i ==> courses@[j].id != id,
        decreases courses@.len() - i,
    {
        i = i + 1;
    }
    proof {
        lemma_course_index(courses@, id, i as int);
    }
    if i < courses.len() {
        Some(i)
    } else {
        None
    }
}

/// The name of the first course with id `id`, or the no-course label.
pub fn course_name(courses: &Vec<Course>, id: i64) -> (r: String)
    ensures
        r@ == course_name_for(courses@, id),
{
    match find_course(courses, id) {
        Some(k) => courses[k].name.clone(),
        None => "No course selected".to_owned(),
    }
}

/// The course selector of an assessment list showing course `current_course_id`.
/// It is `Err` exactly when no course has that id; the selector is built either way.
pub fn create_courses_select_menu(courses: &Vec<Course>, current_course_id: i64) -> (r: Result<
    SelectMenu,
    SelectMenu,
>)
    ensures
        r is Err <==> course_index(courses@, current_course_id) is None,
        match r {
            Ok(m) => m@ == course_menu(courses@, current_course_id),
            Err(m) => m@ == course_menu(courses@, current_course_id),
        },
{
    let found = find_course(courses, current_course_id);
    let placeholder = course_name(courses, current_course_id);
    let mut options: Vec<MenuOption> = Vec::new();
    let mut i: usize = 0;
    while i < courses.len()
        invariant
            i <= courses@.len(),
            options@.len() == i,
            forall|j: int|
                0 <= j < i ==> option_view(#[trigger] options@[j]) == (
                    courses@[j].name@,
                    int_text(courses@[j].id as int),
                ),
        decreases courses@.len() - i,
    {
        options.push(MenuOption { label: courses[i].name.clone(), value: int_to_text(courses[i].id) });
        i = i + 1;
    }
    let menu = SelectMenu {
        custom_id: encode_control(Control::SelectCourse(current_course_id)),
        placeholder,
        options,
    };
    assert(menu@.options =~= courses@.map_values(|c: Course| (c.name@, int_text(c.id as int))));
    match found {
        Some(_) => Ok(menu),
        None => Err(menu),
    }
}

} // verus!
