use vstd::prelude::*;
use crate::text::{
    i64_from_text, int_text, lemma_nat_text_digits, nat_text, parse_i64, parse_usize, push_int,
    push_nat, usize_from_text,
};

verus! {

/// What a navigation button does to the page it was rendered on.
#[derive(Clone, Copy, Debug, PartialEq, Eq, Structural)]
pub enum PageAction {
    Previous,
    Next,
    Refresh,
}

/// The state carried by one control identifier: a navigation action with the page
/// it was rendered on, or the course selection of an assessment list.
#[derive(Clone, Copy, Debug, PartialEq, Eq, Structural)]
pub enum Control {
    Page(PageAction, usize),
    SelectCourse(i64),
}

/// Why a control identifier could not be decoded.
#[derive(Clone, Copy, Debug, PartialEq, Eq, Structural)]
pub enum DecodeError {
    /// The text before the first `;` is none of the known action tags.
    UnrecognizedAction,
    /// The tag is known but what follows it is missing or not a valid number.
    MalformedContext,
}

/// The tag that names a navigation action in an identifier.
pub open spec fn action_tag(a: PageAction) -> Seq<char> {
    match a {
        PageAction::Previous => "previous_page"@,
        PageAction::Next => "next_page"@,
        PageAction::Refresh => "refresh_page"@,
    }
}

/// The tag of the course-selection control.
pub open spec fn course_tag() -> Seq<char> {
    "select_course"@
}

/// The identifier text of a control: `tag;value`.
pub open spec fn control_text(c: Control) -> Seq<char> {
    match c {
        Control::Page(a, page) => action_tag(a) + seq![';'] + nat_text(page as nat),
        Control::SelectCourse(id) => course_tag() + seq![';'] + int_text(id as int),
    }
}

/// Index of the first `;` of `s`, or `s.len()` when there is none.
pub open spec fn first_sep(s: Seq<char>) -> int
    decreases s.len(),
{
    if s.len() == 0 {
        0
    } else if s[0] == ';' {
        0
    } else {
        1 + first_sep(s.drop_first())
    }
}

/// The navigation action that a tag names, if any.
pub open spec fn action_of_tag(t: Seq<char>) -> Option<PageAction> {
    if t == action_tag(PageAction::Previous) {
        Some(PageAction::Previous)
    } else if t == action_tag(PageAction::Next) {
        Some(PageAction::Next)
    } else if t == action_tag(PageAction::Refresh) {
        Some(PageAction::Refresh)
    } else {
        None
    }
}

/// Decoding of an identifier: split once at the first `;`; the tag picks the action
/// and the rest is a page number (at least 1) or a course id.
pub open spec fn decode_spec(s: Seq<char>) -> Result<Control, DecodeError> {
    let i = first_sep(s);
    let tag = s.subrange(0, i);
    let rest = s.subrange(i + 1, s.len() as int);
    match action_of_tag(tag) {
        Some(a) => if i == s.len() {
            Err(DecodeError::MalformedContext)
        } else {
            match usize_from_text(rest) {
                Some(page) => if page >= 1 {
                    Ok(Control::Page(a, page))
                } else {
                    Err(DecodeError::MalformedContext)
                },
                None => Err(DecodeError::MalformedContext),
            }
        },
        None => if tag == course_tag() {
            if i == s.len() {
                Err(DecodeError::MalformedContext)
            } else {
                match i64_from_text(rest) {
                    Some(id) => Ok(Control::SelectCourse(id)),
                    None => Err(DecodeError::MalformedContext),
                }
            }
        } else {
            Err(DecodeError::UnrecognizedAction)
        },
    }
}

/// The page that a navigation action leads to from `page`: previous never goes
/// below page 1, refresh stays; `None` where the next page is not representable.
pub open spec fn target_page(a: PageAction, page: usize) -> Option<usize> {
    match a {
        PageAction::Previous => if page > 1 {
            Some((page - 1) as usize)
        } else {
            Some(1)
        },
        PageAction::Next => if page < usize::MAX {
            Some((page + 1) as usize)
        } else {
            None
        },
        PageAction::Refresh => Some(page),
    }
}

/// The page that a navigation button's identifier leads to.
pub open spec fn button_page_spec(s: Seq<char>) -> Result<usize, DecodeError> {
    match decode_spec(s) {
        Ok(Control::Page(a, page)) => match target_page(a, page) {
            Some(p) => Ok(p),
            None => Err(DecodeError::MalformedContext),
        },
        Ok(Control::SelectCourse(_)) => Err(DecodeError::UnrecognizedAction),
        Err(e) => Err(e),
    }
}

/// The course id that a course-selection control's identifier carries.
pub open spec fn select_course_spec(s: Seq<char>) -> Result<i64, DecodeError> {
    match decode_spec(s) {
        Ok(Control::SelectCourse(id)) => Ok(id),
        Ok(Control::Page(_, _)) => Err(DecodeError::UnrecognizedAction),
        Err(e) => Err(e),
    }
}

/// A control that an identifier can carry: pages are numbered from 1.
pub open spec fn control_valid(c: Control) -> bool {
    match c {
        Control::Page(_, page) => page >= 1,
        Control::SelectCourse(_) => true,
    }
}

proof fn lemma_first_sep(s: Seq<char>, i: int)
    requires
        0 <= i <= s.len(),
        forall|j: int| 0 <= j < i ==> s[j] != ';',
        i == s.len() || s[i] == ';',
    ensures
        first_sep(s) == i,
    decreases i,
{
    if i > 0 {
        lemma_first_sep(s.drop_first(), i - 1);
    }
}

fn tag_str(a: PageAction) -> (r: &'static str)
    ensures
        r@ == action_tag(a),
{
    match a {
        PageAction::Previous => "previous_page",
        PageAction::Next => "next_page",
        PageAction::Refresh => "refresh_page",
    }
}

/// Writes a control as its identifier text.
pub fn encode_control(c: Control) -> (r: String)
    ensures
        r@ == control_text(c),
{
    let mut out = String::new();
    proof {
        reveal_strlit(";");
    }
    match c {
        Control::Page(a, page) => {
            out.append(tag_str(a));
            out.append(";");
            push_nat(&mut out, page as u64);
        },
        Control::SelectCourse(id) => {
            out.append("select_course");
            out.append(";");
            push_int(&mut out, id);
        },
    }
    assert(out@ =~= control_text(c));
    out
}

/// Reads a control identifier back.
pub fn decode_control(s: &str) -> (r: Result<Control, DecodeError>)
    ensures
        r == decode_spec(s@),
{
    let len = s.unicode_len();
    let mut i: usize = 0;
    while i < len && s.get_char(i) != ';'
        invariant
            i <= len,
            len == s@.len(),
            forall|j: int| 0 <= j < i ==> s@[j] != ';',
        decreases len - i,
    {
        i = i + 1;
    }
    proof {
        lemma_first_sep(s@, i as int);
    }
    let tag = s.substring_char(0, i).to_owned();
    let has_rest = i < len;
    let rest = if has_rest {
        s.substring_char(i + 1, len)
    } else {
        ""
    };
    let previous = "previous_page".to_owned();
    let next = "next_page".to_owned();
    let refresh = "refresh_page".to_owned();
    let select = "select_course".to_owned();
    let action = if tag == previous {
        Some(PageAction::Previous)
    } else if tag == next {
        Some(PageAction::Next)
    } else if tag == refresh {
        Some(PageAction::Refresh)
    } else {
        None
    };
    assert(action == action_of_tag(tag@));
    match action {
        Some(a) => {
            if !has_rest {
                return Err(DecodeError::MalformedContext);
            }
            match parse_usize(rest) {
                Some(page) => {
                    if page >= 1 {
                        Ok(Control::Page(a, page))
                    } else {
                        Err(DecodeError::MalformedContext)
                    }
                },
                None => Err(DecodeError::MalformedContext),
            }
        },
        None => {
            if tag == select {
                if !has_rest {
                    return Err(DecodeError::MalformedContext);
                }
                match parse_i64(rest) {
                    Some(id) => Ok(Control::SelectCourse(id)),
                    None => Err(DecodeError::MalformedContext),
                }
            } else {
                Err(DecodeError::UnrecognizedAction)
            }
        },
    }
}

/// The page that a navigation button leads to: the page encoded in its
/// identifier, moved by its action.
pub fn parse_button_page(button_id: &str) -> (r: Result<usize, DecodeError>)
    ensures
        r == button_page_spec(button_id@),
        r matches Ok(p) ==> p >= 1,
{
    match decode_control(button_id) {
        Ok(Control::Page(a, page)) => match a {
            PageAction::Previous => {
                if page > 1 {
                    Ok(page - 1)
                } else {
                    Ok(1)
                }
            },
            PageAction::Next => {
                if page < usize::MAX {
                    Ok(page + 1)
                } else {
                    Err(DecodeError::MalformedContext)
                }
            },
            PageAction::Refresh => Ok(page),
        },
        Ok(Control::SelectCourse(_)) => Err(DecodeError::UnrecognizedAction),
        Err(e) => Err(e),
    }
}

/// The course id carried by a course-selection control's identifier.
pub fn parse_select_menu_course_id(select_menu_id: &str) -> (r: Result<i64, DecodeError>)
    ensures
        r == select_course_spec(select_menu_id@),
{
    match decode_control(select_menu_id) {
        Ok(Control::SelectCourse(id)) => Ok(id),
        Ok(Control::Page(_, _)) => Err(DecodeError::UnrecognizedAction),
        Err(e) => Err(e),
    }
}

/// Decoding an encoded control gives the control back, for every action and
/// every page number from 1 and every course id.
pub proof fn lemma_decode_encode(c: Control)
    requires
        control_valid(c),
    ensures
        decode_spec(control_text(c)) == Ok::<Control, DecodeError>(c),
{
    reveal_strlit("previous_page");
    reveal_strlit("next_page");
    reveal_strlit("refresh_page");
    reveal_strlit("select_course");
    let s = control_text(c);
    match c {
        Control::Page(a, page) => {
            let t = action_tag(a);
            lemma_nat_text_digits(page as nat);
            assert(s[t.len() as int] == ';');
            lemma_first_sep(s, t.len() as int);
            assert(s.subrange(0, t.len() as int) =~= t);
            assert(s.subrange(t.len() as int + 1, s.len() as int) =~= nat_text(page as nat));
            assert(nat_text(page as nat).drop_first().len() >= 0);
        },
        Control::SelectCourse(id) => {
            let t = course_tag();
            assert(s[t.len() as int] == ';');
            lemma_first_sep(s, t.len() as int);
            assert(s.subrange(0, t.len() as int) =~= t);
            let rest = s.subrange(t.len() as int + 1, s.len() as int);
            assert(rest =~= int_text(id as int));
            if id < 0 {
                lemma_nat_text_digits((-id) as nat);
                assert(rest.drop_first() =~= nat_text((-id) as nat));
            } else {
                lemma_nat_text_digits(id as nat);
            }
        },
    }
}

} // verus!
