use vstd::prelude::*;
use crate::dates::{iso_date_day, parse_iso_date};
use crate::records::{Assessment, Course};
use crate::text::{int_text, nat_text, push_int, push_nat};

verus! {

/// The reply to an insert command.
pub open spec fn inserted_text(rows: nat) -> Seq<char> {
    "Inserted "@ + nat_text(rows) + " rows"@
}

/// The reply to a course removal: the removed course, or that no course had `id`.
pub open spec fn course_removed_text(id: int, removed: Option<Course>) -> Seq<char> {
    match removed {
        Some(c) => "Deleted course: "@ + c.name@ + ", ID: "@ + int_text(c.id as int),
        None => "Course not found with id: "@ + int_text(id),
    }
}

/// The reply to an assessment removal: the removed assessment, or that none had `id`.
pub open spec fn assessment_removed_text(id: int, removed: Option<Assessment>) -> Seq<char> {
    match removed {
        Some(a) => "Deleted assessment: "@ + a.name@ + ", ID: "@ + int_text(a.id as int),
        None => "Assessment not found with id: "@ + int_text(id),
    }
}

/// The complaint about field `field` when `value` is not a `YYYY-MM-DD` date.
pub open spec fn date_problem(field: Seq<char>, value: Seq<char>) -> Seq<Seq<char>> {
    if iso_date_day(value) is None {
        seq!["Invalid date format of "@ + field + ": "@ + value]
    } else {
        Seq::empty()
    }
}

/// The complaints about the three dates of an assessment, in field order; the
/// assessment is stored only when there are none.
pub open spec fn date_problems(take1: Seq<char>, retake1: Seq<char>, retake2: Seq<char>) -> Seq<Seq<char>> {
    date_problem("take1"@, take1) + date_problem("retake1"@, retake1) + date_problem("retake2"@, retake2)
}

/// The reply to an insert command that stored `rows_affected` rows.
pub fn inserted_message(rows_affected: u64) -> (r: String)
    ensures
        r@ == inserted_text(rows_affected as nat),
{
    let mut out = "Inserted ".to_owned();
    push_nat(&mut out, rows_affected);
    out.append(" rows");
    out
}

/// The reply to removing the course with id `id`.
pub fn course_removed_message(id: i32, removed: &Option<Course>) -> (r: String)
    ensures
        r@ == course_removed_text(id as int, *removed),
{
    match removed {
        Some(c) => {
            let mut out = "Deleted course: ".to_owned();
            out.append(c.name.as_str());
            out.append(", ID: ");
            push_int(&mut out, c.id);
            out
        },
        None => {
            let mut out = "Course not found with id: ".to_owned();
            push_int(&mut out, id as i64);
            out
        },
    }
}

/// The reply to removing the assessment with id `id`.
pub fn assessment_removed_message(id: i32, removed: &Option<Assessment>) -> (r: String)
    ensures
        r@ == assessment_removed_text(id as int, *removed),
{
    match removed {
        Some(a) => {
            let mut out = "Deleted assessment: ".to_owned();
            out.append(a.name.as_str());
            out.append(", ID: ");
            push_int(&mut out, a.id);
            out
        },
        None => {
            let mut out = "Assessment not found with id: ".to_owned();
            push_int(&mut out, id as i64);
            out
        },
    }
}

fn check_date(out: &mut Vec<String>, field: &str, value: &str)
    ensures
        final(out)@.map_values(|s: String| s@) == old(out)@.map_values(|s: String| s@)
            + date_problem(field@, value@),
{
    let ghost before = out@;
    if parse_iso_date(value).is_none() {
        let mut msg = "Invalid date format of ".to_owned();
        msg.append(field);
        msg.append(": ");
        msg.append(value);
        out.push(msg);
    }
    assert(out@.map_values(|s: String| s@) =~= before.map_values(|s: String| s@) + date_problem(
        field@,
        value@,
    ));
}

/// The complaints about the dates of an assessment to insert; empty exactly when
/// all three read as `YYYY-MM-DD` dates.
pub fn date_format_problems(take1: &str, retake1: &str, retake2: &str) -> (r: Vec<String>)
    ensures
        r@.map_values(|s: String| s@) == date_problems(take1@, retake1@, retake2@),
{
    let mut out: Vec<String> = Vec::new();
    check_date(&mut out, "take1", take1);
    check_date(&mut out, "retake1", retake1);
    check_date(&mut out, "retake2", retake2);
    assert(out@.map_values(|s: String| s@) =~= date_problems(take1@, retake1@, retake2@));
    out
}

} // verus!
