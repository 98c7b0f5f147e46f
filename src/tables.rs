use vstd::prelude::*;
use crate::dates::{add_date_color, colored_date_text, today_utc, Date};
use crate::pagination::{
    calculate_range, last_page, lemma_slice_within_bounds, slice_end, slice_start, ASSESSMENTS_PER_PAGE, COURSES_PER_PAGE,
};
use crate::records::{decimal_text, Assessment, Course};
use crate::text::{int_text, int_to_text, nat_text, push_nat};

verus! {

/// Width, in columns, that listings are laid out to.
pub const TABLE_WIDTH: u16 = 100;

/// The text of a table laid out to `width` columns, with a header row and body rows.
pub uninterp spec fn table_text(width: int, header: Seq<Seq<char>>, rows: Seq<Seq<Seq<char>>>) -> Seq<char>;

pub open spec fn texts(v: Seq<String>) -> Seq<Seq<char>> {
    v.map_values(|s: String| s@)
}

pub open spec fn text_rows(v: Seq<Vec<String>>) -> Seq<Seq<Seq<char>>> {
    v.map_values(|r: Vec<String>| texts(r@))
}

/// Relies on comfy_table's `Table` and its `Display`: the cells laid out with the
/// `UTF8_FULL` preset and rounded corners, wrapped to `width` columns. The text
/// depends on the arguments alone.
#[verifier::external_body]
fn render_table(width: u16, header: &Vec<String>, rows: &Vec<Vec<String>>) -> (r: String)
    ensures
        r@ == table_text(width as int, texts(header@), text_rows(rows@)),
{
    let mut table = comfy_table::Table::new();
    table
        .set_content_arrangement(comfy_table::ContentArrangement::Dynamic)
        .set_width(width)
        .load_preset(comfy_table::presets::UTF8_FULL)
        .apply_modifier(comfy_table::modifiers::UTF8_ROUND_CORNERS)
        .set_header(header.clone())
        .add_rows(rows.clone());
    table.to_string()
}

/// A laid-out table inside an `ansi` code block of the chat platform.
pub open spec fn fenced(table: Seq<char>) -> Seq<char> {
    "```ansi\n"@ + table + "```"@
}

pub open spec fn course_header() -> Seq<Seq<char>> {
    seq!["ID"@, "Name"@, "Code"@, "Semester"@, "Year"@, "Credit"@]
}

pub open spec fn course_cells(c: Course) -> Seq<Seq<char>> {
    seq![
        int_text(c.id as int),
        c.name@,
        c.code@,
        int_text(c.semester as int),
        int_text(c.year as int),
        decimal_text(c.credit.thousandths as int),
    ]
}

/// The course table: one row per course, in the given order.
pub open spec fn courses_table_text(cs: Seq<Course>) -> Seq<char> {
    fenced(table_text(TABLE_WIDTH as int, course_header(), cs.map_values(|c: Course| course_cells(c))))
}

pub open spec fn assessment_header() -> Seq<Seq<char>> {
    seq!["ID"@, "Name"@, "Take 1"@, "Retake 1"@, "Retake 2"@, "Weight"@, "Course ID"@]
}

pub open spec fn assessment_cells(a: Assessment, today: int) -> Seq<Seq<char>> {
    seq![
        int_text(a.id as int),
        a.name@,
        colored_date_text(a.take1@, today),
        colored_date_text(a.retake1@, today),
        colored_date_text(a.retake2@, today),
        decimal_text(a.weight.thousandths as int),
        int_text(a.fk_course_id as int),
    ]
}

/// The assessment table seen on day `today`: one row per assessment, dates marked
/// by proximity.
pub open spec fn assessments_table_text(items: Seq<Assessment>, today: int) -> Seq<char> {
    fenced(
        table_text(
            TABLE_WIDTH as int,
            assessment_header(),
            items.map_values(|a: Assessment| assessment_cells(a, today)),
        ),
    )
}

/// The records shown on `page`.
pub open spec fn page_slice<T>(items: Seq<T>, page: int, per_page: int) -> Seq<T> {
    items.subrange(slice_start(page, per_page), slice_end(page, per_page, items.len() as int))
}

/// The heading of a paginated list: `title (Page p/last)`.
pub open spec fn page_heading(title: Seq<char>, page: int, last: int) -> Seq<char> {
    "# "@ + title + " (Page "@ + nat_text(page as nat) + "/"@ + nat_text(last as nat) + ")\n"@
}

/// The message text of page `page` of the course list.
pub open spec fn courses_page_text(cs: Seq<Course>, page: int) -> Seq<char> {
    let table = courses_table_text(page_slice(cs, page, COURSES_PER_PAGE as int));
    if cs.len() <= COURSES_PER_PAGE {
        "# Courses list\n"@ + table
    } else {
        page_heading("Courses list"@, page, last_page(cs.len() as int, COURSES_PER_PAGE as int))
            + table
    }
}

/// The message text of page `page` of the assessments of the course called
/// `course_name`, seen on day `today`.
pub open spec fn assessments_page_text(
    items: Seq<Assessment>,
    page: int,
    course_name: Seq<char>,
    today: int,
) -> Seq<char> {
    let table = assessments_table_text(page_slice(items, page, ASSESSMENTS_PER_PAGE as int), today);
    if items.len() <= ASSESSMENTS_PER_PAGE {
        "# "@ + course_name + "\n"@ + table
    } else {
        page_heading(
            "Assessments list"@,
            page,
            last_page(items.len() as int, ASSESSMENTS_PER_PAGE as int),
        ) + table
    }
}

fn strings(parts: &[&str]) -> (r: Vec<String>)
    ensures
        texts(r@) == parts@.map_values(|s: &str| s@),
{
    let mut out: Vec<String> = Vec::new();
    let mut i: usize = 0;
    while i < parts.len()
        invariant
            i <= parts@.len(),
            out@.len() == i,
            forall|j: int| 0 <= j < i ==> (#[trigger] out@[j])@ == parts@[j]@,
        decreases parts@.len() - i,
    {
        out.push(parts[i].to_owned());
        i = i + 1;
    }
    assert(texts(out@) =~= parts@.map_values(|s: &str| s@));
    out
}

fn course_row(c: &Course) -> (r: Vec<String>)
    ensures
        texts(r@) == course_cells(*c),
{
    let mut row: Vec<String> = Vec::new();
    row.push(int_to_text(c.id));
    row.push(c.name.clone());
    row.push(c.code.clone());
    row.push(int_to_text(c.semester));
    row.push(int_to_text(c.year));
    row.push(c.credit.to_text());
    assert(texts(row@) =~= course_cells(*c));
    row
}

fn assessment_row(a: &Assessment, today: Date) -> (r: Vec<String>)
    ensures
        texts(r@) == assessment_cells(*a, today.days as int),
{
    let mut row: Vec<String> = Vec::new();
    row.push(int_to_text(a.id));
    row.push(a.name.clone());
    row.push(add_date_color(a.take1.as_str(), today));
    row.push(add_date_color(a.retake1.as_str(), today));
    row.push(add_date_color(a.retake2.as_str(), today));
    row.push(a.weight.to_text());
    row.push(int_to_text(a.fk_course_id));
    assert(texts(row@) =~= assessment_cells(*a, today.days as int));
    row
}

fn fence(table: String) -> (r: String)
    ensures
        r@ == fenced(table@),
{
    let mut out = "```ansi\n".to_owned();
    out.append(table.as_str());
    out.append("```");
    out
}

/// Lays out the course table.
pub fn build_courses_table(courses: &[Course]) -> (r: String)
    ensures
        r@ == courses_table_text(courses@),
{
    let header = strings(&["ID", "Name", "Code", "Semester", "Year", "Credit"]);
    let mut rows: Vec<Vec<String>> = Vec::new();
    let mut i: usize = 0;
    while i < courses.len()
        invariant
            i <= courses@.len(),
            rows@.len() == i,
            forall|j: int| 0 <= j < i ==> texts((#[trigger] rows@[j])@) == course_cells(courses@[j]),
        decreases courses@.len() - i,
    {
        rows.push(course_row(&courses[i]));
        i = i + 1;
    }
    assert(text_rows(rows@) =~= courses@.map_values(|c: Course| course_cells(c)));
    assert(texts(header@) =~= course_header());
    fence(render_table(TABLE_WIDTH, &header, &rows))
}

/// Lays out the assessment table as seen on day `today`.
pub fn build_assessments_table_on(assessments: &[Assessment], today: Date) -> (r: String)
    ensures
        r@ == assessments_table_text(assessments@, today.days as int),
{
    let header = strings(&["ID", "Name", "Take 1", "Retake 1", "Retake 2", "Weight", "Course ID"]);
    let mut rows: Vec<Vec<String>> = Vec::new();
    let mut i: usize = 0;
    while i < assessments.len()
        invariant
            i <= assessments@.len(),
            rows@.len() == i,
            forall|j: int|
                0 <= j < i ==> texts((#[trigger] rows@[j])@) == assessment_cells(
                    assessments@[j],
                    today.days as int,
                ),
        decreases assessments@.len() - i,
    {
        rows.push(assessment_row(&assessments[i], today));
        i = i + 1;
    }
    assert(text_rows(rows@) =~= assessments@.map_values(
        |a: Assessment| assessment_cells(a, today.days as int),
    ));
    assert(texts(header@) =~= assessment_header());
    fence(render_table(TABLE_WIDTH, &header, &rows))
}

/// Lays out the assessment table as seen today (UTC).
pub fn build_assessments_table(assessments: &[Assessment]) -> (r: String)
    ensures
        exists|today: Date| r@ == assessments_table_text(assessments@, today.days as int),
{
    build_assessments_table_on(assessments, today_utc())
}

fn heading(title: &str, page: usize, last: usize) -> (r: String)
    ensures
        r@ == page_heading(title@, page as int, last as int),
{
    let mut out = "# ".to_owned();
    out.append(title);
    out.append(" (Page ");
    push_nat(&mut out, page as u64);
    out.append("/");
    push_nat(&mut out, last as u64);
    out.append(")\n");
    out
}

/// The text of page `page` of the course list.
pub fn format_course_response(courses: &Vec<Course>, page: usize) -> (r: Result<String, String>)
    requires
        1 <= page <= last_page(courses@.len() as int, COURSES_PER_PAGE as int),
    ensures
        r matches Ok(t) && t@ == courses_page_text(courses@, page as int),
{
    proof {
        lemma_slice_within_bounds(page as int, COURSES_PER_PAGE as int, courses@.len() as int);
    }
    let range = calculate_range(page, COURSES_PER_PAGE, courses.len());
    let table = build_courses_table(&courses.as_slice()[range]);
    let content = if courses.len() <= COURSES_PER_PAGE {
        let mut out = "# Courses list\n".to_owned();
        out.append(table.as_str());
        out
    } else {
        let mut out = heading("Courses list", page, courses.len() / COURSES_PER_PAGE + 1);
        out.append(table.as_str());
        out
    };
    Ok(content)
}

/// The text of page `page` of the assessments of the course called `course_name`,
/// as seen on day `today`.
pub fn format_assessment_response_on(
    assessments: &Vec<Assessment>,
    page: usize,
    course_name: &String,
    today: Date,
) -> (r: Result<String, String>)
    requires
        1 <= page <= last_page(assessments@.len() as int, ASSESSMENTS_PER_PAGE as int),
    ensures
        r matches Ok(t) && t@ == assessments_page_text(
            assessments@,
            page as int,
            course_name@,
            today.days as int,
        ),
{
    proof {
        lemma_slice_within_bounds(page as int, ASSESSMENTS_PER_PAGE as int, assessments@.len() as int);
    }
    let range = calculate_range(page, ASSESSMENTS_PER_PAGE, assessments.len());
    let table = build_assessments_table_on(&assessments.as_slice()[range], today);
    let content = if assessments.len() <= ASSESSMENTS_PER_PAGE {
        let mut out = "# ".to_owned();
        out.append(course_name.as_str());
        out.append("\n");
        out.append(table.as_str());
        out
    } else {
        let mut out = heading(
            "Assessments list",
            page,
            assessments.len() / ASSESSMENTS_PER_PAGE + 1,
        );
        out.append(table.as_str());
        out
    };
    Ok(content)
}

/// The text of page `page` of the assessments of the course called `course_name`,
/// as seen today (UTC).
pub fn format_assessment_response(
    assessments: &Vec<Assessment>,
    page: usize,
    course_name: &String,
) -> (r: Result<String, String>)
    requires
        1 <= page <= last_page(assessments@.len() as int, ASSESSMENTS_PER_PAGE as int),
    ensures
        r is Ok,
        exists|today: Date|
            r->Ok_0@ == #[trigger] assessments_page_text(
                assessments@,
                page as int,
                course_name@,
                today.days as int,
            ),
{
    format_assessment_response_on(assessments, page, course_name, today_utc())
}

} // verus!
