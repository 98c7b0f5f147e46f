use vstd::prelude::*;
use chrono::Datelike;

verus! {

/// A calendar date as its day number in the proleptic Gregorian calendar,
/// counting 0001-01-01 as day 1.
#[derive(Clone, Copy, Debug, PartialEq, Eq, Structural)]
pub struct Date {
    pub days: i32,
}

/// How close a due date is to today.
#[derive(Clone, Copy, Debug, PartialEq, Eq, Structural)]
pub enum DateClass {
    /// Before today.
    Overdue,
    /// From today up to seven days ahead.
    DueThisWeek,
    /// More than seven and up to fourteen days ahead.
    DueInTwoWeeks,
    /// More than fourteen days ahead.
    Distant,
}

/// The day number of `s` read as `YYYY-MM-DD`, when it reads as a date.
pub uninterp spec fn iso_date_day(s: Seq<char>) -> Option<int>;

/// The `YYYY-MM-DD` text of day number `days`, when it is a representable date.
pub uninterp spec fn iso_day_text(days: int) -> Option<Seq<char>>;

/// Relies on chrono's `NaiveDate::parse_from_str` with `%Y-%m-%d` (and
/// `num_days_from_ce` to carry the date out): the result depends on `s` alone.
#[verifier::external_body]
pub(crate) fn parse_iso_date(s: &str) -> (r: Option<Date>)
    ensures
        match r {
            Some(d) => iso_date_day(s@) == Some(d.days as int),
            None => iso_date_day(s@) is None,
        },
{
    match chrono::NaiveDate::parse_from_str(s, "%Y-%m-%d") {
        Ok(d) => Some(Date { days: d.num_days_from_ce() }),
        Err(_) => None,
    }
}

/// Relies on chrono's `NaiveDate::format` with `%Y-%m-%d` (and
/// `from_num_days_from_ce_opt` to bring the date in): the result depends on the
/// day number alone.
#[verifier::external_body]
fn format_iso_date(d: Date) -> (r: Option<String>)
    ensures
        match r {
            Some(t) => iso_day_text(d.days as int) == Some(t@),
            None => iso_day_text(d.days as int) is None,
        },
{
    match chrono::NaiveDate::from_num_days_from_ce_opt(d.days) {
        Some(n) => Some(n.format("%Y-%m-%d").to_string()),
        None => None,
    }
}

/// Relies on chrono's `Utc::now`: the current date in UTC. Nothing is known of
/// which date that is.
#[verifier::external_body]
pub(crate) fn today_utc() -> (r: Date) {
    Date { days: chrono::Utc::now().date_naive().num_days_from_ce() }
}

/// The proximity bucket of day `day` seen from day `today`.
pub open spec fn class_of(day: int, today: int) -> DateClass {
    if day < today {
        DateClass::Overdue
    } else if day <= today + 7 {
        DateClass::DueThisWeek
    } else if day <= today + 14 {
        DateClass::DueInTwoWeeks
    } else {
        DateClass::Distant
    }
}

/// The terminal colour code that marks each bucket.
pub open spec fn class_marker(c: DateClass) -> Seq<char> {
    match c {
        DateClass::Overdue => "\u{1b}[30m"@,
        DateClass::DueThisWeek => "\u{1b}[31m"@,
        DateClass::DueInTwoWeeks => "\u{1b}[33m"@,
        DateClass::Distant => "\u{1b}[32m"@,
    }
}

/// The code that ends a colour mark.
pub open spec fn reset_marker() -> Seq<char> {
    "\u{1b}[0m"@
}

/// A date cell: a date that reads as `YYYY-MM-DD`, written back in that form and
/// wrapped in the marker of its bucket; any other text unchanged.
pub open spec fn colored_date_text(s: Seq<char>, today: int) -> Seq<char> {
    match iso_date_day(s) {
        Some(day) => match iso_day_text(day) {
            Some(t) => class_marker(class_of(day, today)) + t + reset_marker(),
            None => s,
        },
        None => s,
    }
}

/// Sorts a date into its proximity bucket relative to `today`.
pub fn classify_date(date: Date, today: Date) -> (r: DateClass)
    ensures
        r == class_of(date.days as int, today.days as int),
{
    let day = date.days as i64;
    let now = today.days as i64;
    if day < now {
        DateClass::Overdue
    } else if day <= now + 7 {
        DateClass::DueThisWeek
    } else if day <= now + 14 {
        DateClass::DueInTwoWeeks
    } else {
        DateClass::Distant
    }
}

fn marker_str(c: DateClass) -> (r: &'static str)
    ensures
        r@ == class_marker(c),
{
    match c {
        DateClass::Overdue => "\u{1b}[30m",
        DateClass::DueThisWeek => "\u{1b}[31m",
        DateClass::DueInTwoWeeks => "\u{1b}[33m",
        DateClass::Distant => "\u{1b}[32m",
    }
}

/// Marks a date cell with the colour of its bucket relative to `today`; text that
/// is not a date passes through unmarked.
pub fn add_date_color(date: &str, today: Date) -> (r: String)
    ensures
        r@ == colored_date_text(date@, today.days as int),
{
    match parse_iso_date(date) {
        Some(day) => match format_iso_date(day) {
            Some(text) => {
                let mut out = marker_str(classify_date(day, today)).to_owned();
                out.append(text.as_str());
                out.append("\u{1b}[0m");
                out
            },
            None => date.to_owned(),
        },
        None => date.to_owned(),
    }
}

} // verus!
