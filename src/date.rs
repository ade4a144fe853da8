//! Calendar dates as the store writes them: eight digits, year first.
use vstd::prelude::*;
use chrono::Datelike;

verus! {

/// A day of the proleptic Gregorian calendar.
#[derive(Clone, Copy, Debug, PartialEq, Eq, Structural)]
pub struct CalendarDate {
    pub year: i32,
    pub month: u32,
    pub day: u32,
}

impl CalendarDate {
    pub open spec fn wf(&self) -> bool {
        1 <= self.month <= 12 && 1 <= self.day <= 31
    }
}

/// The store's date layout: four-digit year, month, day, no separators.
pub const STORED_DATE_FORMAT: &'static str = "%Y%m%d";

/// Year, month and day that chrono reads from a string in a strftime
/// format, or none where it reads no valid date.
pub uninterp spec fn parsed_ymd(s: Seq<char>, fmt: Seq<char>) -> Option<(i32, u32, u32)>;

/// Relies on `chrono::NaiveDate::parse_from_str`, and on `Datelike::month`
/// (1 to 12) and `Datelike::day` (1 to 31) of the date it returns.
#[verifier::external_body]
fn parse_ymd(s: &str, fmt: &str) -> (r: Option<(i32, u32, u32)>)
    ensures
        r == parsed_ymd(s@, fmt@),
        r matches Some((y, m, d)) ==> 1 <= m <= 12 && 1 <= d <= 31,
{
    chrono::NaiveDate::parse_from_str(s, fmt).ok().map(|d| (d.year(), d.month(), d.day()))
}

pub open spec fn date_of(s: Seq<char>) -> Option<CalendarDate> {
    match parsed_ymd(s, STORED_DATE_FORMAT@) {
        Some((y, m, d)) => Some(CalendarDate { year: y, month: m, day: d }),
        None => None,
    }
}

/// Reads a stored date; text that is no valid date reads as none, so a
/// malformed row never fails a view.
pub fn parse_date(s: &str) -> (r: Option<CalendarDate>)
    ensures
        r == date_of(s@),
        r matches Some(d) ==> d.wf(),
{
    match parse_ymd(s, STORED_DATE_FORMAT) {
        Some((year, month, day)) => Some(CalendarDate { year, month, day }),
        None => None,
    }
}

} // verus!
