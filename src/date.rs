use vstd::prelude::*;
use crate::errors::{result_model, ErrorModel, ScraperError};
use crate::text::{digits_value, is_ascii_digit};

verus! {

/// The earliest year that the date library can represent.
pub const MIN_YEAR: i32 = -262143;

/// The latest year that the date library can represent.
pub const MAX_YEAR: i32 = 262142;

/// The textual form of a date token: four-digit year, two-digit month and
/// two-digit day, separated by dashes.
pub const DATE_FORMAT: &'static str = "%Y-%m-%d";

/// Leap years of the proleptic Gregorian calendar.
pub open spec fn is_leap_year(y: int) -> bool {
    (y % 4 == 0 && y % 100 != 0) || y % 400 == 0
}

/// The number of days of month `m` (1 to 12) in year `y`.
pub open spec fn days_in_month(y: int, m: int) -> int {
    if m == 2 {
        if is_leap_year(y) { 29 } else { 28 }
    } else if m == 4 || m == 6 || m == 9 || m == 11 {
        30
    } else {
        31
    }
}

/// A representable calendar date: the month and the day exist in that year,
/// and the year lies in the representable range.
pub open spec fn valid_ymd(y: int, m: int, d: int) -> bool {
    &&& MIN_YEAR <= y <= MAX_YEAR
    &&& 1 <= m <= 12
    &&& 1 <= d <= days_in_month(y, m)
}

/// Year, month and day of what the date library reads from `text` under `format`,
/// if it reads a date.
pub uninterp spec fn chrono_parsed_date(text: Seq<char>, format: Seq<char>) -> Option<(i32, u32, u32)>;

/// Text of the form `YYYY-MM-DD` written with ASCII digits.
pub open spec fn is_iso_date_shape(s: Seq<char>) -> bool {
    &&& s.len() == 10
    &&& s[4] == '-'
    &&& s[7] == '-'
    &&& forall|i: int| 0 <= i < 10 && i != 4 && i != 7 ==> #[trigger] is_ascii_digit(s[i])
}

/// Year, month and day written in text of the form `YYYY-MM-DD`.
pub open spec fn iso_date_fields(s: Seq<char>) -> (i32, u32, u32) {
    (
        digits_value(s.subrange(0, 4)) as i32,
        digits_value(s.subrange(5, 7)) as u32,
        digits_value(s.subrange(8, 10)) as u32,
    )
}

/// What reading text of the form `YYYY-MM-DD` under [`DATE_FORMAT`] yields: its
/// fields where they name a valid date, nothing otherwise.
pub open spec fn iso_date_reading(s: Seq<char>) -> Option<(i32, u32, u32)> {
    let (y, m, d) = iso_date_fields(s);
    if valid_ymd(y as int, m as int, d as int) {
        Some((y, m, d))
    } else {
        None
    }
}

/// A parsed date, if there is one, is a valid date.
pub open spec fn parsed_date_is_valid(r: Option<(i32, u32, u32)>) -> bool {
    match r {
        Some((y, m, d)) => valid_ymd(y as int, m as int, d as int),
        None => true,
    }
}

/// Relies on chrono's `NaiveDate::from_ymd_opt`: it returns a date exactly when the
/// month and day exist in that year of the proleptic Gregorian calendar and the
/// year lies in the library's range; `Datelike` hands back the same fields.
#[verifier::external_body]
fn naive_date_from_ymd(year: i32, month: u32, day: u32) -> (r: Option<(i32, u32, u32)>)
    ensures
        r == (if valid_ymd(year as int, month as int, day as int) {
            Some((year, month, day))
        } else {
            None
        }),
{
    chrono::NaiveDate::from_ymd_opt(year, month, day).map(
        |d| (chrono::Datelike::year(&d), chrono::Datelike::month(&d), chrono::Datelike::day(&d)),
    )
}

/// Relies on chrono's `NaiveDate::parse_from_str`: the outcome depends on the text
/// and the format alone, and every date it returns is a valid `NaiveDate`. Under
/// `%Y-%m-%d`, an unsigned year is read at width four and month and day at width
/// two, so text of the form `YYYY-MM-DD` yields its own fields when they name a
/// valid date and nothing otherwise.
#[verifier::external_body]
fn naive_date_parse(text: &str, format: &str) -> (r: Option<(i32, u32, u32)>)
    ensures
        r == chrono_parsed_date(text@, format@),
        parsed_date_is_valid(r),
        format@ == DATE_FORMAT@ && is_iso_date_shape(text@) ==> r == iso_date_reading(text@),
{
    chrono::NaiveDate::parse_from_str(text, format).ok().map(
        |d| (chrono::Datelike::year(&d), chrono::Datelike::month(&d), chrono::Datelike::day(&d)),
    )
}

/// Relies on chrono's `From<SystemTime> for DateTime<Utc>` (which also takes clock
/// readings before 1970) and `Datelike::year`: the calendar year of the current
/// UTC date. It depends on the clock, so nothing is stated of it.
#[verifier::external_body]
pub(crate) fn current_year() -> (r: i32) {
    chrono::Datelike::year(&chrono::DateTime::<chrono::Utc>::from(std::time::SystemTime::now()))
}

/// A calendar date of the proleptic Gregorian calendar.
#[derive(Debug, Clone, Copy, PartialEq, Eq, Structural)]
pub struct CalendarDate {
    pub year: i32,
    pub month: u32,
    pub day: u32,
}

impl CalendarDate {
    /// The date names a day that exists.
    pub open spec fn valid(&self) -> bool {
        valid_ymd(self.year as int, self.month as int, self.day as int)
    }

    /// The date with these fields, if it exists and is representable.
    pub fn from_ymd(year: i32, month: u32, day: u32) -> (r: Option<CalendarDate>)
        ensures
            r == (if valid_ymd(year as int, month as int, day as int) {
                Some(CalendarDate { year, month, day })
            } else {
                None
            }),
    {
        match naive_date_from_ymd(year, month, day) {
            Some((y, m, d)) => Some(CalendarDate { year: y, month: m, day: d }),
            None => None,
        }
    }
}

/// What reading a date token yields: the date that the date library reads under
/// [`DATE_FORMAT`], or a date-parse failure naming the token.
pub open spec fn date_outcome(token: Seq<char>) -> Result<CalendarDate, ErrorModel> {
    match chrono_parsed_date(token, DATE_FORMAT@) {
        Some((y, m, d)) => Ok(CalendarDate { year: y, month: m, day: d }),
        None => Err(ErrorModel::DateParse { token }),
    }
}

/// Reads a date token of the form `YYYY-MM-DD`.
pub fn parse_date(token: &str) -> (r: Result<CalendarDate, ScraperError>)
    ensures
        result_model(r) == date_outcome(token@),
        r is Ok ==> r->Ok_0.valid(),
        is_iso_date_shape(token@) ==> (r is Ok <==> iso_date_reading(token@) is Some),
        is_iso_date_shape(token@) && r is Ok ==> ({
            let (y, m, d) = iso_date_fields(token@);
            r->Ok_0 == CalendarDate { year: y, month: m, day: d }
        }),
{
    match naive_date_parse(token, DATE_FORMAT) {
        Some((y, m, d)) => Ok(CalendarDate { year: y, month: m, day: d }),
        None => Err(ScraperError::DateParse { token: token.to_owned() }),
    }
}

} // verus!
