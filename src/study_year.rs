use vstd::prelude::*;
use crate::date::{current_year, valid_ymd, CalendarDate, MAX_YEAR, MIN_YEAR};
use crate::errors::{result_model, ErrorModel, ScraperError};
use crate::patterns::{regex_first_group, Patterns, YEAR_PATTERN};
use crate::text::{decimal_value, parse_decimal};

verus! {

/// What the search for the year marker found.
#[derive(Debug, Clone, Copy, PartialEq, Eq, Structural)]
pub enum YearMarker {
    /// The marker is present and announces this starting year.
    Found(i32),
    /// The document holds no year marker.
    NotFound,
}

/// What a query does when the document holds no year marker.
#[derive(Debug, Clone, Copy, PartialEq, Eq, Structural)]
pub enum YearPolicy {
    /// Take the current calendar year instead; the query does not fail.
    CurrentYearFallback,
    /// Fail with [`ScraperError::YearMarkerMissing`].
    Strict,
}

/// One academic year and its boundaries.
#[derive(Debug, Clone, Copy, PartialEq, Eq, Structural)]
pub struct StudyYear {
    /// The starting calendar year (2024 stands for 2024/2025).
    pub year: i32,
    /// August 1 of `year`.
    pub start_date: CalendarDate,
    /// July 31 of `year + 1`.
    pub end_date: CalendarDate,
}

/// What the search for the year marker in the document text yields: the
/// captured four digits read as a number, no marker, or a numeric failure.
pub open spec fn year_lookup(html: Seq<char>) -> Result<YearMarker, ErrorModel> {
    match regex_first_group(YEAR_PATTERN@, html) {
        None => Ok(YearMarker::NotFound),
        Some(digits) => match decimal_value(digits) {
            None => Err(ErrorModel::NumericParse { text: digits }),
            Some(y) => Ok(YearMarker::Found(y)),
        },
    }
}

/// Searches the document text for the year marker and reads its first year.
pub fn parse_year(html: &str, patterns: &Patterns) -> (r: Result<YearMarker, ScraperError>)
    requires
        patterns.wf(),
    ensures
        result_model(r) == year_lookup(html@),
{
    match patterns.year.first_group(html) {
        None => Ok(YearMarker::NotFound),
        Some(digits) => match parse_decimal(digits.as_str()) {
            None => Err(ScraperError::NumericParse { text: digits }),
            Some(y) => Ok(YearMarker::Found(y)),
        },
    }
}

/// The academic year a query works with, given the marker search, the policy
/// for a missing marker and the current year `today`.
pub open spec fn resolved_year(html: Seq<char>, policy: YearPolicy, today: i32) -> Result<i32, ErrorModel> {
    match year_lookup(html) {
        Err(e) => Err(e),
        Ok(YearMarker::Found(y)) => Ok(y),
        Ok(YearMarker::NotFound) => match policy {
            YearPolicy::CurrentYearFallback => Ok(today),
            YearPolicy::Strict => Err(ErrorModel::YearMarkerMissing),
        },
    }
}

/// Whether the document alone settles the year, without the current year.
pub open spec fn year_settled_by_document(html: Seq<char>, policy: YearPolicy) -> bool {
    !(year_lookup(html) == Ok::<YearMarker, ErrorModel>(YearMarker::NotFound)
        && policy == YearPolicy::CurrentYearFallback)
}

/// Applies the policy for a missing marker to the outcome of the marker search.
pub fn resolve_year(marker: YearMarker, policy: YearPolicy, today: i32) -> (r: Result<i32, ScraperError>)
    ensures
        match marker {
            YearMarker::Found(y) => r == Ok::<i32, ScraperError>(y),
            YearMarker::NotFound => match policy {
                YearPolicy::CurrentYearFallback => r == Ok::<i32, ScraperError>(today),
                YearPolicy::Strict => r == Err::<i32, ScraperError>(ScraperError::YearMarkerMissing),
            },
        },
{
    match marker {
        YearMarker::Found(y) => Ok(y),
        YearMarker::NotFound => match policy {
            YearPolicy::CurrentYearFallback => Ok(today),
            YearPolicy::Strict => Err(ScraperError::YearMarkerMissing),
        },
    }
}

/// The academic year that starts in `year`: August 1 of `year` to July 31 of
/// the next year, or a failure naming the first boundary that cannot be
/// represented.
pub open spec fn study_year_outcome(year: i32) -> Result<StudyYear, ErrorModel> {
    if !valid_ymd(year as int, 8, 1) {
        Err(ErrorModel::BoundaryDate { year: year as int, month: 8, day: 1 })
    } else if !valid_ymd(year + 1, 7, 31) {
        Err(ErrorModel::BoundaryDate { year: year + 1, month: 7, day: 31 })
    } else {
        Ok(
            StudyYear {
                year,
                start_date: CalendarDate { year, month: 8, day: 1 },
                end_date: CalendarDate { year: (year + 1) as i32, month: 7, day: 31 },
            },
        )
    }
}

/// Derives the boundaries of the academic year that starts in `year`.
pub fn study_year_from(year: i32) -> (r: Result<StudyYear, ScraperError>)
    ensures
        result_model(r) == study_year_outcome(year),
        MIN_YEAR <= year < MAX_YEAR ==> r == Ok::<StudyYear, ScraperError>(
            StudyYear {
                year,
                start_date: CalendarDate { year, month: 8, day: 1 },
                end_date: CalendarDate { year: (year + 1) as i32, month: 7, day: 31 },
            },
        ),
{
    let start_date = match CalendarDate::from_ymd(year, 8, 1) {
        Some(d) => d,
        None => return Err(ScraperError::BoundaryDate { year, month: 8, day: 1 }),
    };
    let next = year + 1;
    let end_date = match CalendarDate::from_ymd(next, 7, 31) {
        Some(d) => d,
        None => return Err(ScraperError::BoundaryDate { year: next, month: 7, day: 31 }),
    };
    Ok(StudyYear { year, start_date, end_date })
}

/// What the year query yields for the document text, the policy and the
/// current year `today`.
pub open spec fn year_query_outcome(html: Seq<char>, policy: YearPolicy, today: i32) -> Result<StudyYear, ErrorModel> {
    match resolved_year(html, policy, today) {
        Err(e) => Err(e),
        Ok(y) => study_year_outcome(y),
    }
}

/// The academic year of the document, with `today` standing for the current
/// year where the policy falls back to it.
pub fn study_year_for(html: &str, patterns: &Patterns, policy: YearPolicy, today: i32) -> (r: Result<StudyYear, ScraperError>)
    requires
        patterns.wf(),
    ensures
        result_model(r) == year_query_outcome(html@, policy, today),
{
    let marker = match parse_year(html, patterns) {
        Ok(m) => m,
        Err(e) => return Err(e),
    };
    let year = match resolve_year(marker, policy, today) {
        Ok(y) => y,
        Err(e) => return Err(e),
    };
    study_year_from(year)
}

/// The academic year of the document. Where the marker is missing and the
/// policy falls back, the current calendar year is used.
pub fn get_study_year(html: &str, patterns: &Patterns, policy: YearPolicy) -> (r: Result<StudyYear, ScraperError>)
    requires
        patterns.wf(),
    ensures
        exists|today: i32| result_model(r) == year_query_outcome(html@, policy, today),
        forall|today: i32| year_settled_by_document(html@, policy)
            ==> result_model(r) == #[trigger] year_query_outcome(html@, policy, today),
{
    let ghost mut today: i32 = 0;
    let r = match parse_year(html, patterns) {
        Err(e) => Err(e),
        Ok(YearMarker::Found(y)) => study_year_from(y),
        Ok(YearMarker::NotFound) => match policy {
            YearPolicy::Strict => Err(ScraperError::YearMarkerMissing),
            YearPolicy::CurrentYearFallback => {
                let now = current_year();
                proof {
                    today = now;
                }
                study_year_from(now)
            },
        },
    };
    assert(result_model(r) == year_query_outcome(html@, policy, today));
    r
}

/// Without a year marker, the fallback policy yields the current year and the
/// strict policy fails with a missing-marker error, in the year query as well.
pub proof fn lemma_missing_marker_policy(html: Seq<char>, today: i32)
    requires
        regex_first_group(YEAR_PATTERN@, html) is None,
    ensures
        resolved_year(html, YearPolicy::CurrentYearFallback, today) == Ok::<i32, ErrorModel>(today),
        resolved_year(html, YearPolicy::Strict, today) == Err::<i32, ErrorModel>(ErrorModel::YearMarkerMissing),
        year_query_outcome(html, YearPolicy::CurrentYearFallback, today) == study_year_outcome(today),
        year_query_outcome(html, YearPolicy::Strict, today) == Err::<StudyYear, ErrorModel>(ErrorModel::YearMarkerMissing),
        MIN_YEAR <= today < MAX_YEAR ==> year_query_outcome(html, YearPolicy::CurrentYearFallback, today)
            == Ok::<StudyYear, ErrorModel>(
            StudyYear {
                year: today,
                start_date: CalendarDate { year: today, month: 8, day: 1 },
                end_date: CalendarDate { year: (today + 1) as i32, month: 7, day: 31 },
            },
        ),
{
}

} // verus!
