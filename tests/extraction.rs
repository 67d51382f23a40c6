use lp_rs::date::{parse_date, CalendarDate};
use lp_rs::document::table_rows;
use lp_rs::errors::ScraperError;
use lp_rs::patterns::Patterns;
use lp_rs::study_period::{
    get_study_periods, is_period_row_text, parse_study_period, periods_from_rows, study_periods_for, StudyPeriod,
};
use lp_rs::study_year::{
    get_study_year, parse_year, resolve_year, study_year_for, study_year_from, YearMarker, YearPolicy,
};
use lp_rs::text::{classify_tokens, clean_tokens, parse_decimal};

fn patterns() -> Patterns {
    Patterns::new().unwrap()
}

fn strings(v: &[&str]) -> Vec<String> {
    v.iter().map(|s| s.to_string()).collect()
}

fn date(year: i32, month: u32, day: u32) -> CalendarDate {
    CalendarDate { year, month, day }
}

const PAGE: &str = "<html><body><h1>Läsår 2024/2025</h1><table>\
<tr><th>Period</th><th>Start</th><th>Slut</th></tr>\
<tr><td>Läsperiod 1</td><td> 2024-08-26 </td><td>2024-10-27</td></tr>\
<tr><td>Omtentamen</td><td>2024-10-28</td><td>2024-11-02</td></tr>\
<tr><td>Läsperiod 2</td><td>2024-10-28</td><td>2025-01-19</td></tr>\
</table></body></html>";

#[test]
fn date_token_parses_to_its_date() {
    assert_eq!(parse_date("2024-08-26").unwrap(), date(2024, 8, 26));
    assert_ne!(parse_date("2024-08-26").unwrap(), date(2024, 8, 27));
}

#[test]
fn date_token_with_invalid_month_fails() {
    match parse_date("2024-13-01") {
        Err(ScraperError::DateParse { token }) => assert_eq!(token, "2024-13-01"),
        other => panic!("unexpected {:?}", other),
    }
}

#[test]
fn date_token_with_invalid_day_fails() {
    assert!(matches!(parse_date("2023-02-29"), Err(ScraperError::DateParse { .. })));
    assert_eq!(parse_date("2024-02-29").unwrap(), date(2024, 2, 29));
}

#[test]
fn calendar_date_from_ymd_checks_the_calendar() {
    assert_eq!(CalendarDate::from_ymd(2024, 2, 29), Some(date(2024, 2, 29)));
    assert_eq!(CalendarDate::from_ymd(2023, 2, 29), None);
    assert_eq!(CalendarDate::from_ymd(2024, 4, 31), None);
    assert_eq!(CalendarDate::from_ymd(2024, 13, 1), None);
    assert_eq!(CalendarDate::from_ymd(262143, 1, 1), None);
}

#[test]
fn study_year_2024_spans_august_to_july() {
    let y = study_year_from(2024).unwrap();
    assert_eq!(y.year, 2024);
    assert_eq!(y.start_date, date(2024, 8, 1));
    assert_eq!(y.end_date, date(2025, 7, 31));
}

#[test]
fn study_year_at_the_end_of_the_range_fails() {
    assert!(matches!(
        study_year_from(262142),
        Err(ScraperError::BoundaryDate { year: 262143, month: 7, day: 31 })
    ));
    assert!(matches!(
        study_year_from(i32::MAX),
        Err(ScraperError::BoundaryDate { year: i32::MAX, month: 8, day: 1 })
    ));
}

#[test]
fn get_study_year_reads_the_marker() {
    let y = get_study_year(PAGE, &patterns(), YearPolicy::Strict).unwrap();
    assert_eq!(y.year, 2024);
    assert_eq!(y.start_date, date(2024, 8, 1));
    assert_eq!(y.end_date, date(2025, 7, 31));
}

#[test]
fn period_row_with_padding_builds_period_one() {
    let p = patterns();
    let tokens = strings(&["Läsperiod 1", "padding", "2024-08-26", "2024-10-27"]);
    assert_eq!(classify_tokens(&tokens, &p), strings(&["Läsperiod 1", "2024-08-26", "2024-10-27"]));
    let period = parse_study_period(&tokens, 2024, &p).unwrap();
    assert_eq!(
        period,
        StudyPeriod { year: 2024, period: 1, start_date: date(2024, 8, 26), end_date: date(2024, 10, 27) }
    );
}

#[test]
fn year_marker_yields_the_first_year() {
    let doc = "<p>Datum för Läsår 2024/2025 gäller</p>";
    assert_eq!(parse_year(doc, &patterns()).unwrap(), YearMarker::Found(2024));
}

#[test]
fn periods_query_reports_count_two_for_row_without_label() {
    let doc = "<p>Läsår 2024/2025</p><table>\
<tr><td>Läsperiod</td><td>2024-08-26</td><td>2024-10-27</td></tr></table>";
    match get_study_periods(doc, &patterns()) {
        Err(ScraperError::TokenCount { count, tokens }) => {
            assert_eq!(count, 2);
            assert_eq!(tokens, strings(&["2024-08-26", "2024-10-27"]));
        }
        other => panic!("unexpected {:?}", other),
    }
}

#[test]
fn missing_marker_follows_the_policy() {
    let p = patterns();
    let doc = "<p>Läsår 2024</p>";
    assert_eq!(parse_year(doc, &p).unwrap(), YearMarker::NotFound);
    assert!(matches!(get_study_year(doc, &p, YearPolicy::Strict), Err(ScraperError::YearMarkerMissing)));
    let today = chrono::Datelike::year(&chrono::Utc::now());
    let y = get_study_year(doc, &p, YearPolicy::CurrentYearFallback).unwrap();
    assert_eq!(y.year, today);
    assert_eq!(y.start_date, date(today, 8, 1));
}

#[test]
fn resolve_year_applies_the_policy() {
    assert_eq!(resolve_year(YearMarker::Found(2023), YearPolicy::Strict, 2030).unwrap(), 2023);
    assert_eq!(resolve_year(YearMarker::NotFound, YearPolicy::CurrentYearFallback, 2030).unwrap(), 2030);
    assert!(matches!(
        resolve_year(YearMarker::NotFound, YearPolicy::Strict, 2030),
        Err(ScraperError::YearMarkerMissing)
    ));
}

#[test]
fn row_with_four_classified_tokens_fails_with_count_four() {
    let tokens = strings(&["Läsperiod 1", "2024-08-26", "2024-10-27", "2024-11-01"]);
    match parse_study_period(&tokens, 2024, &patterns()) {
        Err(ScraperError::TokenCount { count, tokens }) => {
            assert_eq!(count, 4);
            assert_eq!(tokens.len(), 4);
        }
        other => panic!("unexpected {:?}", other),
    }
}

#[test]
fn label_that_is_not_first_is_a_missing_label() {
    let tokens = strings(&["Vecka", "Läsperiod 3", "2025-01-20", "2025-03-23"]);
    assert!(matches!(parse_study_period(&tokens, 2024, &patterns()), Err(ScraperError::MissingPeriodLabel)));
}

#[test]
fn invalid_end_date_in_row_fails() {
    let tokens = strings(&["Läsperiod 2", "2024-10-28", "2025-02-30"]);
    match parse_study_period(&tokens, 2024, &patterns()) {
        Err(ScraperError::DateParse { token }) => assert_eq!(token, "2025-02-30"),
        other => panic!("unexpected {:?}", other),
    }
}

#[test]
fn clean_tokens_trims_and_drops_empty() {
    let nodes = strings(&["  Läsperiod 4 ", " \n ", "", "\t2025-03-24"]);
    assert_eq!(clean_tokens(&nodes), strings(&["Läsperiod 4", "2025-03-24"]));
}

#[test]
fn decimal_numerals() {
    assert_eq!(parse_decimal("2024"), Some(2024));
    assert_eq!(parse_decimal("007"), Some(7));
    assert_eq!(parse_decimal("123456789"), Some(123456789));
    assert_eq!(parse_decimal(""), None);
    assert_eq!(parse_decimal("12a"), None);
    assert_eq!(parse_decimal("1234567890"), None);
    assert_eq!(parse_decimal("-1"), None);
}

#[test]
fn period_marker_is_found_across_text_nodes() {
    assert!(is_period_row_text(&strings(&["Läs", "period 2"])));
    assert!(!is_period_row_text(&strings(&["Läs period 2"])));
    assert!(!is_period_row_text(&strings(&[])));
}

#[test]
fn table_rows_lists_text_nodes_in_order() {
    let rows = table_rows(PAGE).unwrap();
    assert_eq!(rows.len(), 4);
    assert_eq!(rows[1], strings(&["Läsperiod 1", " 2024-08-26 ", "2024-10-27"]));
}

#[test]
fn periods_from_rows_skips_other_rows_and_stops_at_first_failure() {
    let p = patterns();
    let rows = vec![
        strings(&["Tentamen", "2024-10-28"]),
        strings(&["Läsperiod 1", "2024-08-26", "2024-10-27"]),
        strings(&["Läsperiod 2", "2024-10-28"]),
        strings(&["Läsperiod 3", "2025-01-20", "2025-13-01"]),
    ];
    assert!(matches!(periods_from_rows(&rows, 2024, &p), Err(ScraperError::TokenCount { count: 2, .. })));
    let ok = periods_from_rows(&rows[..2].to_vec(), 2024, &p).unwrap();
    assert_eq!(ok.len(), 1);
    assert_eq!(ok[0].period, 1);
}

#[test]
fn periods_query_on_full_page() {
    let periods = get_study_periods(PAGE, &patterns()).unwrap();
    assert_eq!(
        periods,
        vec![
            StudyPeriod { year: 2024, period: 1, start_date: date(2024, 8, 26), end_date: date(2024, 10, 27) },
            StudyPeriod { year: 2024, period: 2, start_date: date(2024, 10, 28), end_date: date(2025, 1, 19) },
        ]
    );
}

#[test]
fn year_query_with_given_current_year() {
    let p = patterns();
    let y = study_year_for("<p>inget</p>", &p, YearPolicy::CurrentYearFallback, 2030).unwrap();
    assert_eq!(y.start_date, date(2030, 8, 1));
    assert_eq!(y.end_date, date(2031, 7, 31));
    assert_eq!(study_year_for(PAGE, &p, YearPolicy::CurrentYearFallback, 2030).unwrap().year, 2024);
    assert!(matches!(
        study_year_for("<p>inget</p>", &p, YearPolicy::Strict, 2030),
        Err(ScraperError::YearMarkerMissing)
    ));
}

#[test]
fn periods_query_with_given_current_year() {
    let doc = "<table><tr><td>Läsperiod 3</td><td>2031-01-20</td><td>2031-03-23</td></tr></table>";
    let periods = study_periods_for(doc, &patterns(), 2030).unwrap();
    assert_eq!(
        periods,
        vec![StudyPeriod { year: 2030, period: 3, start_date: date(2031, 1, 20), end_date: date(2031, 3, 23) }]
    );
}

#[test]
fn extra_unclassified_token_changes_nothing() {
    let p = patterns();
    let base = strings(&["Läsperiod 2", "2024-10-28", "2025-01-19"]);
    let padded = strings(&["Läsperiod 2", "2024-10-28", "vecka 44", "2025-01-19"]);
    assert_eq!(parse_study_period(&base, 2024, &p).unwrap(), parse_study_period(&padded, 2024, &p).unwrap());
}
