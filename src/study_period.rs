use vstd::prelude::*;
use crate::date::{date_outcome, parse_date, CalendarDate};
use crate::date::current_year;
use crate::document::{document_rows, rows_view, table_rows};
use crate::errors::{result_model, views, ErrorModel, ScraperError};
use crate::patterns::{is_date_token, is_period_label, regex_first_group, Patterns, PERIOD_PATTERN};
use crate::study_year::{parse_year, resolve_year, resolved_year, YearMarker, YearPolicy, year_lookup};
use crate::text::{
    chars_of, classified, classify_tokens, clean_tokens, cleaned, contains_chars, contains_seq,
    decimal_value, flatten, flatten_nodes, lemma_unclassified_insert, parse_decimal,
};

verus! {

/// The text that marks a table row as a study-period row.
pub const PERIOD_MARKER: &'static str = "Läsperiod";

/// One numbered study period of an academic year.
#[derive(Debug, Clone, Copy, PartialEq, Eq, Structural)]
pub struct StudyPeriod {
    /// The academic year the period belongs to (its starting calendar year).
    pub year: i32,
    /// The period's number as printed on the page.
    pub period: i32,
    /// First day of the period, as printed.
    pub start_date: CalendarDate,
    /// Last day of the period, as printed.
    pub end_date: CalendarDate,
}

/// What building a period from a row's cleaned tokens yields.
///
/// The classified tokens must number exactly three. The period number is read
/// from the first cleaned token, which must carry a period label; the start and
/// end dates are the second and third classified tokens.
pub open spec fn period_outcome(tokens: Seq<Seq<char>>, year: i32) -> Result<StudyPeriod, ErrorModel> {
    let f = classified(tokens);
    if f.len() != 3 {
        Err(ErrorModel::TokenCount { count: f.len(), tokens: f })
    } else if tokens.len() == 0 {
        Err(ErrorModel::MissingPeriodLabel)
    } else {
        match regex_first_group(PERIOD_PATTERN@, tokens[0]) {
            None => Err(ErrorModel::MissingPeriodLabel),
            Some(digits) => match decimal_value(digits) {
                None => Err(ErrorModel::NumericParse { text: digits }),
                Some(period) => match date_outcome(f[1]) {
                    Err(e) => Err(e),
                    Ok(start_date) => match date_outcome(f[2]) {
                        Err(e) => Err(e),
                        Ok(end_date) => Ok(StudyPeriod { year, period, start_date, end_date }),
                    },
                },
            },
        }
    }
}

/// Builds the study period of one row from the row's cleaned tokens.
pub fn parse_study_period(tokens: &Vec<String>, year: i32, patterns: &Patterns) -> (r: Result<StudyPeriod, ScraperError>)
    requires
        patterns.wf(),
    ensures
        result_model(r) == period_outcome(views(tokens@), year),
{
    let filtered = classify_tokens(tokens, patterns);
    if filtered.len() != 3 {
        return Err(ScraperError::TokenCount { count: filtered.len(), tokens: filtered });
    }
    if tokens.len() == 0 {
        return Err(ScraperError::MissingPeriodLabel);
    }
    let digits = match patterns.period.first_group(tokens[0].as_str()) {
        Some(d) => d,
        None => return Err(ScraperError::MissingPeriodLabel),
    };
    let period = match parse_decimal(digits.as_str()) {
        Some(p) => p,
        None => return Err(ScraperError::NumericParse { text: digits }),
    };
    let start_date = match parse_date(filtered[1].as_str()) {
        Ok(d) => d,
        Err(e) => return Err(e),
    };
    let end_date = match parse_date(filtered[2].as_str()) {
        Ok(d) => d,
        Err(e) => return Err(e),
    };
    Ok(StudyPeriod { year, period, start_date, end_date })
}

/// A row whose joined text contains the period marker.
pub open spec fn is_period_row(nodes: Seq<Seq<char>>) -> bool {
    contains_seq(flatten(nodes), PERIOD_MARKER@)
}

/// Whether the joined text of a row's nodes contains the period marker.
pub fn is_period_row_text(nodes: &Vec<String>) -> (r: bool)
    ensures
        r == is_period_row(views(nodes@)),
{
    let text = flatten_nodes(nodes);
    let marker = chars_of(PERIOD_MARKER);
    contains_chars(&text, &marker)
}

/// What building the periods of a document's rows yields: the rows that are not
/// period rows are skipped, the others are built in order, and the first
/// failure is the outcome.
pub open spec fn rows_outcome(rows: Seq<Seq<Seq<char>>>, year: i32) -> Result<Seq<StudyPeriod>, ErrorModel>
    decreases rows.len(),
{
    if rows.len() == 0 {
        Ok(Seq::empty())
    } else {
        match rows_outcome(rows.drop_last(), year) {
            Err(e) => Err(e),
            Ok(done) => if !is_period_row(rows.last()) {
                Ok(done)
            } else {
                match period_outcome(cleaned(rows.last()), year) {
                    Err(e) => Err(e),
                    Ok(p) => Ok(done.push(p)),
                }
            },
        }
    }
}

/// The model of a result that holds a list of periods.
pub open spec fn periods_model(r: Result<Vec<StudyPeriod>, ScraperError>) -> Result<Seq<StudyPeriod>, ErrorModel> {
    match r {
        Ok(v) => Ok(v@),
        Err(e) => Err(e@),
    }
}

/// Builds a period from every period row, in row order, stopping at the first
/// row that fails.
pub fn periods_from_rows(rows: &Vec<Vec<String>>, year: i32, patterns: &Patterns) -> (r: Result<Vec<StudyPeriod>, ScraperError>)
    requires
        patterns.wf(),
    ensures
        periods_model(r) == rows_outcome(rows_view(rows@), year),
{
    let mut out: Vec<StudyPeriod> = Vec::new();
    let mut i: usize = 0;
    while i < rows.len()
        invariant
            i <= rows.len(),
            patterns.wf(),
            rows_outcome(rows_view(rows@.subrange(0, i as int)), year) == Ok::<Seq<StudyPeriod>, ErrorModel>(out@),
        decreases rows.len() - i,
    {
        let row = &rows[i];
        proof {
            assert(rows_view(rows@.subrange(0, i + 1)).drop_last() =~= rows_view(rows@.subrange(0, i as int)));
            assert(rows_view(rows@.subrange(0, i + 1)).last() == views(rows@[i as int]@));
        }
        if is_period_row_text(row) {
            let tokens = clean_tokens(row);
            match parse_study_period(&tokens, year, patterns) {
                Ok(p) => out.push(p),
                Err(e) => {
                    proof {
                        lemma_failure_persists(rows_view(rows@), i as int + 1, year);
                        assert(rows_view(rows@).subrange(0, i + 1) =~= rows_view(rows@.subrange(0, i + 1)));
                        assert(rows_view(rows@).subrange(0, rows@.len() as int) =~= rows_view(rows@));
                    }
                    return Err(e);
                },
            }
        }
        i += 1;
    }
    assert(rows@.subrange(0, rows.len() as int) =~= rows@);
    Ok(out)
}

/// Once a prefix of the rows fails, every longer prefix fails the same way.
proof fn lemma_failure_persists(rows: Seq<Seq<Seq<char>>>, k: int, year: i32)
    requires
        0 <= k <= rows.len(),
        rows_outcome(rows.subrange(0, k), year) is Err,
    ensures
        rows_outcome(rows, year) == rows_outcome(rows.subrange(0, k), year),
    decreases rows.len() - k,
{
    if k < rows.len() {
        assert(rows.subrange(0, k + 1).drop_last() =~= rows.subrange(0, k));
        lemma_failure_persists(rows, k + 1, year);
    } else {
        assert(rows.subrange(0, k) =~= rows);
    }
}

/// What the periods query yields for the document text, with `today` standing
/// for the current year where the year marker is missing.
pub open spec fn periods_query_outcome(html: Seq<char>, today: i32) -> Result<Seq<StudyPeriod>, ErrorModel> {
    match document_rows(html) {
        None => Err(ErrorModel::Selector),
        Some(rows) => match resolved_year(html, YearPolicy::CurrentYearFallback, today) {
            Err(e) => Err(e),
            Ok(year) => rows_outcome(rows, year),
        },
    }
}

/// The study periods of the document, with `today` standing for the current
/// year where the year marker is missing.
pub fn study_periods_for(html: &str, patterns: &Patterns, today: i32) -> (r: Result<Vec<StudyPeriod>, ScraperError>)
    requires
        patterns.wf(),
    ensures
        periods_model(r) == periods_query_outcome(html@, today),
{
    let rows = match table_rows(html) {
        Ok(rows) => rows,
        Err(e) => return Err(e),
    };
    let marker = match parse_year(html, patterns) {
        Ok(m) => m,
        Err(e) => return Err(e),
    };
    let year = match resolve_year(marker, YearPolicy::CurrentYearFallback, today) {
        Ok(y) => y,
        Err(e) => return Err(e),
    };
    periods_from_rows(&rows, year, patterns)
}

/// The study periods of the document, one per period row, in the order in which
/// the tree library yields the rows.
/// Where the year marker is missing, the periods carry the current calendar year.
pub fn get_study_periods(html: &str, patterns: &Patterns) -> (r: Result<Vec<StudyPeriod>, ScraperError>)
    requires
        patterns.wf(),
    ensures
        exists|today: i32| periods_model(r) == periods_query_outcome(html@, today),
        forall|today: i32| year_lookup(html@) != Ok::<YearMarker, ErrorModel>(YearMarker::NotFound)
            ==> periods_model(r) == #[trigger] periods_query_outcome(html@, today),
{
    let ghost mut today: i32 = 0;
    let r = match table_rows(html) {
        Err(e) => Err(e),
        Ok(rows) => match parse_year(html, patterns) {
            Err(e) => Err(e),
            Ok(YearMarker::Found(y)) => periods_from_rows(&rows, y, patterns),
            Ok(YearMarker::NotFound) => {
                let now = current_year();
                proof {
                    today = now;
                }
                periods_from_rows(&rows, now, patterns)
            },
        },
    };
    assert(periods_model(r) == periods_query_outcome(html@, today));
    r
}

/// A row whose cleaned tokens do not hold exactly three dates and period labels
/// fails with a count error that names the count and the classified tokens.
pub proof fn lemma_wrong_count_fails(tokens: Seq<Seq<char>>, year: i32)
    requires
        classified(tokens).len() != 3,
    ensures
        period_outcome(tokens, year) == Err::<StudyPeriod, ErrorModel>(
            ErrorModel::TokenCount { count: classified(tokens).len(), tokens: classified(tokens) },
        ),
{
}

/// A cleaned token after the first that is neither a date nor a period label
/// changes nothing in what a row builds, whether a period or a failure.
pub proof fn lemma_unclassified_token_ignored(tokens: Seq<Seq<char>>, year: i32, i: int, t: Seq<char>)
    requires
        1 <= i <= tokens.len(),
        !is_date_token(t),
        !is_period_label(t),
    ensures
        period_outcome(tokens.insert(i, t), year) == period_outcome(tokens, year),
{
    lemma_unclassified_insert(tokens, i, t);
    assert(tokens.insert(i, t)[0] == tokens[0]);
}

/// Where the year search succeeds and every period row before row `k` builds, a
/// period row `k` whose classified tokens do not number three makes the periods
/// query fail with a count error naming that count and those tokens; no list of
/// periods is returned.
pub proof fn lemma_first_miscounted_row_fails(html: Seq<char>, today: i32, k: int)
    requires
        document_rows(html) is Some,
        resolved_year(html, YearPolicy::CurrentYearFallback, today) is Ok,
        0 <= k < document_rows(html)->Some_0.len(),
        rows_outcome(
            document_rows(html)->Some_0.subrange(0, k),
            resolved_year(html, YearPolicy::CurrentYearFallback, today)->Ok_0,
        ) is Ok,
        is_period_row(document_rows(html)->Some_0[k]),
        classified(cleaned(document_rows(html)->Some_0[k])).len() != 3,
    ensures
        ({
            let f = classified(cleaned(document_rows(html)->Some_0[k]));
            periods_query_outcome(html, today) == Err::<Seq<StudyPeriod>, ErrorModel>(
                ErrorModel::TokenCount { count: f.len(), tokens: f },
            )
        }),
{
    let rows = document_rows(html)->Some_0;
    let year = resolved_year(html, YearPolicy::CurrentYearFallback, today)->Ok_0;
    assert(rows.subrange(0, k + 1).drop_last() =~= rows.subrange(0, k));
    assert(rows.subrange(0, k + 1).last() == rows[k]);
    lemma_failure_persists(rows, k + 1, year);
}

} // verus!
