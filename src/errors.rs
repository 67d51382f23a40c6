use vstd::prelude::*;

verus! {

/// The ways in which an extraction can fail.
#[derive(Debug, Clone)]
pub enum ScraperError {
    /// The document could not be retrieved; carries the transport's message.
    Fetch(String),
    /// The element selector was refused by the tree library.
    Selector,
    /// One of the fixed text patterns failed to compile.
    Pattern,
    /// A calendar row did not hold exactly three classified tokens.
    TokenCount { count: usize, tokens: Vec<String> },
    /// The first token of a calendar row carries no period label.
    MissingPeriodLabel,
    /// A captured digit group is not a decimal number.
    NumericParse { text: String },
    /// A date token is not a calendar date in `YYYY-MM-DD` form.
    DateParse { token: String },
    /// A boundary date of the academic year cannot be represented.
    BoundaryDate { year: i32, month: u32, day: u32 },
    /// The document holds no year marker and the caller asked for no fallback.
    YearMarkerMissing,
}

/// The mathematical model of a [`ScraperError`]: strings become sequences of
/// characters.
pub enum ErrorModel {
    Fetch(Seq<char>),
    Selector,
    Pattern,
    TokenCount { count: nat, tokens: Seq<Seq<char>> },
    MissingPeriodLabel,
    NumericParse { text: Seq<char> },
    DateParse { token: Seq<char> },
    BoundaryDate { year: int, month: int, day: int },
    YearMarkerMissing,
}

/// The character sequences of a sequence of strings.
pub open spec fn views(v: Seq<String>) -> Seq<Seq<char>> {
    v.map_values(|s: String| s@)
}

impl View for ScraperError {
    type V = ErrorModel;

    open spec fn view(&self) -> ErrorModel {
        match self {
            ScraperError::Fetch(m) => ErrorModel::Fetch(m@),
            ScraperError::Selector => ErrorModel::Selector,
            ScraperError::Pattern => ErrorModel::Pattern,
            ScraperError::TokenCount { count, tokens } => ErrorModel::TokenCount {
                count: *count as nat,
                tokens: views(tokens@),
            },
            ScraperError::MissingPeriodLabel => ErrorModel::MissingPeriodLabel,
            ScraperError::NumericParse { text } => ErrorModel::NumericParse { text: text@ },
            ScraperError::DateParse { token } => ErrorModel::DateParse { token: token@ },
            ScraperError::BoundaryDate { year, month, day } => ErrorModel::BoundaryDate {
                year: *year as int,
                month: *month as int,
                day: *day as int,
            },
            ScraperError::YearMarkerMissing => ErrorModel::YearMarkerMissing,
        }
    }
}

/// The model of a result whose error is a [`ScraperError`].
pub open spec fn result_model<T>(r: Result<T, ScraperError>) -> Result<T, ErrorModel> {
    match r {
        Ok(v) => Ok(v),
        Err(e) => Err(e@),
    }
}

} // verus!
