use vstd::prelude::*;
use crate::errors::ScraperError;

verus! {

#[verifier::external_type_specification]
#[verifier::external_body]
pub struct ExRegex(regex::Regex);

/// A date token: four digits, dash, two digits, dash, two digits, and nothing else.
pub const DATE_PATTERN: &'static str = r"^\d{4}-\d{2}-\d{2}$";

/// A study-period label: the word for study period, a space and one digit,
/// which is captured.
pub const PERIOD_PATTERN: &'static str = r"Läsperiod (\d)";

/// The year marker: the word for academic year, a space, a four-digit year
/// (captured) and a slash followed by the next year.
pub const YEAR_PATTERN: &'static str = r"Läsår (?P<year>\d{4})/\d{4}";

/// Whether the regular expression `pattern` matches somewhere in `text`.
pub uninterp spec fn regex_is_match(pattern: Seq<char>, text: Seq<char>) -> bool;

/// The text of the first capture group of the leftmost match of `pattern` in
/// `text`, if there is a match and the group took part in it.
pub uninterp spec fn regex_first_group(pattern: Seq<char>, text: Seq<char>) -> Option<Seq<char>>;

/// The model of an optional string.
pub open spec fn opt_view(o: Option<String>) -> Option<Seq<char>> {
    match o {
        Some(s) => Some(s@),
        None => None,
    }
}

/// One of the three fixed patterns of the calendar page.
pub open spec fn is_fixed_pattern(pattern: Seq<char>) -> bool {
    pattern == DATE_PATTERN@ || pattern == PERIOD_PATTERN@ || pattern == YEAR_PATTERN@
}

/// Relies on regex's `Regex::new`, which compiles the pattern or reports why it
/// cannot. The three fixed patterns are valid expressions of its syntax well
/// within its default size limits, so they compile.
#[verifier::external_body]
fn compile_regex(pattern: &str) -> (r: Option<regex::Regex>)
    ensures
        is_fixed_pattern(pattern@) ==> r is Some,
{
    regex::Regex::new(pattern).ok()
}

/// A compiled regular expression together with the pattern it was compiled from.
pub struct Pattern {
    re: regex::Regex,
    source: Ghost<Seq<char>>,
}

impl Pattern {
    /// The pattern this expression was compiled from.
    pub closed spec fn source(&self) -> Seq<char> {
        self.source@
    }

    /// Compiles `pattern`; `None` where the regular-expression library refuses it,
    /// which it does not for the fixed patterns.
    pub fn compile(pattern: &str) -> (r: Option<Pattern>)
        ensures
            r is Some ==> r->Some_0.source() == pattern@,
            is_fixed_pattern(pattern@) ==> r is Some,
    {
        match compile_regex(pattern) {
            Some(re) => Some(Pattern { re, source: Ghost(pattern@) }),
            None => None,
        }
    }

    /// Relies on regex's `Regex::is_match`: whether the expression, compiled from
    /// `self.source()`, matches somewhere in `text`.
    #[verifier::external_body]
    pub fn is_match(&self, text: &str) -> (r: bool)
        ensures
            r == regex_is_match(self.source(), text@),
    {
        self.re.is_match(text)
    }

    /// Relies on regex's `Regex::captures` and `Captures::get`: the text of capture
    /// group 1 of the leftmost match in `text`.
    #[verifier::external_body]
    pub fn first_group(&self, text: &str) -> (r: Option<String>)
        ensures
            opt_view(r) == regex_first_group(self.source(), text@),
    {
        let caps = self.re.captures(text)?;
        Some(caps.get(1)?.as_str().to_string())
    }
}

/// The three fixed patterns of the calendar page, compiled once and shared by
/// every extraction that is handed them.
pub struct Patterns {
    pub date: Pattern,
    pub period: Pattern,
    pub year: Pattern,
}

impl Patterns {
    /// Each pattern was compiled from its fixed source text.
    pub open spec fn wf(&self) -> bool {
        &&& self.date.source() == DATE_PATTERN@
        &&& self.period.source() == PERIOD_PATTERN@
        &&& self.year.source() == YEAR_PATTERN@
    }

    /// Compiles the three patterns.
    pub fn new() -> (r: Result<Patterns, ScraperError>)
        ensures
            r is Ok,
            r->Ok_0.wf(),
    {
        let date = match Pattern::compile(DATE_PATTERN) {
            Some(p) => p,
            None => return Err(ScraperError::Pattern),
        };
        let period = match Pattern::compile(PERIOD_PATTERN) {
            Some(p) => p,
            None => return Err(ScraperError::Pattern),
        };
        let year = match Pattern::compile(YEAR_PATTERN) {
            Some(p) => p,
            None => return Err(ScraperError::Pattern),
        };
        Ok(Patterns { date, period, year })
    }
}

/// A cleaned token that the date pattern accepts.
pub open spec fn is_date_token(t: Seq<char>) -> bool {
    regex_is_match(DATE_PATTERN@, t)
}

/// A cleaned token that the period-label pattern accepts.
pub open spec fn is_period_label(t: Seq<char>) -> bool {
    regex_is_match(PERIOD_PATTERN@, t)
}

} // verus!
