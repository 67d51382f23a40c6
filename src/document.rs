use vstd::prelude::*;
use crate::errors::{views, ScraperError};

verus! {

/// The selector of table-row elements.
pub const ROW_SELECTOR: &'static str = "tr";

/// The text nodes of every element of the document `html` that `selector`
/// matches, elements in the order in which the parser created them and each
/// element's descendant text nodes in tree order; `None` where the selector is
/// refused.
pub uninterp spec fn selected_text_nodes(html: Seq<char>, selector: Seq<char>) -> Option<Seq<Seq<Seq<char>>>>;

/// The models of the text nodes of a sequence of rows.
pub open spec fn rows_view(rows: Seq<Vec<String>>) -> Seq<Seq<Seq<char>>> {
    rows.map_values(|row: Vec<String>| views(row@))
}

/// Relies on scraper: `Selector::parse` reads the selector or refuses it,
/// `Html::parse_document` builds the tree, `Html::select` yields the matching
/// elements in the order in which the parser created their nodes, and
/// `ElementRef::text` each element's text nodes.
/// The outcome depends on the two texts alone.
#[verifier::external_body]
fn select_text_nodes(html: &str, selector: &str) -> (r: Option<Vec<Vec<String>>>)
    ensures
        match r {
            Some(rows) => selected_text_nodes(html@, selector@) == Some(rows_view(rows@)),
            None => selected_text_nodes(html@, selector@) is None,
        },
{
    let selector = scraper::Selector::parse(selector).ok()?;
    let document = scraper::Html::parse_document(html);
    let mut rows: Vec<Vec<String>> = Vec::new();
    for element in document.select(&selector) {
        rows.push(element.text().map(str::to_string).collect());
    }
    Some(rows)
}

/// The text nodes of the document's table rows.
pub open spec fn document_rows(html: Seq<char>) -> Option<Seq<Seq<Seq<char>>>> {
    selected_text_nodes(html, ROW_SELECTOR@)
}

/// Lists the text nodes of every table row of the document, rows in the order in
/// which the parser created them.
pub fn table_rows(html: &str) -> (r: Result<Vec<Vec<String>>, ScraperError>)
    ensures
        match r {
            Ok(rows) => document_rows(html@) == Some(rows_view(rows@)),
            Err(e) => document_rows(html@) is None && e == ScraperError::Selector,
        },
{
    match select_text_nodes(html, ROW_SELECTOR) {
        Some(rows) => Ok(rows),
        None => Err(ScraperError::Selector),
    }
}

} // verus!
