//! What the extractor reads from a page. Parsing the markup, matching the
//! selectors and collecting text are `scraper`'s; each lookup below parses the
//! page text it is given, so its result depends on its arguments alone.
use vstd::prelude::*;

use scraper::{Html, Selector};

verus! {

/// Text of the first element of page `html` that selector `css` matches;
/// absent when none matches.
pub uninterp spec fn first_match_text(html: Seq<char>, css: Seq<char>) -> Option<Seq<char>>;

/// Number of elements matched by `row_css` inside the first element of page
/// `html` that `table_css` matches; zero when there is no such element.
pub uninterp spec fn table_row_count(html: Seq<char>, table_css: Seq<char>, row_css: Seq<char>) -> nat;

/// For each of those rows, in page order, the text of the first element
/// inside it that `field_css` matches, if any.
pub uninterp spec fn row_match_texts(
    html: Seq<char>,
    table_css: Seq<char>,
    row_css: Seq<char>,
    field_css: Seq<char>,
) -> Seq<Option<Seq<char>>>;

/// For each of those rows, in page order, the value of attribute `attr` of
/// the first element inside it that `field_css` matches, if it has one.
pub uninterp spec fn row_match_attrs(
    html: Seq<char>,
    table_css: Seq<char>,
    row_css: Seq<char>,
    field_css: Seq<char>,
    attr: Seq<char>,
) -> Seq<Option<Seq<char>>>;

/// The view of an optional string.
pub open spec fn opt_view(o: Option<String>) -> Option<Seq<char>> {
    match o {
        Some(s) => Some(s@),
        None => None,
    }
}

/// The views of a sequence of optional strings.
pub open spec fn opt_views(v: Seq<Option<String>>) -> Seq<Option<Seq<char>>> {
    v.map_values(|o: Option<String>| opt_view(o))
}

/// Relies on `scraper::Html::parse_document`, `scraper::Selector::parse`,
/// `scraper::Html::select` and `scraper::ElementRef::text`: the text of the
/// first match of `css`, concatenated; none when nothing matches or `css`
/// is not a selector.
#[verifier::external_body]
pub(crate) fn page_first_text(html: &str, css: &str) -> (r: Option<String>)
    ensures
        opt_view(r) == first_match_text(html@, css@),
{
    let doc = Html::parse_document(html);
    match Selector::parse(css) {
        Ok(q) => doc.select(&q).next().map(|e| e.text().collect()),
        Err(_) => None,
    }
}

/// Relies on `scraper::Html::parse_document`, `scraper::Selector::parse`,
/// `scraper::Html::select`, `scraper::ElementRef::select` and
/// `scraper::ElementRef::text`: one entry per row of the first table match.
#[verifier::external_body]
pub(crate) fn row_texts(html: &str, table_css: &str, row_css: &str, field_css: &str) -> (r: Vec<
    Option<String>,
>)
    ensures
        opt_views(r@) == row_match_texts(html@, table_css@, row_css@, field_css@),
        r@.len() == table_row_count(html@, table_css@, row_css@),
{
    let doc = Html::parse_document(html);
    let field = Selector::parse(field_css).ok();
    match (Selector::parse(table_css), Selector::parse(row_css)) {
        (Ok(t), Ok(q)) => match doc.select(&t).next() {
            Some(table) => table
                .select(&q)
                .map(|row| field.as_ref().and_then(|f| row.select(f).next()))
                .map(|found| found.map(|e| e.text().collect()))
                .collect(),
            None => Vec::new(),
        },
        _ => Vec::new(),
    }
}

/// Relies on the same `scraper` functions as `row_texts`, with
/// `scraper::ElementRef::attr` in place of `text`: one entry per row.
#[verifier::external_body]
pub(crate) fn row_attrs(
    html: &str,
    table_css: &str,
    row_css: &str,
    field_css: &str,
    attr: &str,
) -> (r: Vec<Option<String>>)
    ensures
        opt_views(r@) == row_match_attrs(html@, table_css@, row_css@, field_css@, attr@),
        r@.len() == table_row_count(html@, table_css@, row_css@),
{
    let doc = Html::parse_document(html);
    let field = Selector::parse(field_css).ok();
    match (Selector::parse(table_css), Selector::parse(row_css)) {
        (Ok(t), Ok(q)) => match doc.select(&t).next() {
            Some(table) => table
                .select(&q)
                .map(|row| field.as_ref().and_then(|f| row.select(f).next()))
                .map(|found| found.and_then(|e| e.attr(attr)).map(|v| v.to_string()))
                .collect(),
            None => Vec::new(),
        },
        _ => Vec::new(),
    }
}

} // verus!
