//! The decisions of the search front ends (command line and browser): which
//! query a search scope runs, how arguments and URL parameters are read, and
//! how results are paged.
use vstd::prelude::*;

use crate::query::{basic_model, in_field_q, with_fields, with_page, Field, QueryModel, SearchQuery};
use crate::doc::HalDoc;
use crate::text::{
    decimal, decimal_i64, decimal_u64, join, join_strings, parse_u32, parse_u32_spec,
    signed_decimal, str_eq, str_views, string_views,
};

verus! {

/// Results per page in the browser front end.
pub const PAGE_SIZE: u32 = 20;

/// The fields the front ends ask HAL to return, in order.
pub open spec fn returned_fields() -> Seq<Seq<char>> {
    seq![
        "docid"@,
        "label_s"@,
        "uri_s"@,
        "title_s"@,
        "authFullName_s"@,
        "producedDate_s"@,
        "docType_s"@,
    ]
}

/// The fields the front ends ask HAL to return, in order.
pub fn returned_field_names() -> (r: Vec<&'static str>)
    ensures
        str_views(r@) == returned_fields(),
{
    let r = vec!["docid", "label_s", "uri_s", "title_s", "authFullName_s", "producedDate_s", "docType_s"];
    assert(str_views(r@) =~= returned_fields());
    r
}

/// The field a search scope of the browser front end is restricted to:
/// `title`, `author`, `abstract` or `keyword`; any other scope searches all fields.
pub open spec fn scope_field(scope: Seq<char>) -> Option<Field> {
    if scope == "title"@ {
        Some(Field::Title)
    } else if scope == "author"@ {
        Some(Field::Author)
    } else if scope == "abstract"@ {
        Some(Field::Abstract)
    } else if scope == "keyword"@ {
        Some(Field::Keyword)
    } else {
        None
    }
}

/// The search a scope runs for `query`, before fields and paging are set.
pub open spec fn scoped_model(scope: Seq<char>, query: Seq<char>) -> QueryModel {
    match scope_field(scope) {
        Some(f) => basic_model(in_field_q(f, query)),
        None => basic_model(query),
    }
}

/// The field named by a search scope, if it names one.
pub fn scope_to_field(scope: &str) -> (r: Option<Field>)
    ensures
        r == scope_field(scope@),
{
    if str_eq(scope, "title") {
        Some(Field::Title)
    } else if str_eq(scope, "author") {
        Some(Field::Author)
    } else if str_eq(scope, "abstract") {
        Some(Field::Abstract)
    } else if str_eq(scope, "keyword") {
        Some(Field::Keyword)
    } else {
        None
    }
}

/// The query the browser front end runs: `query` searched within the scope,
/// returning [`returned_fields`], page `page` of [`PAGE_SIZE`] results.
pub fn build_query(scope: &str, query: &str, page: u32) -> (r: SearchQuery)
    requires
        page * PAGE_SIZE <= u32::MAX,
    ensures
        r@ == with_page(with_fields(scoped_model(scope@, query@), returned_fields()), page, PAGE_SIZE),
{
    let base = match scope_to_field(scope) {
        Some(f) => SearchQuery::in_field(f, query),
        None => SearchQuery::basic(query),
    };
    let names = returned_field_names();
    base.fields(names.as_slice()).page(page, PAGE_SIZE)
}

/// A number read from a command-line argument or a URL parameter: its
/// decimal value when it is one that fits a `u32`, else `default`.
pub open spec fn number_or(raw: Option<Seq<char>>, default: u32) -> u32 {
    match raw {
        Some(s) => match parse_u32_spec(s) {
            Some(n) => n,
            None => default,
        },
        None => default,
    }
}

/// Reads an optional decimal parameter, falling back to `default` when it is
/// absent or not a `u32`.
pub fn u32_or(raw: Option<&str>, default: u32) -> (r: u32)
    ensures
        r == number_or(
            match raw {
                Some(s) => Some(s@),
                None => None,
            },
            default,
        ),
{
    match raw {
        Some(s) => match parse_u32(s) {
            Some(n) => n,
            None => default,
        },
        None => default,
    }
}

/// A document count read as unsigned, as `num_found as u64` does: a
/// negative count wraps around to `2^64 + num_found`.
pub open spec fn unsigned_count(num_found: i64) -> nat {
    if num_found >= 0 {
        num_found as nat
    } else {
        (num_found + 0x1_0000_0000_0000_0000) as nat
    }
}

/// The number of result pages for `num_found` documents: at least one. The
/// count is read as unsigned, as the front end's `as u64` does.
pub open spec fn page_count(num_found: i64) -> u64 {
    let n = unsigned_count(num_found);
    let pages: nat = n / (PAGE_SIZE as nat) + if n % (PAGE_SIZE as nat) == 0 {
        0nat
    } else {
        1nat
    };
    if pages == 0 {
        1
    } else {
        pages as u64
    }
}

/// The number of result pages for `num_found` documents (at least one).
pub fn total_pages(num_found: i64) -> (r: u64)
    ensures
        r == page_count(num_found),
{
    let n: u64 = if num_found >= 0 {
        num_found as u64
    } else {
        u64::MAX - ((-(num_found + 1)) as u64)
    };
    let size = PAGE_SIZE as u64;
    let pages = n / size + if n % size == 0 {
        0
    } else {
        1
    };
    if pages == 0 {
        1
    } else {
        pages
    }
}

/// The page after `page`, if there is one.
pub open spec fn next_of(page: u32, num_found: i64) -> Option<u32> {
    if (page as u64) + 1 < page_count(num_found) {
        Some((page + 1) as u32)
    } else {
        None
    }
}

/// The page before `page`, if there is one.
pub open spec fn prev_of(page: u32) -> Option<u32> {
    if page > 0 {
        Some((page - 1) as u32)
    } else {
        None
    }
}

/// Where the "next" button leads from `page`.
pub fn next_page(page: u32, num_found: i64) -> (r: Option<u32>)
    requires
        (page as u64) + 1 < page_count(num_found) ==> page < u32::MAX,
    ensures
        r == next_of(page, num_found),
{
    let total = total_pages(num_found);
    if (page as u64) + 1 < total {
        Some(page + 1)
    } else {
        None
    }
}

/// Where the "previous" button leads from `page`.
pub fn prev_page(page: u32) -> (r: Option<u32>)
    ensures
        r == prev_of(page),
{
    if page > 0 {
        Some(page - 1)
    } else {
        None
    }
}

/// What the pager shows on a page of results.
pub struct PagerView {
    /// The number of pages.
    pub total_pages: u64,
    /// The 1-based number of the page shown.
    pub human_page: u64,
    /// Whether the "previous" button is disabled.
    pub prev_disabled: bool,
    /// Whether the "next" button is disabled.
    pub next_disabled: bool,
}

/// The pager of page `page`: hidden when nothing matched, else the page
/// count, the 1-based page number, and which buttons are disabled.
pub open spec fn pager_of(page: u32, num_found: i64) -> Option<PagerView> {
    if num_found <= 0 {
        None
    } else {
        Some(
            PagerView {
                total_pages: page_count(num_found),
                human_page: (page + 1) as u64,
                prev_disabled: page == 0,
                next_disabled: page + 1 >= page_count(num_found),
            },
        )
    }
}

/// The pager of page `page` when `num_found` documents matched: hidden
/// (`None`) when nothing matched, else the page count, the 1-based page
/// number, and which buttons are disabled.
pub fn pager(page: u32, num_found: i64) -> (r: Option<PagerView>)
    ensures
        r == pager_of(page, num_found),
{
    if num_found <= 0 {
        return None;
    }
    let total = total_pages(num_found);
    let human = page as u64 + 1;
    Some(PagerView {
        total_pages: total,
        human_page: human,
        prev_disabled: page == 0,
        next_disabled: human >= total,
    })
}

/// The status line after a search: how many documents matched and how many
/// are shown.
pub open spec fn results_status_text(num_found: i64, shown: usize) -> Seq<char> {
    signed_decimal(num_found as int) + " documents found — showing "@ + decimal(shown as nat) + "."@
}

/// The status line after a search that found `num_found` documents, `shown`
/// of them on the page.
pub fn results_status(num_found: i64, shown: usize) -> (r: String)
    ensures
        r@ == results_status_text(num_found, shown),
{
    let mut s = decimal_i64(num_found);
    s.append(" documents found — showing ");
    s.append(decimal_u64(shown as u64).as_str());
    s.append(".");
    s
}

/// The pager caption: `Page h of t`.
pub open spec fn page_info_text(v: PagerView) -> Seq<char> {
    "Page "@ + decimal(v.human_page as nat) + " of "@ + decimal(v.total_pages as nat)
}

/// The caption of a pager.
pub fn page_info(v: &PagerView) -> (r: String)
    ensures
        r@ == page_info_text(*v),
{
    let mut s = String::from_str("Page ");
    s.append(decimal_u64(v.human_page).as_str());
    s.append(" of ");
    s.append(decimal_u64(v.total_pages).as_str());
    s
}

/// The parts of a result card's meta line: the document type and the
/// production date when present, then `HAL id <docid>`.
pub open spec fn card_meta_parts(d: HalDoc) -> Seq<Seq<char>> {
    (match d.doc_type_s {
        Some(t) => seq![t@],
        None => seq![],
    }) + (match d.produced_date_s {
        Some(p) => seq![p@],
        None => seq![],
    }) + seq!["HAL id "@ + d.docid@]
}

/// The meta line of a result card: its parts joined with ` · `.
pub fn card_meta(doc: &HalDoc) -> (r: String)
    ensures
        r@ == join(card_meta_parts(*doc), " · "@),
{
    let mut parts: Vec<String> = Vec::new();
    if let Some(kind) = &doc.doc_type_s {
        parts.push(kind.clone());
    }
    if let Some(date) = &doc.produced_date_s {
        parts.push(date.clone());
    }
    let mut id = String::from_str("HAL id ");
    id.append(doc.docid.as_str());
    parts.push(id);
    assert(string_views(parts@) =~= card_meta_parts(*doc));
    join_strings(&parts, " · ")
}

} // verus!
