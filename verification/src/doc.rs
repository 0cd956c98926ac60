//! A document returned by a HAL search, and what is read off it.
use vstd::prelude::*;

use crate::query::opt_view;
use crate::text::{join, join_strings, string_views};

verus! {

/// `serde_json::Map`, the JSON object that holds the fields no typed field models.
#[verifier::external_type_specification]
#[verifier::external_body]
#[verifier::reject_recursive_types(K)]
#[verifier::reject_recursive_types(V)]
pub struct ExJsonMap<K, V>(serde_json::Map<K, V>);

/// `serde_json::Value`, a JSON value carried through unread.
#[verifier::external_type_specification]
#[verifier::external_body]
pub struct ExJsonValue(serde_json::Value);

/// `Clone::clone` of `serde_json::Map<String, Value>` (a deep copy of the
/// object); nothing is claimed of the copy.
pub assume_specification[ <serde_json::Map<String, serde_json::Value> as Clone>::clone ](
    m: &serde_json::Map<String, serde_json::Value>,
) -> serde_json::Map<String, serde_json::Value>;

/// A single document returned by a HAL search.
///
/// HAL is a Solr index with a very large, evolving schema. Only the most common
/// fields are typed here; any other field requested through
/// [`SearchQuery::fields`](crate::SearchQuery::fields) is preserved in [`HalDoc::extra`].
#[derive(Clone, Debug)]
pub struct HalDoc {
    /// The HAL internal document identifier, always normalised to a string.
    pub docid: String,
    /// A ready-to-display citation-style label (default field of a basic search).
    pub label_s: Option<String>,
    /// The canonical URI of the document on HAL.
    pub uri_s: Option<String>,
    /// The document title(s). Requested with `fl=title_s`.
    pub title_s: Option<Vec<String>>,
    /// The full names of the authors. Requested with `fl=authFullName_s`.
    pub auth_full_name_s: Option<Vec<String>>,
    /// The production date, as a string (e.g. `2026-06-04`).
    pub produced_date_s: Option<String>,
    /// The document type (e.g. `ART`, `COMM`, `THESE`).
    pub doc_type_s: Option<String>,
    /// Any other field returned by HAL but not modelled above.
    pub extra: serde_json::Map<String, serde_json::Value>,
}

/// The view of an optional string slice.
pub open spec fn opt_str_view(o: Option<&str>) -> Option<Seq<char>> {
    match o {
        Some(s) => Some(s@),
        None => None,
    }
}

/// The first title of a document, if it has one.
pub open spec fn first_title(d: HalDoc) -> Option<Seq<char>> {
    match d.title_s {
        Some(titles) => if titles@.len() > 0 {
            Some(titles@[0]@)
        } else {
            None
        },
        None => None,
    }
}

/// The authors of a document joined with `", "`, if the field is present.
pub open spec fn joined_authors(d: HalDoc) -> Option<Seq<char>> {
    match d.auth_full_name_s {
        Some(names) => Some(join(string_views(names@), ", "@)),
        None => None,
    }
}

/// The best heading of a document: its first title, else its label.
pub open spec fn heading_of(d: HalDoc) -> Option<Seq<char>> {
    match first_title(d) {
        Some(t) => Some(t),
        None => opt_view(d.label_s),
    }
}

/// How a document is displayed: `heading (docid)`, or the bare docid.
pub open spec fn display_of(d: HalDoc) -> Seq<char> {
    match heading_of(d) {
        Some(h) => h + " ("@ + d.docid@ + ")"@,
        None => d.docid@,
    }
}

impl HalDoc {
    /// The first title, if any (HAL stores titles as an array).
    pub fn title(&self) -> (r: Option<&str>)
        ensures
            opt_str_view(r) == first_title(*self),
    {
        match &self.title_s {
            Some(titles) => if titles.len() > 0 {
                Some(titles[0].as_str())
            } else {
                None
            },
            None => None,
        }
    }

    /// The authors joined with `", "`, if any.
    pub fn authors(&self) -> (r: Option<String>)
        ensures
            opt_view(r) == joined_authors(*self),
    {
        match &self.auth_full_name_s {
            Some(names) => Some(join_strings(names, ", ")),
            None => None,
        }
    }

    /// The best human-readable heading available: the title if present,
    /// otherwise the citation label.
    pub fn heading(&self) -> (r: Option<&str>)
        ensures
            opt_str_view(r) == heading_of(*self),
    {
        match self.title() {
            Some(t) => Some(t),
            None => match &self.label_s {
                Some(label) => Some(label.as_str()),
                None => None,
            },
        }
    }

    /// The display form of the document: `heading (docid)`, or the docid
    /// alone when there is no heading.
    pub fn to_string(&self) -> (r: String)
        ensures
            r@ == display_of(*self),
    {
        match self.heading() {
            Some(h) => {
                let mut s = String::from_str(h);
                s.append(" (");
                s.append(self.docid.as_str());
                s.append(")");
                s
            },
            None => self.docid.clone(),
        }
    }
}

} // verus!
