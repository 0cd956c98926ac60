//! The payload returned by the HAL search endpoint.
use vstd::prelude::*;

use crate::doc::HalDoc;
use crate::text::str_eq;

verus! {

/// `Clone::clone` of `serde_json::Value` (a deep copy of the JSON value);
/// nothing is claimed of the copy.
pub assume_specification[ <serde_json::Value as Clone>::clone ](
    v: &serde_json::Value,
) -> serde_json::Value;

/// One entry of a Solr facet array, as far as facets are read: a text, an
/// integer count, or any other JSON value, kept as it came.
#[derive(Clone, Debug)]
pub enum FacetValue {
    /// A JSON string.
    Text(String),
    /// A JSON number that is an integer in the `i64` range.
    Count(i64),
    /// Any other JSON value.
    Other(serde_json::Value),
}

/// Solr-style facet counts.
///
/// HAL returns facet fields as flat arrays alternating value and count, e.g.
/// `["ART", 1234, "COMM", 567]`. [`FacetCounts::field`] turns them into pairs.
/// Each field name occurs once in what HAL sends ([`distinct_names`]); a lookup
/// takes the first entry of a name.
#[derive(Clone, Debug)]
pub struct FacetCounts {
    /// Raw facet fields with their field name.
    pub facet_fields: Vec<(String, Vec<FacetValue>)>,
}

/// Each facet field name occurs at most once.
pub open spec fn distinct_names(fields: Seq<(String, Vec<FacetValue>)>) -> bool {
    forall|i: int, j: int| 0 <= i < j < fields.len() ==> fields[i].0@ != fields[j].0@
}

/// The raw array of the first facet field named `name`.
pub open spec fn facet_raw(fields: Seq<(String, Vec<FacetValue>)>, name: Seq<char>) -> Option<
    Seq<FacetValue>,
>
    decreases fields.len(),
{
    if fields.len() == 0 {
        None
    } else if fields[0].0@ == name {
        Some(fields[0].1@)
    } else {
        facet_raw(fields.drop_first(), name)
    }
}

/// The `(value, count)` pairs of a flat facet array: the array is cut into
/// consecutive pairs (a trailing odd entry is dropped), and a pair is kept
/// when it is a text followed by a count.
pub open spec fn facet_pairs(raw: Seq<FacetValue>) -> Seq<(Seq<char>, i64)>
    decreases raw.len(),
{
    if raw.len() < 2 {
        seq![]
    } else {
        let rest = facet_pairs(raw.subrange(2, raw.len() as int));
        match (raw[0], raw[1]) {
            (FacetValue::Text(v), FacetValue::Count(c)) => seq![(v@, c)] + rest,
            _ => rest,
        }
    }
}

/// The views of `(value, count)` pairs.
pub open spec fn count_views(v: Seq<(String, i64)>) -> Seq<(Seq<char>, i64)> {
    v.map_values(|p: (String, i64)| (p.0@, p.1))
}

/// The pairs of the facet field `name`, or none when there is no such field.
pub open spec fn facet_field_pairs(fields: Seq<(String, Vec<FacetValue>)>, name: Seq<char>) -> Seq<
    (Seq<char>, i64),
> {
    match facet_raw(fields, name) {
        Some(raw) => facet_pairs(raw),
        None => seq![],
    }
}

impl Default for FacetCounts {
    fn default() -> (r: Self)
        ensures
            r.facet_fields@.len() == 0,
    {
        FacetCounts { facet_fields: Vec::new() }
    }
}

impl FacetCounts {
    /// Return the `(value, count)` pairs for a facet field, in the order HAL sent them.
    pub fn field(&self, name: &str) -> (r: Vec<(String, i64)>)
        ensures
            count_views(r@) == facet_field_pairs(self.facet_fields@, name@),
    {
        let fields = &self.facet_fields;
        let mut i: usize = 0;
        assert(fields@.skip(0) =~= fields@);
        while i < fields.len()
            invariant
                i <= fields@.len(),
                fields@ == self.facet_fields@,
                facet_raw(fields@, name@) == facet_raw(fields@.skip(i as int), name@),
            decreases fields@.len() - i,
        {
            assert(fields@.skip(i as int)[0] == fields@[i as int]);
            if str_eq(fields[i].0.as_str(), name) {
                let r = Self::pairs(&fields[i].1);
                assert(facet_raw(fields@.skip(i as int), name@) == Some(fields@[i as int].1@));
                return r;
            }
            assert(fields@.skip(i as int).drop_first() =~= fields@.skip(i + 1));
            i = i + 1;
        }
        Vec::new()
    }

    fn pairs(raw: &Vec<FacetValue>) -> (r: Vec<(String, i64)>)
        ensures
            count_views(r@) == facet_pairs(raw@),
    {
        let n = raw.len();
        let mut out: Vec<(String, i64)> = Vec::new();
        let mut i: usize = 0;
        assert(raw@.subrange(0, n as int) =~= raw@);
        while n - i >= 2
            invariant
                n == raw@.len(),
                i <= n,
                count_views(out@) + facet_pairs(raw@.subrange(i as int, n as int)) == facet_pairs(
                    raw@,
                ),
            decreases n - i,
        {
            let ghost rest = raw@.subrange(i as int, n as int);
            assert(rest.subrange(2, rest.len() as int) =~= raw@.subrange(i + 2, n as int));
            let ghost before = out@;
            match (&raw[i], &raw[i + 1]) {
                (FacetValue::Text(v), FacetValue::Count(c)) => {
                    out.push((v.clone(), *c));
                    assert(count_views(out@) =~= count_views(before).push((v@, *c)));
                },
                _ => {},
            }
            i = i + 2;
        }
        assert(count_views(out@) =~= count_views(out@) + facet_pairs(raw@.subrange(i as int, n as int)));
        out
    }
}

/// The `response` object of a HAL search payload.
#[derive(Clone, Debug)]
pub struct ResponseBody {
    /// Total number of matching documents.
    pub num_found: i64,
    /// Offset of the first returned document (pagination cursor).
    pub start: i64,
    /// The documents returned for this page.
    pub docs: Vec<HalDoc>,
}

/// The top-level payload returned by the HAL search endpoint.
#[derive(Clone, Debug)]
pub struct SearchResponse {
    /// The main response body (result count, offset and documents).
    pub response: ResponseBody,
    /// Facet counts, present only when the query requested facets.
    pub facet_counts: Option<FacetCounts>,
}

impl SearchResponse {
    /// Total number of documents matching the query (across all pages).
    pub fn num_found(&self) -> (r: i64)
        ensures
            r == self.response.num_found,
    {
        self.response.num_found
    }

    /// The offset (`start`) of the current page.
    pub fn start(&self) -> (r: i64)
        ensures
            r == self.response.start,
    {
        self.response.start
    }

    /// The documents on the current page.
    pub fn docs(&self) -> (r: &[HalDoc])
        ensures
            r@ == self.response.docs@,
    {
        self.response.docs.as_slice()
    }

    /// The facet counts, if any were requested.
    pub fn facets(&self) -> (r: Option<&FacetCounts>)
        ensures
            match r {
                Some(f) => self.facet_counts == Some(*f),
                None => self.facet_counts is None,
            },
    {
        match &self.facet_counts {
            Some(f) => Some(f),
            None => None,
        }
    }
}

} // verus!
