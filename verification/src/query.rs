use vstd::prelude::*;

use crate::text::{
    decimal, decimal_u64, join, join_strings, join_strs, split_whitespace, str_views, string_views,
    words,
};

verus! {

/// A HAL search field usable for fine-grained (field-scoped) searches.
///
/// These map to the Solr text fields exposed by HAL.
#[derive(Clone, Copy, Debug, PartialEq, Eq, Structural)]
pub enum Field {
    /// The document title (`title_t`).
    Title,
    /// The author full names (`authFullName_t`).
    Author,
    /// The abstract (`abstract_t`).
    Abstract,
    /// The keywords (`keyword_t`).
    Keyword,
}

/// The raw Solr field name of a [`Field`].
pub open spec fn field_name(f: Field) -> Seq<char> {
    match f {
        Field::Title => "title_t"@,
        Field::Author => "authFullName_t"@,
        Field::Abstract => "abstract_t"@,
        Field::Keyword => "keyword_t"@,
    }
}

impl Field {
    /// The raw HAL/Solr field name.
    pub fn name(self) -> (r: &'static str)
        ensures
            r@ == field_name(self),
    {
        match self {
            Field::Title => "title_t",
            Field::Author => "authFullName_t",
            Field::Abstract => "abstract_t",
            Field::Keyword => "keyword_t",
        }
    }
}

/// The meaning of a [`SearchQuery`]: the Solr parameters it holds.
pub struct QueryModel {
    /// The `q` parameter.
    pub q: Seq<char>,
    /// The returned fields (`fl`), in order.
    pub fields: Seq<Seq<char>>,
    /// The number of rows, if set.
    pub rows: Option<u32>,
    /// The offset of the first document, if set.
    pub start: Option<u32>,
    /// The sort clause, if set.
    pub sort: Option<Seq<char>>,
    /// The facet fields, in the order they were added.
    pub facet_fields: Seq<Seq<char>>,
}

/// The query that searches `q` with every other parameter unset.
pub open spec fn basic_model(q: Seq<char>) -> QueryModel {
    QueryModel {
        q: q,
        fields: seq![],
        rows: None,
        start: None,
        sort: None,
        facet_fields: seq![],
    }
}

/// `field:(t1<sep>t2<sep>...)`: several terms grouped within one field.
pub open spec fn grouped(field: Seq<char>, terms: Seq<Seq<char>>, sep: Seq<char>) -> Seq<char> {
    field + ":("@ + join(terms, sep) + ")"@
}

/// `field:"phrase"~distance`: a proximity search.
pub open spec fn proximity_clause(field: Seq<char>, phrase: Seq<char>, distance: u32) -> Seq<char> {
    field + ":\""@ + phrase + "\"~"@ + decimal(distance as nat)
}

/// The `q` of a fine-grained search of `value` within `f`: the words of the
/// value grouped within the field, or the value as it is when it has no words.
pub open spec fn in_field_q(f: Field, value: Seq<char>) -> Seq<char> {
    if words(value).len() == 0 {
        value
    } else {
        grouped(field_name(f), words(value), " "@)
    }
}

/// The view of an optional string.
pub open spec fn opt_view(o: Option<String>) -> Option<Seq<char>> {
    match o {
        Some(s) => Some(s@),
        None => None,
    }
}

/// The views of a list of key/value string pairs.
pub open spec fn pair_views(v: Seq<(String, String)>) -> Seq<(Seq<char>, Seq<char>)> {
    v.map_values(|p: (String, String)| (p.0@, p.1@))
}

/// The `facet=true` switch followed by one `facet.field` per facet field,
/// or nothing when no facet was asked for.
pub open spec fn facet_params(facets: Seq<Seq<char>>) -> Seq<(Seq<char>, Seq<char>)> {
    if facets.len() > 0 {
        seq![("facet"@, "true"@)] + facets.map_values(|f: Seq<char>| ("facet.field"@, f))
    } else {
        seq![]
    }
}

/// The HAL/Solr URL parameters of a query, in the order they are sent.
pub open spec fn params_of(m: QueryModel) -> Seq<(Seq<char>, Seq<char>)> {
    seq![("q"@, m.q), ("wt"@, "json"@)] + (if m.fields.len() > 0 {
        seq![("fl"@, join(m.fields, ","@))]
    } else {
        seq![]
    }) + (match m.rows {
        Some(r) => seq![("rows"@, decimal(r as nat))],
        None => seq![],
    }) + (match m.start {
        Some(s) => seq![("start"@, decimal(s as nat))],
        None => seq![],
    }) + (match m.sort {
        Some(s) => seq![("sort"@, s)],
        None => seq![],
    }) + facet_params(m.facet_fields)
}

/// `m` returning only `fields`.
pub open spec fn with_fields(m: QueryModel, fields: Seq<Seq<char>>) -> QueryModel {
    QueryModel { fields: fields, ..m }
}

/// `m` returning `rows` documents.
pub open spec fn with_rows(m: QueryModel, rows: u32) -> QueryModel {
    QueryModel { rows: Some(rows), ..m }
}

/// `m` starting at document `start`.
pub open spec fn with_start(m: QueryModel, start: u32) -> QueryModel {
    QueryModel { start: Some(start), ..m }
}

/// `m` on page `page` (0-based) of `per_page` documents.
pub open spec fn with_page(m: QueryModel, page: u32, per_page: u32) -> QueryModel {
    QueryModel { rows: Some(per_page), start: Some((page * per_page) as u32), ..m }
}

/// `m` sorted by `sort`.
pub open spec fn with_sort(m: QueryModel, sort: Seq<char>) -> QueryModel {
    QueryModel { sort: Some(sort), ..m }
}

/// `m` with one more facet field.
pub open spec fn with_facet(m: QueryModel, field: Seq<char>) -> QueryModel {
    QueryModel { facet_fields: m.facet_fields.push(field), ..m }
}

/// A builder for HAL search queries.
///
/// It maps directly onto the Solr query parameters used by the HAL API and
/// covers every search mode listed in the HAL documentation: basic search,
/// search within a field, several terms within a field (OR / AND), proximity
/// search, field selection (`fl`), pagination and facets.
///
/// The builder methods consume and return `self`, so they can be chained.
#[derive(Clone, Debug)]
pub struct SearchQuery {
    q: String,
    fields: Vec<String>,
    rows: Option<u32>,
    start: Option<u32>,
    sort: Option<String>,
    facet_fields: Vec<String>,
}

impl View for SearchQuery {
    type V = QueryModel;

    closed spec fn view(&self) -> QueryModel {
        QueryModel {
            q: self.q@,
            fields: string_views(self.fields@),
            rows: self.rows,
            start: self.start,
            sort: opt_view(self.sort),
            facet_fields: string_views(self.facet_fields@),
        }
    }
}

fn strs_to_strings(v: &[&str]) -> (r: Vec<String>)
    ensures
        string_views(r@) == str_views(v@),
{
    let mut out: Vec<String> = Vec::new();
    let mut i: usize = 0;
    while i < v.len()
        invariant
            i <= v@.len(),
            string_views(out@) =~= str_views(v@).take(i as int),
        decreases v@.len() - i,
    {
        let ghost before = out@;
        out.push(String::from_str(v[i]));
        assert(string_views(out@) =~= string_views(before).push(v@[i as int]@));
        assert(str_views(v@).take(i + 1) =~= str_views(v@).take(i as int).push(v@[i as int]@));
        i = i + 1;
    }
    assert(str_views(v@).take(v@.len() as int) =~= str_views(v@));
    out
}

impl SearchQuery {
    /// A basic search over all fields (the `q` parameter is used as-is).
    pub fn basic(query: &str) -> (r: Self)
        ensures
            r@ == basic_model(query@),
    {
        let r = SearchQuery {
            q: String::from_str(query),
            fields: Vec::new(),
            rows: None,
            start: None,
            sort: None,
            facet_fields: Vec::new(),
        };
        assert(r@.fields =~= Seq::<Seq<char>>::empty());
        assert(r@.facet_fields =~= Seq::<Seq<char>>::empty());
        r
    }

    /// Search for a value within a specific field, e.g. `field("title_t", "europe")`
    /// produces `q=title_t:europe`.
    pub fn field(field: &str, value: &str) -> (r: Self)
        ensures
            r@ == basic_model(field@ + ":"@ + value@),
    {
        let mut q = String::from_str(field);
        q.append(":");
        q.append(value);
        Self::basic(q.as_str())
    }

    /// Fine-grained search scoped to a typed [`Field`].
    ///
    /// A multi-word value is grouped so that every word is searched within the
    /// field, e.g. `in_field(Field::Title, "open science")` produces
    /// `q=title_t:(open science)`. An empty value falls back to a basic search.
    pub fn in_field(field: Field, value: &str) -> (r: Self)
        ensures
            r@ == basic_model(in_field_q(field, value@)),
    {
        let words = split_whitespace(value);
        if words.len() == 0 {
            Self::basic(value)
        } else {
            Self::field_terms(field.name(), words.as_slice())
        }
    }

    /// Search for several terms within a single field, matching any of them
    /// (Solr `OR`), e.g. `field_terms("title_t", &["economic", "policy"])`
    /// produces `q=title_t:(economic policy)`.
    pub fn field_terms(field: &str, terms: &[&str]) -> (r: Self)
        ensures
            r@ == basic_model(grouped(field@, str_views(terms@), " "@)),
    {
        Self::grouped_terms(field, terms, " ")
    }

    /// Search for several terms within a single field, matching all of them
    /// (Solr `AND`), e.g. `field_all_terms("title_t", &["economic", "policy"])`
    /// produces `q=title_t:(economic AND policy)`.
    pub fn field_all_terms(field: &str, terms: &[&str]) -> (r: Self)
        ensures
            r@ == basic_model(grouped(field@, str_views(terms@), " AND "@)),
    {
        Self::grouped_terms(field, terms, " AND ")
    }

    fn grouped_terms(field: &str, terms: &[&str], sep: &str) -> (r: Self)
        ensures
            r@ == basic_model(grouped(field@, str_views(terms@), sep@)),
    {
        let joined = join_strs(terms, sep);
        let mut q = String::from_str(field);
        q.append(":(");
        q.append(joined.as_str());
        q.append(")");
        Self::basic(q.as_str())
    }

    /// Proximity search: find `phrase` within `distance` words inside `field`,
    /// e.g. `proximity("title_t", "economic policy", 3)` produces
    /// `q=title_t:"economic policy"~3`.
    pub fn proximity(field: &str, phrase: &str, distance: u32) -> (r: Self)
        ensures
            r@ == basic_model(proximity_clause(field@, phrase@, distance)),
    {
        let digits = decimal_u64(distance as u64);
        let mut q = String::from_str(field);
        q.append(":\"");
        q.append(phrase);
        q.append("\"~");
        q.append(digits.as_str());
        Self::basic(q.as_str())
    }

    /// Restrict the returned fields (the Solr `fl` parameter).
    pub fn fields(self, fields: &[&str]) -> (r: Self)
        ensures
            r@ == with_fields(self@, str_views(fields@)),
    {
        let mut s = self;
        s.fields = strs_to_strings(fields);
        s
    }

    /// Set the number of rows (documents) to return.
    pub fn rows(self, rows: u32) -> (r: Self)
        ensures
            r@ == with_rows(self@, rows),
    {
        let mut s = self;
        s.rows = Some(rows);
        s
    }

    /// Set the offset of the first returned document.
    pub fn start(self, start: u32) -> (r: Self)
        ensures
            r@ == with_start(self@, start),
    {
        let mut s = self;
        s.start = Some(start);
        s
    }

    /// Convenience pagination: page `page` (0-based) with `per_page` results each.
    pub fn page(self, page: u32, per_page: u32) -> (r: Self)
        requires
            page * per_page <= u32::MAX,
        ensures
r@ == with_page(self@, page, per_page),
    {
        let mut s = self;
        s.rows = Some(per_page);
        s.start = Some(page * per_page);
        s
    }

    /// Set the sort clause (the Solr `sort` parameter), e.g. `"producedDate_s desc"`.
    pub fn sort(self, sort: &str) -> (r: Self)
        ensures
            r@ == with_sort(self@, sort@),
    {
        let mut s = self;
        s.sort = Some(String::from_str(sort));
        s
    }

    /// Add a facet field. Calling this at least once enables faceting.
    pub fn facet(self, field: &str) -> (r: Self)
        ensures
            r@ == with_facet(self@, field@),
    {
        let mut s = self;
        let ghost before = s.facet_fields@;
        s.facet_fields.push(String::from_str(field));
        assert(string_views(s.facet_fields@) =~= string_views(before).push(field@));
        s
    }

    /// Serialise the query into HAL/Solr URL parameters.
    pub fn to_params(&self) -> (r: Vec<(String, String)>)
        ensures
            pair_views(r@) == params_of(self@),
    {
        let ghost m = self@;
        let mut params: Vec<(String, String)> = Vec::new();
        params.push((String::from_str("q"), self.q.clone()));
        params.push((String::from_str("wt"), String::from_str("json")));
        let ghost head: Seq<(Seq<char>, Seq<char>)> = seq![("q"@, m.q), ("wt"@, "json"@)];
        assert(pair_views(params@) =~= head);
        let ghost fl: Seq<(Seq<char>, Seq<char>)> = if m.fields.len() > 0 {
            seq![("fl"@, join(m.fields, ","@))]
        } else {
            seq![]
        };
        if self.fields.len() > 0 {
            let joined = join_strings(&self.fields, ",");
            params.push((String::from_str("fl"), joined));
        }
        assert(pair_views(params@) =~= head + fl);
        let ghost rows: Seq<(Seq<char>, Seq<char>)> = match m.rows {
            Some(r) => seq![("rows"@, decimal(r as nat))],
            None => seq![],
        };
        if let Some(r) = self.rows {
            params.push((String::from_str("rows"), decimal_u64(r as u64)));
        }
        assert(pair_views(params@) =~= head + fl + rows);
        let ghost start: Seq<(Seq<char>, Seq<char>)> = match m.start {
            Some(s) => seq![("start"@, decimal(s as nat))],
            None => seq![],
        };
        if let Some(s) = self.start {
            params.push((String::from_str("start"), decimal_u64(s as u64)));
        }
        assert(pair_views(params@) =~= head + fl + rows + start);
        let ghost sort: Seq<(Seq<char>, Seq<char>)> = match m.sort {
            Some(s) => seq![("sort"@, s)],
            None => seq![],
        };
        if let Some(s) = &self.sort {
            params.push((String::from_str("sort"), s.clone()));
        }
        assert(pair_views(params@) =~= head + fl + rows + start + sort);
        let ghost prefix = head + fl + rows + start + sort;
        if self.facet_fields.len() > 0 {
            params.push((String::from_str("facet"), String::from_str("true")));
            let ghost with_switch = prefix + seq![("facet"@, "true"@)];
            assert(pair_views(params@) =~= with_switch);
            let mut i: usize = 0;
            while i < self.facet_fields.len()
                invariant
                    i <= self.facet_fields@.len(),
                    m == self@,
                    pair_views(params@) =~= with_switch + m.facet_fields.take(i as int).map_values(
                        |f: Seq<char>| ("facet.field"@, f),
                    ),
                decreases self.facet_fields@.len() - i,
            {
                let ghost old_params = params@;
                params.push((String::from_str("facet.field"), self.facet_fields[i].clone()));
                assert(m.facet_fields.take(i + 1) =~= m.facet_fields.take(i as int).push(
                    self.facet_fields@[i as int]@,
                ));
                assert(pair_views(params@) =~= pair_views(old_params).push(
                    ("facet.field"@, self.facet_fields@[i as int]@),
                ));
                i = i + 1;
            }
            assert(m.facet_fields.take(m.facet_fields.len() as int) =~= m.facet_fields);
        }
        assert(pair_views(params@) =~= params_of(m));
        params
    }
}

} // verus!
