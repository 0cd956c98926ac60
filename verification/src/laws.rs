//! Properties of the library that span several functions.
use vstd::prelude::*;

use crate::browse::{
    card_meta_parts, next_of, number_or, page_count, pager_of, prev_of, scoped_model, PAGE_SIZE,
};
use crate::doc::{display_of, first_title, heading_of, joined_authors, HalDoc};
use crate::client::byte_prefix;
use crate::query::{facet_params, params_of, with_facet, with_page, with_rows, with_start, QueryModel, SearchQuery};
use crate::response::{distinct_names, facet_field_pairs, facet_pairs, facet_raw, FacetValue};
use crate::query::{basic_model, field_name, grouped, in_field_q, proximity_clause, Field};
use crate::text::{
    decimal, is_white_space, join, lemma_decimal_digits, lemma_word_end, parse_u32_spec,
    skip_white_space, string_views, trim_end_at, trimmed, word_end, words, words_from,
};

verus! {

/// The value of the first parameter named `key`, as a server reading the
/// query string sees it.
pub open spec fn lookup(ps: Seq<(Seq<char>, Seq<char>)>, key: Seq<char>) -> Option<Seq<char>>
    decreases ps.len(),
{
    if ps.len() == 0 {
        None
    } else if ps[0].0 == key {
        Some(ps[0].1)
    } else {
        lookup(ps.drop_first(), key)
    }
}

proof fn lemma_lookup_concat(a: Seq<(Seq<char>, Seq<char>)>, b: Seq<(Seq<char>, Seq<char>)>, key: Seq<char>)
    ensures
        lookup(a + b, key) == (match lookup(a, key) {
            Some(v) => Some(v),
            None => lookup(b, key),
        }),
    decreases a.len(),
{
    if a.len() > 0 {
        assert((a + b).drop_first() =~= a.drop_first() + b);
        lemma_lookup_concat(a.drop_first(), b, key);
    } else {
        assert(a + b =~= b);
    }
}

proof fn lemma_lookup_absent(ps: Seq<(Seq<char>, Seq<char>)>, key: Seq<char>)
    requires
        forall|i: int| 0 <= i < ps.len() ==> (#[trigger] ps[i]).0 != key,
    ensures
        lookup(ps, key) is None,
    decreases ps.len(),
{
    if ps.len() > 0 {
        assert(ps[0].0 != key);
        assert forall|i: int| 0 <= i < ps.drop_first().len() implies (#[trigger] ps.drop_first()[i]).0
            != key by {
            assert(ps.drop_first()[i] == ps[i + 1]);
        }
        lemma_lookup_absent(ps.drop_first(), key);
    }
}

/// `a`, or `b` where `a` is `None`.
pub open spec fn or_else(a: Option<Seq<char>>, b: Option<Seq<char>>) -> Option<Seq<char>> {
    match a {
        Some(v) => Some(v),
        None => b,
    }
}

proof fn lemma_lookup_parts(
    a: Seq<(Seq<char>, Seq<char>)>,
    b: Seq<(Seq<char>, Seq<char>)>,
    c: Seq<(Seq<char>, Seq<char>)>,
    d: Seq<(Seq<char>, Seq<char>)>,
    e: Seq<(Seq<char>, Seq<char>)>,
    f: Seq<(Seq<char>, Seq<char>)>,
    key: Seq<char>,
)
    ensures
        lookup(a + b + c + d + e + f, key) == or_else(
            lookup(a, key),
            or_else(
                lookup(b, key),
                or_else(lookup(c, key), or_else(lookup(d, key), or_else(lookup(e, key), lookup(f, key)))),
            ),
        ),
{
    lemma_lookup_concat(a + b + c + d + e, f, key);
    lemma_lookup_concat(a + b + c + d, e, key);
    lemma_lookup_concat(a + b + c, d, key);
    lemma_lookup_concat(a + b, c, key);
    lemma_lookup_concat(a, b, key);
}

/// The keys that `to_params` may emit.
pub open spec fn param_keys() -> Seq<Seq<char>> {
    seq!["q"@, "wt"@, "fl"@, "rows"@, "start"@, "sort"@, "facet"@, "facet.field"@]
}

proof fn lemma_keys_distinct()
    ensures
        forall|i: int, j: int|
            0 <= i < j < param_keys().len() ==> param_keys()[i] != param_keys()[j],
{
    reveal_strlit("q");
    reveal_strlit("wt");
    reveal_strlit("fl");
    reveal_strlit("rows");
    reveal_strlit("start");
    reveal_strlit("sort");
    reveal_strlit("facet");
    reveal_strlit("facet.field");
    let k = param_keys();
    assert forall|i: int, j: int| 0 <= i < j < k.len() implies k[i] != k[j] by {
        if k[i] == k[j] {
            assert(k[i].len() == k[j].len());
            assert(k[i][0] == k[j][0]);
            if k[i].len() > 1 {
                assert(k[i][1] == k[j][1]);
            }
            if k[i].len() > 2 {
                assert(k[i][2] == k[j][2]);
            }
        }
    }
}

/// Reading back the parameters of any query: `q` and `wt=json` are always
/// there, and each optional setting is found under its own key exactly when
/// it was set, with the value the builder was given.
pub proof fn law_params_lookup(m: QueryModel)
    ensures
        lookup(params_of(m), "q"@) == Some(m.q),
        lookup(params_of(m), "wt"@) == Some("json"@),
        lookup(params_of(m), "fl"@) == (if m.fields.len() > 0 {
            Some(join(m.fields, ","@))
        } else {
            None
        }),
        lookup(params_of(m), "rows"@) == (match m.rows {
            Some(r) => Some(decimal(r as nat)),
            None => None,
        }),
        lookup(params_of(m), "start"@) == (match m.start {
            Some(s) => Some(decimal(s as nat)),
            None => None,
        }),
        lookup(params_of(m), "sort"@) == m.sort,
        lookup(params_of(m), "facet"@) == (if m.facet_fields.len() > 0 {
            Some("true"@)
        } else {
            None
        }),
        lookup(params_of(m), "facet.field"@) == (if m.facet_fields.len() > 0 {
            Some(m.facet_fields[0])
        } else {
            None
        }),
{
    lemma_keys_distinct();
    reveal_with_fuel(lookup, 3);
    let k = param_keys();
    let head: Seq<(Seq<char>, Seq<char>)> = seq![(k[0], m.q), (k[1], "json"@)];
    let fl: Seq<(Seq<char>, Seq<char>)> = if m.fields.len() > 0 {
        seq![(k[2], join(m.fields, ","@))]
    } else {
        seq![]
    };
    let rows: Seq<(Seq<char>, Seq<char>)> = match m.rows {
        Some(r) => seq![(k[3], decimal(r as nat))],
        None => seq![],
    };
    let start: Seq<(Seq<char>, Seq<char>)> = match m.start {
        Some(s) => seq![(k[4], decimal(s as nat))],
        None => seq![],
    };
    let sort: Seq<(Seq<char>, Seq<char>)> = match m.sort {
        Some(s) => seq![(k[5], s)],
        None => seq![],
    };
    let facets = m.facet_fields.map_values(|f: Seq<char>| ("facet.field"@, f));
    let tail = facet_params(m.facet_fields);
    assert(params_of(m) =~= head + fl + rows + start + sort + tail);
    assert forall|i: int| 0 <= i < facets.len() implies (#[trigger] facets[i]).0 == k[7] by {}
    lemma_lookup_parts(head, fl, rows, start, sort, tail, k[0]);
    lemma_lookup_parts(head, fl, rows, start, sort, tail, k[1]);
    lemma_lookup_parts(head, fl, rows, start, sort, tail, k[2]);
    lemma_lookup_parts(head, fl, rows, start, sort, tail, k[3]);
    lemma_lookup_parts(head, fl, rows, start, sort, tail, k[4]);
    lemma_lookup_parts(head, fl, rows, start, sort, tail, k[5]);
    lemma_lookup_parts(head, fl, rows, start, sort, tail, k[6]);
    lemma_lookup_parts(head, fl, rows, start, sort, tail, k[7]);
    if m.facet_fields.len() > 0 {
        assert(tail =~= seq![(k[6], "true"@)] + facets);
        assert(tail.drop_first() =~= facets);
        assert(facets[0].1 == m.facet_fields[0]);
        lemma_lookup_absent(facets, k[0]);
        lemma_lookup_absent(facets, k[1]);
        lemma_lookup_absent(facets, k[2]);
        lemma_lookup_absent(facets, k[3]);
        lemma_lookup_absent(facets, k[4]);
        lemma_lookup_absent(facets, k[5]);
    }
}

/// Paging is setting the number of rows and the offset: page `page` of
/// `per_page` documents is `rows(per_page)` then `start(page * per_page)`.
pub proof fn law_page_is_rows_then_start(query: SearchQuery, page: u32, per_page: u32)
    requires
        page * per_page <= u32::MAX,
    ensures
        with_page(query@, page, per_page) == with_start(
            with_rows(query@, per_page),
            (page * per_page) as u32,
        ),
{
}

/// Adding a facet always enables faceting, and the facet just added is the
/// last parameter sent.
pub proof fn law_facet_enables_faceting(query: SearchQuery, field: Seq<char>)
    ensures
        lookup(params_of(with_facet(query@, field)), "facet"@) == Some("true"@),
        params_of(with_facet(query@, field)).last() == ("facet.field"@, field),
{
    let m = with_facet(query@, field);
    law_params_lookup(m);
    let facets = m.facet_fields.map_values(|f: Seq<char>| ("facet.field"@, f));
    assert(facet_params(m.facet_fields) =~= seq![("facet"@, "true"@)] + facets);
    assert(facets.last() == ("facet.field"@, field));
}

/// Parsing the decimal representation of a `u32` gives the number back.
pub proof fn law_decimal_parse_u32(n: u32)
    ensures
        parse_u32_spec(decimal(n as nat)) == Some(n),
{
    lemma_decimal_digits(n as nat);
}

/// A page number written into a URL in decimal is read back unchanged.
pub proof fn law_page_param_round_trip(page: u32, default: u32)
    ensures
        number_or(Some(decimal(page as nat)), default) == page,
{
    law_decimal_parse_u32(page);
}

/// "Next" and "previous" undo each other: the page after `page` leads back
/// to `page`, and so does the page before it while `page` exists.
pub proof fn law_next_prev_inverse(page: u32, num_found: i64)
    requires
        page < u32::MAX,
    ensures
        next_of(page, num_found) matches Some(n) ==> prev_of(n) == Some(page),
        prev_of(page) matches Some(p) ==> ((page as u64) < page_count(num_found) ==> next_of(
            p,
            num_found,
        ) == Some(page)),
{
}

/// The pager disables exactly the buttons that lead nowhere.
pub proof fn law_pager_buttons(page: u32, num_found: i64)
    ensures
        pager_of(page, num_found) matches Some(v) ==> {
            &&& v.next_disabled <==> next_of(page, num_found) is None
            &&& v.prev_disabled <==> prev_of(page) is None
        },
{
}

/// An API error keeps at most the first `n` bytes of the answer, unchanged.
pub proof fn law_error_body_is_bounded_prefix(body: Seq<u8>, n: int)
    requires
        0 <= n,
    ensures
        byte_prefix(body, n).len() <= n,
        byte_prefix(body, n) == body.take(byte_prefix(body, n).len() as int),
{
    assert(body.take(body.len() as int) =~= body);
}

/// A fine-grained search is a search of the value's words within the field
/// (what `field_terms` builds), unless the value has no words.
pub proof fn law_in_field_is_field_terms(field: Field, value: Seq<char>)
    ensures
        words(value).len() > 0 ==> basic_model(in_field_q(field, value)) == basic_model(
            grouped(field_name(field), words(value), " "@),
        ),
        words(value).len() == 0 ==> basic_model(in_field_q(field, value)) == basic_model(value),
{
}

proof fn lemma_skip_white_space(s: Seq<char>, i: int)
    requires
        0 <= i <= s.len(),
    ensures
        i <= skip_white_space(s, i) <= s.len(),
        forall|k: int| i <= k < skip_white_space(s, i) ==> is_white_space(#[trigger] s[k]),
        skip_white_space(s, i) < s.len() ==> !is_white_space(s[skip_white_space(s, i)]),
        words_from(s, i) == words_from(s, skip_white_space(s, i)),
    decreases s.len() - i,
{
    if i < s.len() && is_white_space(s[i]) {
        lemma_skip_white_space(s, i + 1);
    }
}

proof fn lemma_trim_end_at(s: Seq<char>, j: int)
    requires
        0 <= j <= s.len(),
    ensures
        0 <= trim_end_at(s, j) <= j,
        forall|k: int| trim_end_at(s, j) <= k < j ==> is_white_space(#[trigger] s[k]),
        trim_end_at(s, j) > 0 ==> !is_white_space(s[trim_end_at(s, j) - 1]),
    decreases j,
{
    if j > 0 && is_white_space(s[j - 1]) {
        lemma_trim_end_at(s, j - 1);
    }
}

proof fn lemma_words_of_white_space(s: Seq<char>, i: int)
    requires
        0 <= i <= s.len(),
        forall|k: int| i <= k < s.len() ==> is_white_space(#[trigger] s[k]),
    ensures
        words_from(s, i) == Seq::<Seq<char>>::empty(),
    decreases s.len() - i,
{
    if i < s.len() {
        lemma_words_of_white_space(s, i + 1);
    }
}

proof fn lemma_word_end_within(s: Seq<char>, a: int, b: int, j: int)
    requires
        0 <= a <= j <= b <= s.len(),
        b == s.len() || is_white_space(s[b]),
    ensures
        word_end(s.subrange(a, b), j - a) + a == word_end(s, j),
    decreases b - j,
{
    let t = s.subrange(a, b);
    if j < b {
        assert(t[j - a] == s[j]);
        if !is_white_space(s[j]) {
            lemma_word_end_within(s, a, b, j + 1);
        }
    }
}

proof fn lemma_words_within(s: Seq<char>, a: int, b: int, i: int)
    requires
        0 <= a <= i <= b <= s.len(),
        forall|k: int| b <= k < s.len() ==> is_white_space(#[trigger] s[k]),
    ensures
        words_from(s.subrange(a, b), i - a) == words_from(s, i),
    decreases b - i,
{
    let t = s.subrange(a, b);
    if i == b {
        lemma_words_of_white_space(s, b);
    } else {
        assert(t[i - a] == s[i]);
        if is_white_space(s[i]) {
            lemma_words_within(s, a, b, i + 1);
        } else {
            lemma_word_end_within(s, a, b, i + 1);
            lemma_word_end(s, i + 1);
            lemma_word_end(t, i - a + 1);
            let e = word_end(s, i + 1);
            lemma_words_within(s, a, b, e);
            assert(t.subrange(i - a, e - a) =~= s.subrange(i, e));
        }
    }
}

/// Trimming does not change the words of a text: a search scoped to a field
/// finds the same words whether or not the text was trimmed first.
pub proof fn law_trim_keeps_words(s: Seq<char>)
    ensures
        words(trimmed(s)) == words(s),
{
    lemma_skip_white_space(s, 0);
    let a = skip_white_space(s, 0);
    if a >= s.len() {
        lemma_words_of_white_space(s, a);
    } else {
        lemma_trim_end_at(s, s.len() as int);
        let b = trim_end_at(s, s.len() as int);
        assert(b > a) by {
            if b <= a {
                assert(is_white_space(s[a]));
            }
        }
        lemma_words_within(s, a, b, a);
        assert(trimmed(s) == s.subrange(a, b));
    }
}

/// When each facet name occurs once, the facet array of a name is the array
/// stored under it, wherever it stands.
pub proof fn law_facet_lookup_by_index(
    fields: Seq<(String, Vec<FacetValue>)>,
    name: Seq<char>,
    i: int,
)
    requires
        distinct_names(fields),
        0 <= i < fields.len(),
        fields[i].0@ == name,
    ensures
        facet_raw(fields, name) == Some(fields[i].1@),
    decreases i,
{
    if i > 0 {
        assert(fields[0].0@ != fields[i].0@);
        let rest = fields.drop_first();
        assert(distinct_names(rest)) by {
            assert forall|a: int, b: int| 0 <= a < b < rest.len() implies rest[a].0@
                != rest[b].0@ by {
                assert(rest[a] == fields[a + 1] && rest[b] == fields[b + 1]);
            }
        }
        assert(rest[i - 1] == fields[i]);
        law_facet_lookup_by_index(rest, name, i - 1);
    }
}

/// A name under which no facet array is stored has none.
pub proof fn law_facet_lookup_absent(fields: Seq<(String, Vec<FacetValue>)>, name: Seq<char>)
    requires
        forall|i: int| 0 <= i < fields.len() ==> (#[trigger] fields[i]).0@ != name,
    ensures
        facet_raw(fields, name) is None,
    decreases fields.len(),
{
    if fields.len() > 0 {
        let rest = fields.drop_first();
        assert forall|i: int| 0 <= i < rest.len() implies (#[trigger] rest[i]).0@ != name by {
            assert(rest[i] == fields[i + 1]);
        }
        assert(fields[0].0@ != name);
        law_facet_lookup_absent(rest, name);
    }
}

/// The pair that entries `2k` and `2k + 1` of a facet array give: one when
/// they are a text and a count, none otherwise.
pub open spec fn pair_at(raw: Seq<FacetValue>, k: int) -> Seq<(Seq<char>, i64)> {
    match (raw[2 * k], raw[2 * k + 1]) {
        (FacetValue::Text(v), FacetValue::Count(c)) => seq![(v@, c)],
        _ => seq![],
    }
}

/// The pairs of the first `m` consecutive entry pairs of a facet array.
pub open spec fn pairs_upto(raw: Seq<FacetValue>, m: nat) -> Seq<(Seq<char>, i64)>
    decreases m,
{
    if m == 0 {
        seq![]
    } else {
        pairs_upto(raw, (m - 1) as nat) + pair_at(raw, m - 1)
    }
}

proof fn lemma_pairs_upto_shift(raw: Seq<FacetValue>, m: nat)
    requires
        1 <= m,
        2 * m <= raw.len(),
    ensures
        pairs_upto(raw, m) == pair_at(raw, 0) + pairs_upto(
            raw.subrange(2, raw.len() as int),
            (m - 1) as nat,
        ),
    decreases m,
{
    let rest = raw.subrange(2, raw.len() as int);
    if m == 1 {
        assert(pairs_upto(raw, 0) =~= Seq::<(Seq<char>, i64)>::empty());
        assert(pairs_upto(raw, 1) =~= pair_at(raw, 0));
        assert(pair_at(raw, 0) + pairs_upto(rest, 0) =~= pair_at(raw, 0));
    } else {
        lemma_pairs_upto_shift(raw, (m - 1) as nat);
        assert(rest[2 * (m - 2)] == raw[2 * (m - 1)]);
        assert(rest[2 * (m - 2) + 1] == raw[2 * (m - 1) + 1]);
        assert(pair_at(rest, m - 2) == pair_at(raw, m - 1));
        assert(pairs_upto(raw, m) =~= pair_at(raw, 0) + pairs_upto(rest, (m - 1) as nat));
    }
}

proof fn lemma_pairs_upto_len(raw: Seq<FacetValue>, m: nat)
    ensures
        pairs_upto(raw, m).len() <= m,
    decreases m,
{
    if m > 0 {
        lemma_pairs_upto_len(raw, (m - 1) as nat);
    }
}

/// The pairs of a facet array, in index form: for each `k < len / 2` in
/// order, the pair `(raw[2k], raw[2k + 1])` when it is a text and a count; a
/// trailing odd entry is ignored, so there are at most `len / 2` pairs.
pub proof fn law_facet_pairs_index_form(raw: Seq<FacetValue>)
    ensures
        facet_pairs(raw) == pairs_upto(raw, raw.len() / 2),
        facet_pairs(raw).len() <= raw.len() / 2,
    decreases raw.len(),
{
    if raw.len() < 2 {
        assert(pairs_upto(raw, raw.len() / 2) =~= Seq::<(Seq<char>, i64)>::empty());
    } else {
        let rest = raw.subrange(2, raw.len() as int);
        law_facet_pairs_index_form(rest);
        assert(rest.len() / 2 == raw.len() / 2 - 1);
        lemma_pairs_upto_shift(raw, raw.len() / 2);
        assert(facet_pairs(raw) =~= pair_at(raw, 0) + facet_pairs(rest));
    }
    lemma_pairs_upto_len(raw, raw.len() / 2);
}

/// The number of result pages is the number of pages of [`PAGE_SIZE`]
/// documents needed to hold them all (the last one possibly partial), and one
/// page when nothing matched. A negative count is read as `2^64 + num_found`.
pub proof fn law_page_count_is_ceiling(num_found: i64)
    ensures
        num_found == 0 ==> page_count(num_found) == 1,
        num_found > 0 ==> (page_count(num_found) - 1) * (PAGE_SIZE as int) < num_found
            <= page_count(num_found) * (PAGE_SIZE as int),
        num_found < 0 ==> (page_count(num_found) - 1) * (PAGE_SIZE as int) < num_found
            + 0x1_0000_0000_0000_0000 <= page_count(num_found) * (PAGE_SIZE as int),
{
}

/// There is a page after `page` exactly when documents remain beyond it.
pub proof fn law_next_page_iff_documents_remain(page: u32, num_found: i64)
    requires
        num_found > 0,
        page < u32::MAX,
    ensures
        next_of(page, num_found) is Some <==> (page + 1) * (PAGE_SIZE as int) < num_found,
{
    law_page_count_is_ceiling(num_found);
}

/// Each search scope of the browser front end searches the words of the
/// query within its own Solr field (`title` in `title_t`, `author` in
/// `authFullName_t`, `abstract` in `abstract_t`, `keyword` in `keyword_t`);
/// any other scope, or a query without words, searches the query as it is;
/// and no other parameter is set.
pub proof fn law_scope_queries(scope: Seq<char>, query: Seq<char>)
    ensures
        words(query).len() > 0 ==> scoped_model("title"@, query).q == "title_t:("@ + join(
            words(query),
            " "@,
        ) + ")"@,
        words(query).len() > 0 ==> scoped_model("author"@, query).q == "authFullName_t:("@ + join(
            words(query),
            " "@,
        ) + ")"@,
        words(query).len() > 0 ==> scoped_model("abstract"@, query).q == "abstract_t:("@ + join(
            words(query),
            " "@,
        ) + ")"@,
        words(query).len() > 0 ==> scoped_model("keyword"@, query).q == "keyword_t:("@ + join(
            words(query),
            " "@,
        ) + ")"@,
        words(query).len() == 0 ==> scoped_model(scope, query).q == query,
        (scope != "title"@ && scope != "author"@ && scope != "abstract"@ && scope != "keyword"@)
            ==> scoped_model(scope, query).q == query,
        scoped_model(scope, query) == basic_model(scoped_model(scope, query).q),
{
    reveal_strlit("title");
    reveal_strlit("author");
    reveal_strlit("abstract");
    reveal_strlit("keyword");
    assert("title"@.len() == 5 && "author"@.len() == 6 && "abstract"@.len() == 8
        && "keyword"@.len() == 7);
    assert("abstract"@ != "keyword"@) by {
        assert("abstract"@[0] != "keyword"@[0]);
    }
    reveal_strlit(":(");
    reveal_strlit("title_t");
    reveal_strlit("authFullName_t");
    reveal_strlit("abstract_t");
    reveal_strlit("keyword_t");
    reveal_strlit("title_t:(");
    reveal_strlit("authFullName_t:(");
    reveal_strlit("abstract_t:(");
    reveal_strlit("keyword_t:(");
    assert("title_t:("@ =~= "title_t"@ + ":("@);
    assert("authFullName_t:("@ =~= "authFullName_t"@ + ":("@);
    assert("abstract_t:("@ =~= "abstract_t"@ + ":("@);
    assert("keyword_t:("@ =~= "keyword_t"@ + ":("@);
}

/// A proximity clause is the field, `:`, the phrase between double quotes,
/// `~`, and the distance in decimal: the phrase is always quoted, and the
/// text after `~` reads back as the distance.
pub proof fn law_proximity_clause_shape(field: Seq<char>, phrase: Seq<char>, distance: u32)
    ensures
        ({
            let c = proximity_clause(field, phrase, distance);
            let l = field.len() as int;
            let p = phrase.len() as int;
            &&& c.subrange(0, l) == field
            &&& c[l] == ':'
            &&& c[l + 1] == '"'
            &&& c.subrange(l + 2, l + 2 + p) == phrase
            &&& c[l + 2 + p] == '"'
            &&& c[l + 3 + p] == '~'
            &&& parse_u32_spec(c.subrange(l + 4 + p, c.len() as int)) == Some(distance)
        }),
{
    reveal_strlit(":\"");
    reveal_strlit("\"~");
    law_decimal_parse_u32(distance);
    let c = proximity_clause(field, phrase, distance);
    let l = field.len() as int;
    let p = phrase.len() as int;
    assert(c.subrange(0, l) =~= field);
    assert(c.subrange(l + 2, l + 2 + p) =~= phrase);
    assert(c.subrange(l + 4 + p, c.len() as int) =~= decimal(distance as nat));
}

/// For a facet name stored once, the pairs returned are all the well-formed
/// (text, count) pairs of its array, in index order, none removed; a name
/// stored nowhere gives no pairs.
pub proof fn law_facet_field_pairs_complete(
    fields: Seq<(String, Vec<FacetValue>)>,
    name: Seq<char>,
    i: int,
)
    requires
        distinct_names(fields),
        0 <= i < fields.len(),
        fields[i].0@ == name,
    ensures
        facet_field_pairs(fields, name) == pairs_upto(fields[i].1@, fields[i].1@.len() / 2),
{
    law_facet_lookup_by_index(fields, name, i);
    law_facet_pairs_index_form(fields[i].1@);
}

/// A facet name stored nowhere gives no pairs.
pub proof fn law_facet_field_pairs_absent(fields: Seq<(String, Vec<FacetValue>)>, name: Seq<char>)
    requires
        forall|i: int| 0 <= i < fields.len() ==> (#[trigger] fields[i]).0@ != name,
    ensures
        facet_field_pairs(fields, name) == Seq::<(Seq<char>, i64)>::empty(),
{
    law_facet_lookup_absent(fields, name);
}

/// The authors of a document list every name: one more author adds `", "`
/// and that name at the end of the text.
pub proof fn law_authors_append(d1: HalDoc, d2: HalDoc, x: String)
    requires
        d1.auth_full_name_s is Some,
        d2.auth_full_name_s is Some,
        d1.auth_full_name_s.unwrap()@.len() > 0,
        d2.auth_full_name_s.unwrap()@ == d1.auth_full_name_s.unwrap()@.push(x),
    ensures
        joined_authors(d2) == Some(joined_authors(d1).unwrap() + ", "@ + x@),
{
    let v1 = string_views(d1.auth_full_name_s.unwrap()@);
    let v2 = string_views(d2.auth_full_name_s.unwrap()@);
    assert(v2 =~= v1.push(x@));
    assert(v2.drop_last() =~= v1);
}

/// A single author is the name alone, no author list is the empty text, and
/// a document without the authors field has no authors.
pub proof fn law_authors_base(d: HalDoc)
    ensures
        d.auth_full_name_s is None ==> joined_authors(d) is None,
        (d.auth_full_name_s is Some && d.auth_full_name_s.unwrap()@.len() == 0) ==> joined_authors(d)
            == Some(Seq::<char>::empty()),
        (d.auth_full_name_s is Some && d.auth_full_name_s.unwrap()@.len() == 1) ==> joined_authors(d)
            == Some(d.auth_full_name_s.unwrap()@[0]@),
{
}

/// The title of a document is the first of its titles; it has none when the
/// title field is absent or empty.
pub proof fn law_title_is_first(d: HalDoc)
    ensures
        (d.title_s is Some && d.title_s.unwrap()@.len() > 0) ==> first_title(d) == Some(
            d.title_s.unwrap()@[0]@,
        ),
        (d.title_s is None || d.title_s.unwrap()@.len() == 0) ==> first_title(d) is None,
{
}

/// The heading of a document is its title when it has one, else its label,
/// and it is displayed as `heading (docid)`, or as the bare docid.
pub proof fn law_heading_and_display(d: HalDoc)
    ensures
        first_title(d) is Some ==> heading_of(d) == first_title(d),
        first_title(d) is None ==> heading_of(d) == (match d.label_s {
            Some(l) => Some(l@),
            None => None,
        }),
        heading_of(d) is None ==> display_of(d) == d.docid@,
        heading_of(d) is Some ==> display_of(d) == heading_of(d).unwrap() + seq![' ', '(']
            + d.docid@ + seq![')'],
{
    reveal_strlit(" (");
    reveal_strlit(")");
    if heading_of(d) is Some {
        assert(display_of(d) =~= heading_of(d).unwrap() + seq![' ', '('] + d.docid@ + seq![')']);
    }
}

/// A result card's meta line lists the document type and the production
/// date when present, then `HAL id <docid>`, separated by ` · `.
pub proof fn law_card_meta(d: HalDoc)
    ensures
        ({
            let id = "HAL id "@ + d.docid@;
            let sep = " · "@;
            let parts = card_meta_parts(d);
            &&& (d.doc_type_s is None && d.produced_date_s is None) ==> join(parts, sep) == id
            &&& (d.doc_type_s is Some && d.produced_date_s is None) ==> join(parts, sep)
                == d.doc_type_s.unwrap()@ + sep + id
            &&& (d.doc_type_s is None && d.produced_date_s is Some) ==> join(parts, sep)
                == d.produced_date_s.unwrap()@ + sep + id
            &&& (d.doc_type_s is Some && d.produced_date_s is Some) ==> join(parts, sep)
                == d.doc_type_s.unwrap()@ + sep + d.produced_date_s.unwrap()@ + sep + id
        }),
{
    let id = "HAL id "@ + d.docid@;
    let sep = " · "@;
    let parts = card_meta_parts(d);
    if d.doc_type_s is Some && d.produced_date_s is Some {
        assert(parts =~= seq![d.doc_type_s.unwrap()@, d.produced_date_s.unwrap()@, id]);
        assert(parts.drop_last() =~= seq![d.doc_type_s.unwrap()@, d.produced_date_s.unwrap()@]);
        assert(parts.drop_last().drop_last() =~= seq![d.doc_type_s.unwrap()@]);
        assert(join(parts.drop_last().drop_last(), sep) == d.doc_type_s.unwrap()@);
        assert(join(parts.drop_last(), sep) == d.doc_type_s.unwrap()@ + sep
            + d.produced_date_s.unwrap()@);
        assert(join(parts, sep) == join(parts.drop_last(), sep) + sep + id);
    } else if d.doc_type_s is Some {
        assert(parts =~= seq![d.doc_type_s.unwrap()@, id]);
        assert(parts.drop_last() =~= seq![d.doc_type_s.unwrap()@]);
        assert(join(parts.drop_last(), sep) == d.doc_type_s.unwrap()@);
        assert(join(parts, sep) == join(parts.drop_last(), sep) + sep + id);
    } else if d.produced_date_s is Some {
        assert(parts =~= seq![d.produced_date_s.unwrap()@, id]);
        assert(parts.drop_last() =~= seq![d.produced_date_s.unwrap()@]);
        assert(join(parts.drop_last(), sep) == d.produced_date_s.unwrap()@);
        assert(join(parts, sep) == join(parts.drop_last(), sep) + sep + id);
    } else {
        assert(parts =~= seq![id]);
    }
}

/// The pager is hidden exactly when nothing matched; otherwise it shows the
/// 1-based page number and the page count.
pub proof fn law_pager_shows_page_and_count(page: u32, num_found: i64)
    ensures
        pager_of(page, num_found) is None <==> num_found <= 0,
        pager_of(page, num_found) matches Some(v) ==> v.human_page == page + 1 && v.total_pages
            == page_count(num_found),
{
}

/// Joining lists every part in order: one part is itself, and one more part
/// adds the separator and that part at the end.
pub proof fn law_join_parts(parts: Seq<Seq<char>>, sep: Seq<char>, x: Seq<char>)
    ensures
        join(seq![x], sep) == x,
        join(Seq::<Seq<char>>::empty(), sep) == Seq::<char>::empty(),
        parts.len() > 0 ==> join(parts.push(x), sep) == join(parts, sep) + sep + x,
{
    assert(parts.push(x).drop_last() =~= parts);
}

/// Several terms within a field read `field:(t1<sep>t2…)`: the field, `:(`,
/// the joined terms and `)`.
pub proof fn law_grouped_shape(field: Seq<char>, terms: Seq<Seq<char>>, sep: Seq<char>)
    ensures
        grouped(field, terms, sep) == field + seq![':', '('] + join(terms, sep) + seq![')'],
{
    reveal_strlit(":(");
    reveal_strlit(")");
    assert(grouped(field, terms, sep) =~= field + seq![':', '('] + join(terms, sep) + seq![')']);
}

} // verus!
