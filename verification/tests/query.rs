use hal_sdk::{Field, SearchQuery};

fn param<'a>(params: &'a [(String, String)], key: &str) -> Option<&'a str> {
    params
        .iter()
        .find(|(k, _)| k == key)
        .map(|(_, v)| v.as_str())
}

#[test]
fn basic_query() {
    let params = SearchQuery::basic("europe").to_params();
    assert_eq!(param(&params, "q"), Some("europe"));
    assert_eq!(param(&params, "wt"), Some("json"));
}

#[test]
fn field_query() {
    let params = SearchQuery::field("title_t", "europe").to_params();
    assert_eq!(param(&params, "q"), Some("title_t:europe"));
}

#[test]
fn field_terms_query() {
    let params = SearchQuery::field_terms("title_t", &["economic", "policy"]).to_params();
    assert_eq!(param(&params, "q"), Some("title_t:(economic policy)"));
}

#[test]
fn proximity_query() {
    let params = SearchQuery::proximity("title_t", "economic policy", 3).to_params();
    assert_eq!(param(&params, "q"), Some("title_t:\"economic policy\"~3"));
}

#[test]
fn pagination_and_fields() {
    let params = SearchQuery::basic("europe")
        .fields(&["docid", "label_s"])
        .page(2, 10)
        .to_params();
    assert_eq!(param(&params, "fl"), Some("docid,label_s"));
    assert_eq!(param(&params, "rows"), Some("10"));
    assert_eq!(param(&params, "start"), Some("20"));
}

#[test]
fn field_all_terms_uses_and() {
    let params = SearchQuery::field_all_terms("title_t", &["economic", "policy"]).to_params();
    assert_eq!(param(&params, "q"), Some("title_t:(economic AND policy)"));
}

#[test]
fn in_field_groups_words() {
    let params = SearchQuery::in_field(Field::Title, "open science").to_params();
    assert_eq!(param(&params, "q"), Some("title_t:(open science)"));

    let single = SearchQuery::in_field(Field::Author, "dupont").to_params();
    assert_eq!(param(&single, "q"), Some("authFullName_t:(dupont)"));
}

#[test]
fn facets_enabled() {
    let params = SearchQuery::basic("europe").facet("docType_s").to_params();
    assert_eq!(param(&params, "facet"), Some("true"));
    assert_eq!(param(&params, "facet.field"), Some("docType_s"));
}

#[test]
fn field_names() {
    assert_eq!(Field::Title.name(), "title_t");
    assert_eq!(Field::Author.name(), "authFullName_t");
    assert_eq!(Field::Abstract.name(), "abstract_t");
    assert_eq!(Field::Keyword.name(), "keyword_t");
}

#[test]
fn basic_query_sends_only_q_and_wt() {
    let params = SearchQuery::basic("europe").to_params();
    assert_eq!(
        params,
        vec![
            ("q".to_owned(), "europe".to_owned()),
            ("wt".to_owned(), "json".to_owned())
        ]
    );
}

#[test]
fn every_parameter_in_order() {
    let params = SearchQuery::basic("x")
        .fields(&["a", "b", "c"])
        .rows(7)
        .start(40)
        .sort("producedDate_s desc")
        .facet("docType_s")
        .facet("language_s")
        .to_params();
    let expected: Vec<(String, String)> = [
        ("q", "x"),
        ("wt", "json"),
        ("fl", "a,b,c"),
        ("rows", "7"),
        ("start", "40"),
        ("sort", "producedDate_s desc"),
        ("facet", "true"),
        ("facet.field", "docType_s"),
        ("facet.field", "language_s"),
    ]
    .iter()
    .map(|(k, v)| (k.to_string(), v.to_string()))
    .collect();
    assert_eq!(params, expected);
}

#[test]
fn page_is_rows_then_start() {
    let a = SearchQuery::basic("europe").page(3, 25).to_params();
    let b = SearchQuery::basic("europe").rows(25).start(75).to_params();
    assert_eq!(a, b);
}

#[test]
fn later_setting_replaces_earlier() {
    let params = SearchQuery::basic("q")
        .rows(5)
        .rows(9)
        .fields(&["a"])
        .fields(&["b"])
        .sort("s1")
        .sort("s2")
        .to_params();
    assert_eq!(param(&params, "rows"), Some("9"));
    assert_eq!(param(&params, "fl"), Some("b"));
    assert_eq!(param(&params, "sort"), Some("s2"));
}

#[test]
fn empty_field_list_sends_no_fl() {
    let params = SearchQuery::basic("q").fields(&[]).to_params();
    assert_eq!(param(&params, "fl"), None);
}

#[test]
fn in_field_whitespace_and_empty_values() {
    let params = SearchQuery::in_field(Field::Keyword, "  open\t\nscience \u{3000}data ").to_params();
    assert_eq!(param(&params, "q"), Some("keyword_t:(open science data)"));

    let empty = SearchQuery::in_field(Field::Title, "").to_params();
    assert_eq!(param(&empty, "q"), Some(""));

    let blank = SearchQuery::in_field(Field::Abstract, " \t ").to_params();
    assert_eq!(param(&blank, "q"), Some(" \t "));
}

#[test]
fn field_terms_edge_cases() {
    let none = SearchQuery::field_terms("title_t", &[]).to_params();
    assert_eq!(param(&none, "q"), Some("title_t:()"));
    let one = SearchQuery::field_all_terms("title_t", &["alone"]).to_params();
    assert_eq!(param(&one, "q"), Some("title_t:(alone)"));
}

#[test]
fn proximity_large_distance() {
    let params = SearchQuery::proximity("abstract_t", "open access", 4294967295).to_params();
    assert_eq!(param(&params, "q"), Some("abstract_t:\"open access\"~4294967295"));
}

#[test]
fn pagination_extremes() {
    let params = SearchQuery::basic("q").page(0, 0).to_params();
    assert_eq!(param(&params, "rows"), Some("0"));
    assert_eq!(param(&params, "start"), Some("0"));
    let params = SearchQuery::basic("q").page(1, u32::MAX).to_params();
    assert_eq!(param(&params, "start"), Some("4294967295"));
}

#[test]
fn in_field_is_field_terms_of_the_words() {
    let value = " economic \t policy ";
    let words: Vec<&str> = hal_sdk::text::split_whitespace(value);
    assert_eq!(
        SearchQuery::in_field(Field::Title, value).to_params(),
        SearchQuery::field_terms(Field::Title.name(), &words).to_params()
    );
}
