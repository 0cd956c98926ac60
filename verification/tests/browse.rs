use hal_sdk::browse::{
    build_query, card_meta, page_info, results_status, next_page, pager, prev_page, returned_field_names, scope_to_field, total_pages,
    u32_or, PAGE_SIZE,
};
use hal_sdk::Field;

fn param<'a>(params: &'a [(String, String)], key: &str) -> Option<&'a str> {
    params
        .iter()
        .find(|(k, _)| k == key)
        .map(|(_, v)| v.as_str())
}

#[test]
fn scopes_name_fields() {
    assert_eq!(scope_to_field("title"), Some(Field::Title));
    assert_eq!(scope_to_field("author"), Some(Field::Author));
    assert_eq!(scope_to_field("abstract"), Some(Field::Abstract));
    assert_eq!(scope_to_field("keyword"), Some(Field::Keyword));
    assert_eq!(scope_to_field("all"), None);
    assert_eq!(scope_to_field("Title"), None);
}

#[test]
fn scoped_queries() {
    let params = build_query("title", "open science", 2).to_params();
    assert_eq!(param(&params, "q"), Some("title_t:(open science)"));
    assert_eq!(param(&params, "rows"), Some("20"));
    assert_eq!(param(&params, "start"), Some("40"));
    assert_eq!(
        param(&params, "fl"),
        Some("docid,label_s,uri_s,title_s,authFullName_s,producedDate_s,docType_s")
    );
    let all = build_query("all", "europe", 0).to_params();
    assert_eq!(param(&all, "q"), Some("europe"));
    assert_eq!(param(&all, "start"), Some("0"));
    assert_eq!(returned_field_names().len(), 7);
    assert_eq!(PAGE_SIZE, 20);
}

#[test]
fn numbers_from_arguments() {
    assert_eq!(u32_or(Some("3"), 0), 3);
    assert_eq!(u32_or(Some("x"), 10), 10);
    assert_eq!(u32_or(Some("-1"), 10), 10);
    assert_eq!(u32_or(None, 10), 10);
    assert_eq!(u32_or(Some(&7u32.to_string()), 0), 7);
}

#[test]
fn page_counts() {
    assert_eq!(total_pages(0), 1);
    assert_eq!(total_pages(1), 1);
    assert_eq!(total_pages(20), 1);
    assert_eq!(total_pages(21), 2);
    assert_eq!(total_pages(-1), (u64::MAX / 20) + 1);
}

#[test]
fn navigation() {
    assert_eq!(next_page(0, 45), Some(1));
    assert_eq!(next_page(2, 45), None);
    assert_eq!(prev_page(0), None);
    assert_eq!(prev_page(2), Some(1));
    assert_eq!(next_page(prev_page(2).unwrap(), 45), Some(2));
    assert_eq!(prev_page(next_page(0, 45).unwrap()), Some(0));
    assert_eq!(next_page(0, 0), None);
}

#[test]
fn pager_views() {
    assert!(pager(0, 0).is_none());
    assert!(pager(0, -5).is_none());
    let v = pager(0, 45).unwrap();
    assert_eq!((v.total_pages, v.human_page, v.prev_disabled, v.next_disabled), (3, 1, true, false));
    let v = pager(2, 45).unwrap();
    assert_eq!((v.total_pages, v.human_page, v.prev_disabled, v.next_disabled), (3, 3, false, true));
}

#[test]
fn status_and_captions() {
    assert_eq!(results_status(45, 20), "45 documents found — showing 20.");
    assert_eq!(results_status(-3, 0), "-3 documents found — showing 0.");
    assert_eq!(page_info(&pager(1, 45).unwrap()), "Page 2 of 3");
}

#[test]
fn card_meta_lines() {
    let mut d = hal_sdk::HalDoc {
        docid: "123".to_string(),
        label_s: None,
        uri_s: None,
        title_s: None,
        auth_full_name_s: None,
        produced_date_s: None,
        doc_type_s: None,
        extra: serde_json::Map::new(),
    };
    assert_eq!(card_meta(&d), "HAL id 123");
    d.doc_type_s = Some("ART".to_string());
    d.produced_date_s = Some("2024-05-01".to_string());
    assert_eq!(card_meta(&d), "ART · 2024-05-01 · HAL id 123");
    d.doc_type_s = None;
    assert_eq!(card_meta(&d), "2024-05-01 · HAL id 123");
}
