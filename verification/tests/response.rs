use hal_sdk::client::{api_result, is_success, DEFAULT_BASE_URL};
use hal_sdk::{FacetCounts, FacetValue, HalClient, HalDoc, HalError, ResponseBody, SearchResponse};

fn doc(docid: &str) -> HalDoc {
    HalDoc {
        docid: docid.to_string(),
        label_s: None,
        uri_s: None,
        title_s: None,
        auth_full_name_s: None,
        produced_date_s: None,
        doc_type_s: None,
        extra: serde_json::Map::new(),
    }
}

#[test]
fn title_is_the_first_title() {
    let mut d = doc("1");
    assert_eq!(d.title(), None);
    d.title_s = Some(vec![]);
    assert_eq!(d.title(), None);
    d.title_s = Some(vec!["First".to_string(), "Second".to_string()]);
    assert_eq!(d.title(), Some("First"));
}

#[test]
fn authors_are_joined() {
    let mut d = doc("1");
    assert_eq!(d.authors(), None);
    d.auth_full_name_s = Some(vec!["Ada Lovelace".to_string(), "Alan Turing".to_string()]);
    assert_eq!(d.authors(), Some("Ada Lovelace, Alan Turing".to_string()));
    d.auth_full_name_s = Some(vec![]);
    assert_eq!(d.authors(), Some(String::new()));
}

#[test]
fn heading_prefers_title_then_label() {
    let mut d = doc("42");
    assert_eq!(d.heading(), None);
    assert_eq!(d.to_string(), "42");
    d.label_s = Some("A label".to_string());
    assert_eq!(d.heading(), Some("A label"));
    assert_eq!(d.to_string(), "A label (42)");
    d.title_s = Some(vec!["A title".to_string()]);
    assert_eq!(d.heading(), Some("A title"));
    assert_eq!(d.to_string(), "A title (42)");
}

#[test]
fn facet_pairs_in_order() {
    let counts = FacetCounts {
        facet_fields: vec![(
            "docType_s".to_string(),
            vec![
                FacetValue::Text("ART".to_string()),
                FacetValue::Count(1234),
                FacetValue::Text("COMM".to_string()),
                FacetValue::Count(567),
            ],
        )],
    };
    assert_eq!(
        counts.field("docType_s"),
        vec![("ART".to_string(), 1234), ("COMM".to_string(), 567)]
    );
    assert!(counts.field("language_s").is_empty());
}

#[test]
fn malformed_facet_pairs_are_skipped() {
    let counts = FacetCounts {
        facet_fields: vec![
            ("other".to_string(), vec![FacetValue::Text("x".to_string()), FacetValue::Count(1)]),
            (
                "docType_s".to_string(),
                vec![
                    FacetValue::Count(3),
                    FacetValue::Text("ART".to_string()),
                    FacetValue::Text("COMM".to_string()),
                    FacetValue::Other(serde_json::Value::Null),
                    FacetValue::Text("THESE".to_string()),
                    FacetValue::Count(9),
                    FacetValue::Text("ODD".to_string()),
                ],
            ),
        ],
    };
    assert_eq!(counts.field("docType_s"), vec![("THESE".to_string(), 9)]);
    assert_eq!(counts.field("other"), vec![("x".to_string(), 1)]);
    assert!(FacetCounts::default().field("docType_s").is_empty());
}

#[test]
fn response_accessors() {
    let response = SearchResponse {
        response: ResponseBody { num_found: 12, start: 10, docs: vec![doc("a"), doc("b")] },
        facet_counts: None,
    };
    assert_eq!(response.num_found(), 12);
    assert_eq!(response.start(), 10);
    assert_eq!(response.docs().len(), 2);
    assert_eq!(response.docs()[1].docid, "b");
    assert!(response.facets().is_none());
    let with_facets = SearchResponse { facet_counts: Some(FacetCounts::default()), ..response };
    assert!(with_facets.facets().is_some());
}

#[test]
fn success_passes_the_body_on() {
    assert!(is_success(200));
    assert!(is_success(299));
    assert!(!is_success(199));
    assert!(!is_success(300));
    match api_result(200, "{\"ok\":1}".to_string()) {
        Ok(body) => assert_eq!(body, "{\"ok\":1}"),
        Err(_) => panic!("a 200 answer is a success"),
    }
}

#[test]
fn failure_keeps_status_and_short_body() {
    match api_result(404, "not found".to_string()) {
        Err(HalError::Api { status, body }) => {
            assert_eq!(status, 404);
            assert_eq!(body, "not found");
        }
        _ => panic!("a 404 answer is an API error"),
    }
}

#[test]
fn failure_truncates_long_body_to_500_bytes() {
    let long = "é".repeat(300); // 600 bytes, boundaries every 2 bytes
    match api_result(503, long.clone()) {
        Err(HalError::Api { status, body }) => {
            assert_eq!(status, 503);
            assert_eq!(body.len(), 500);
            assert_eq!(body, "é".repeat(250));
        }
        _ => panic!("a 503 answer is an API error"),
    }
    let exact = "x".repeat(500);
    match api_result(500, exact.clone()) {
        Err(HalError::Api { body, .. }) => assert_eq!(body, exact),
        _ => panic!("a 500 answer is an API error"),
    }
}

#[test]
fn error_messages() {
    let api = HalError::Api { status: 502, body: "bad gateway".to_string() };
    assert_eq!(api.to_string(), "HAL API returned status 502: bad gateway");

    let json_err = serde_json::from_str::<u32>("not json").unwrap_err();
    let expected = format!("JSON decoding error: {}", json_err);
    let err: HalError = json_err.into();
    assert_eq!(err.to_string(), expected);
    assert!(matches!(err, HalError::Json(_)));
}

#[test]
fn client_base_urls() {
    assert_eq!(DEFAULT_BASE_URL, "https://api.archives-ouvertes.fr/search/");
    assert_eq!(HalClient::new().base_url(), DEFAULT_BASE_URL);
    assert_eq!(HalClient::default().base_url(), DEFAULT_BASE_URL);
    assert_eq!(HalClient::with_base_url("http://localhost:8983/").base_url(), "http://localhost:8983/");
}

#[test]
fn json_error_messages() {
    assert_eq!(
        hal_sdk::error::json_error_message("EOF while parsing a value at line 1 column 0"),
        "JSON decoding error: EOF while parsing a value at line 1 column 0"
    );
}

#[test]
fn facet_lookup_by_name_anywhere() {
    let counts = FacetCounts {
        facet_fields: vec![
            ("language_s".to_string(), vec![FacetValue::Text("fr".to_string()), FacetValue::Count(8)]),
            ("docType_s".to_string(), vec![FacetValue::Text("ART".to_string()), FacetValue::Count(2)]),
        ],
    };
    assert_eq!(counts.field("docType_s"), vec![("ART".to_string(), 2)]);
    assert_eq!(counts.field("language_s"), vec![("fr".to_string(), 8)]);
    assert!(counts.field("missing").is_empty());
}

#[test]
fn request_error_message() {
    let e = reqwest::Client::new().get("not a url").build().unwrap_err();
    let expected = format!("HTTP request error: {}", e);
    let err: HalError = e.into();
    assert!(matches!(err, HalError::Request(_)));
    assert_eq!(err.to_string(), expected);
}
