use search::models::{SearchRequest, SearchResponse, DEFAULT_FROM, DEFAULT_SIZE};

#[test]
fn default_request() {
    let request = SearchRequest::default();
    assert_eq!(request.query, "");
    assert_eq!(request.fields, Some(vec!["title".to_string(), "content".to_string()]));
    assert_eq!(request.from, Some(0));
    assert_eq!(request.size, Some(10));
}

#[test]
fn defaults_of_a_bare_request() {
    let request = SearchRequest { query: "q".to_string(), fields: None, from: None, size: None };
    assert_eq!(request.effective_from(), 0);
    assert_eq!(request.effective_size(), 10);
    assert_eq!(request.effective_fields(), vec!["title".to_string(), "content".to_string()]);
    assert_eq!(DEFAULT_FROM, 0);
    assert_eq!(DEFAULT_SIZE, 10);
}

#[test]
fn given_values_win_over_defaults() {
    let request = SearchRequest {
        query: "q".to_string(),
        fields: Some(vec!["slug".to_string()]),
        from: Some(30),
        size: Some(0),
    };
    assert_eq!(request.effective_from(), 30);
    assert_eq!(request.effective_size(), 0);
    assert_eq!(request.effective_fields(), vec!["slug".to_string()]);
}

#[test]
fn an_empty_field_list_stays_empty() {
    let request =
        SearchRequest { query: "q".to_string(), fields: Some(Vec::new()), from: None, size: None };
    assert_eq!(request.effective_fields(), Vec::<String>::new());
}

#[test]
fn empty_response() {
    assert_eq!(SearchResponse::empty(), SearchResponse { hits: Vec::new(), total: 0, took_ms: 0 });
}
