use search::config::Config;
use search::json::Json;
use search::logger::{ElasticsearchLogger, FieldVisitor, LogEntry};
use search::models::{SearchRequest, SearchResponse};
use search::query::translate;
use search::response::{answer, finish_search, normalize, reply_of, respond, SearchError};

fn obj(members: Vec<(&str, Json)>) -> Json {
    Json::Object(members.into_iter().map(|(k, v)| (k.to_string(), v)).collect())
}

fn s(text: &str) -> Json {
    Json::Str(text.to_string())
}

fn shards() -> Json {
    obj(vec![
        ("total", Json::Int(1)),
        ("successful", Json::Int(1)),
        ("skipped", Json::Int(0)),
        ("failed", Json::Int(0)),
    ])
}

fn engine_reply(took: i64, total: i64, max_score: Json, hits: Vec<Json>) -> Json {
    obj(vec![
        ("took", Json::Int(took)),
        ("timed_out", Json::Bool(false)),
        ("_shards", shards()),
        (
            "hits",
            obj(vec![
                ("total", obj(vec![("value", Json::Int(total)), ("relation", s("eq"))])),
                ("max_score", max_score),
                ("hits", Json::Array(hits)),
            ]),
        ),
    ])
}

fn stored(id: &str, title: &str) -> Json {
    obj(vec![
        ("_index", s("test_posts")),
        ("_id", s(id)),
        ("_score", Json::Float(1.0f64.to_bits())),
        (
            "_source",
            obj(vec![
                ("title", s(title)),
                ("content", s("Test Content")),
                ("excerpt", s("Test Excerpt")),
                ("slug", s("test-slug")),
                ("type", s("post")),
                ("published_at", Json::Int(1_672_531_200_000_000)),
                ("is_published", Json::Bool(true)),
            ]),
        ),
    ])
}

fn test_config() -> Config {
    Config::from_env(
        Some("http://localhost:9200".to_string()),
        Some("test_posts".to_string()),
        None,
        None,
    )
}

#[test]
fn test_search_posts_empty_results() {
    let request = SearchRequest {
        query: "nonexistent term".to_string(),
        fields: None,
        from: None,
        size: None,
    };
    let config = test_config();
    let query = translate(&request, &config.elasticsearch_index);
    assert_eq!(query.index, "test_posts");

    let mock_response = engine_reply(2, 0, Json::Null, Vec::new());
    let result = finish_search(reply_of(200, Some(mock_response)), 2);

    assert!(result.is_ok());

    let response = result.unwrap();
    assert_eq!(response.total, 0);
    assert_eq!(response.hits.len(), 0);
}

#[test]
fn test_search_posts_elasticsearch_error() {
    let request = SearchRequest::default();
    let config = test_config();
    let query = translate(&request, &config.elasticsearch_index);
    assert_eq!(query.index, "test_posts");

    // The engine answers 500 with the text "Internal Server Error", which is
    // no document.
    let result = finish_search(reply_of(500, None), 0);

    assert!(result.is_err());
}

#[test]
fn a_search_with_two_hits() {
    let request = SearchRequest {
        query: "hello world".to_string(),
        fields: None,
        from: None,
        size: None,
    };
    let query = translate(&request, "posts");
    assert_eq!(query.index, "posts");
    assert_eq!(query.body.get("from"), Some(&Json::UInt(0)));
    assert_eq!(query.body.get("size"), Some(&Json::UInt(10)));

    let reply = engine_reply(
        5,
        2,
        Json::Float(1.0f64.to_bits()),
        vec![stored("1", "Hello"), stored("2", "World")],
    );
    let response = answer(200, Some(reply), 5);

    assert_eq!(response.hits.len(), 2);
    assert_eq!(response.total, 2);
    assert_eq!(response.took_ms, 5);
    assert_eq!(response.hits[0].title, "Hello");
    assert_eq!(response.hits[1].title, "World");
    assert_eq!(
        response.hits[0].published_at,
        Some("2023-01-01T00:00:00.000000000".to_string())
    );
}

#[test]
fn a_search_without_matches() {
    let reply = engine_reply(2, 0, Json::Null, Vec::new());
    let response = respond(finish_search(Ok(reply), 4));
    assert_eq!(response, SearchResponse { hits: Vec::new(), total: 0, took_ms: 4 });
}

#[test]
fn a_search_against_a_failing_engine() {
    let response = respond(finish_search(Err(SearchError::Transport), 31));
    assert_eq!(response, SearchResponse { hits: Vec::new(), total: 0, took_ms: 0 });
}

#[test]
fn a_search_against_an_engine_that_answers_500() {
    let nothing = SearchResponse { hits: Vec::new(), total: 0, took_ms: 0 };
    assert_eq!(answer(500, None, 31), nothing);
    let with_hits = engine_reply(5, 2, Json::Null, vec![stored("1", "Hello")]);
    assert_eq!(answer(500, Some(with_hits), 31), nothing);
}

#[test]
fn a_search_against_an_engine_that_reports_an_error() {
    let reply = obj(vec![
        ("error", obj(vec![("type", s("search_phase_execution_exception"))])),
        ("status", Json::Int(500)),
    ]);
    assert_eq!(normalize(&reply, 8), Err(SearchError::MalformedResponse));
    let response = answer(200, Some(reply), 8);
    assert_eq!(response, SearchResponse { hits: Vec::new(), total: 0, took_ms: 0 });
}

#[test]
fn no_log_is_written_while_mirroring_is_off() {
    let logger = ElasticsearchLogger::new(Config::from_env(None, None, None, None));
    let events = [
        ("INFO", "Search request received: query=hello world"),
        ("INFO", "Search completed: found 2 results, took 5ms"),
        ("ERROR", "Search failed: connection refused"),
    ];
    for (tick, (level, message)) in events.iter().enumerate() {
        let mut fields = FieldVisitor::new();
        fields.record_debug("message", message);
        let entry = LogEntry::at(level, "search::routes", fields, 1_700_000_000 + tick as i64, 0);
        assert_eq!(logger.plan_write(&entry, 1_700_000_000 + tick as i64, 0), None);
    }
    for flag in ["false", "0", "", "no", "truthy"] {
        let config = Config::from_env(None, None, Some(flag.to_string()), None);
        let logger = ElasticsearchLogger::new(config);
        let entry = LogEntry::at("INFO", "search", FieldVisitor::new(), 0, 0);
        assert_eq!(logger.plan_write(&entry, 0, 0), None);
    }
}

#[test]
fn logs_are_written_once_mirroring_is_on() {
    let config = Config::from_env(None, None, Some("True".to_string()), None);
    let logger = ElasticsearchLogger::new(config);
    let mut fields = FieldVisitor::new();
    fields.record_debug("message", "Search request received: query=cat");
    fields.record_u64("line", 33);
    let entry = LogEntry::at("INFO", "search::routes", fields, 1_700_000_000, 0);
    let write = logger.plan_write(&entry, 1_700_000_000, 0).unwrap();
    assert_eq!(write.index, "okblog-search-logs-2023-11-14");
    assert_eq!(write.document.get("level"), Some(&s("INFO")));
    assert_eq!(write.document.get("timestamp"), Some(&s("2023-11-14T22:13:20Z")));
    assert_eq!(write.document.get("line"), Some(&Json::UInt(33)));
}
