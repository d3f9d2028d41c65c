use user_search::{ElasticSearchClient, JsonValue, Method, QueryInput, SearchInput};

#[test]
fn client_urls() {
    let c = ElasticSearchClient::new("localhost".to_string(), 9200);
    assert_eq!(c.address, "http://localhost:9200");
    assert_eq!(c.entity_url("users", "abc123"), "http://localhost:9200/users/_doc/abc123");
    assert_eq!(c.search_url(), "http://localhost:9200/_search");
    assert_eq!(c.search_url_with_query("name:ann"), "http://localhost:9200/_search?q=name:ann");
}

#[test]
fn text_search_goes_in_the_address() {
    let c = ElasticSearchClient::new("db".to_string(), 80);
    let r = c.search_request(&SearchInput::new(QueryInput::Text("ann".to_string()), Some(30), Some(0)));
    assert_eq!(r.method, Method::Get);
    assert_eq!(r.url, "http://db:80/_search?q=ann");
    assert!(r.body.is_some());
}

#[test]
fn structured_search_goes_in_the_body() {
    let c = ElasticSearchClient::new("db".to_string(), 0);
    let r = c.search_request(&SearchInput::new(QueryInput::MatchAll, Some(30), Some(0)));
    assert_eq!(r.method, Method::Post);
    assert_eq!(r.url, "http://db:0/_search");
    match r.body {
        Some(JsonValue::Object(es)) => assert_eq!(es.len(), 3),
        _ => panic!("no body"),
    }
}

#[test]
fn document_requests() {
    let c = ElasticSearchClient::new("h".to_string(), 1);
    let g = c.get_request("users", "x");
    assert_eq!((g.method, g.url.as_str(), g.body.is_none()), (Method::Get, "http://h:1/users/_doc/x", true));
    let p = c.post_request("users", "x", JsonValue::Null);
    assert_eq!((p.method, p.url.as_str(), p.body), (Method::Post, "http://h:1/users/_doc/x", Some(JsonValue::Null)));
}
