use reque::api::{ApiKey, RRequest, CORS};
use reque::entry::{persisted_headers, StoredRequest};
use reque::ingest::ingest_request;
use reque::store::QueueStore;

#[test]
fn api_key_round_trips_to_string() {
    assert_eq!(ApiKey("a-key-value").to_string(), "a-key-value");
    assert_eq!(ApiKey("").to_string(), "");
}

#[test]
fn cors_headers_are_the_fixed_policy() {
    assert_eq!(CORS::allow_origin(), ("Access-Control-Allow-Origin", "*"));
    assert_eq!(
        CORS::allow_methods(),
        ("Access-Control-Allow-Methods", "POST, GET, PATCH, OPTIONS")
    );
    assert_eq!(CORS::allow_headers(), ("Access-Control-Allow-Headers", "*"));
}

#[test]
fn a_deconstructed_request_ingests_verbatim() {
    let request = RRequest {
        method: "POST".to_string(),
        host: "origin.example".to_string(),
        port: 80,
        uri: "/plugins/shopify".to_string(),
        headers: "X-One: 1".to_string(),
        body: String::new(),
    };
    let stored: StoredRequest = request.into_stored("payload".to_string());
    assert_eq!(stored.method, "POST");
    assert_eq!(stored.host, "origin.example");
    assert_eq!(stored.port, 80);
    assert_eq!(stored.uri, "/plugins/shopify");
    assert_eq!(stored.headers, "X-One: 1");
    assert_eq!(stored.body, "payload");

    let mut store = QueueStore::new();
    let id = ingest_request(&mut store, stored, 1700000000);
    assert_eq!(id, 1);
    let entry = store.peek_oldest().expect("just enqueued");
    assert_eq!(entry.id, 1);
    assert_eq!(entry.body, "payload");
    assert_eq!(entry.enqueued_at, 1700000000);
}

#[test]
fn the_persisted_row_always_stores_empty_headers() {
    assert_eq!(persisted_headers("X-One: 1\nX-Two: 2"), "");
    assert_eq!(persisted_headers(""), "");
}
