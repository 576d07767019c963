use reque::entry::StoredRequest;
use reque::store::QueueStore;

fn request(method: &str, uri: &str, body: &str) -> StoredRequest {
    StoredRequest {
        method: method.to_string(),
        host: "origin.example".to_string(),
        port: 80,
        uri: uri.to_string(),
        headers: String::new(),
        body: body.to_string(),
    }
}

#[test]
fn enqueue_assigns_unique_increasing_ids() {
    let mut store = QueueStore::new();
    let mut ids = Vec::new();
    for k in 0..5 {
        let id = store.enqueue(request("POST", "/a", &format!("b{}", k)), 100 + k);
        ids.push(id);
    }
    assert_eq!(ids, vec![1, 2, 3, 4, 5]);
    for i in 0..ids.len() {
        for j in (i + 1)..ids.len() {
            assert!(ids[i] < ids[j]);
        }
    }
}

#[test]
fn ids_keep_increasing_after_deletions() {
    let mut store = QueueStore::new();
    let a = store.enqueue(request("POST", "/a", "x"), 1);
    let b = store.enqueue(request("POST", "/b", "y"), 2);
    store.delete(a);
    store.delete(b);
    assert_eq!(store.len(), 0);
    let c = store.enqueue(request("POST", "/c", "z"), 3);
    assert!(c > b);
    assert_eq!(c, 3);
}

#[test]
fn peek_returns_minimum_id_and_none_iff_empty() {
    let mut store = QueueStore::new();
    assert!(store.peek_oldest().is_none());
    let a = store.enqueue(request("POST", "/a", "x"), 1);
    let _b = store.enqueue(request("POST", "/b", "y"), 2);
    {
        let oldest = store.peek_oldest().expect("nonempty");
        assert_eq!(oldest.id, a);
        assert_eq!(oldest.uri, "/a");
        assert_eq!(oldest.body, "x");
        assert_eq!(oldest.enqueued_at, 1);
    }
    // Peeking does not remove.
    assert_eq!(store.len(), 2);
    store.delete(a);
    let oldest = store.peek_oldest().expect("nonempty");
    assert_eq!(oldest.uri, "/b");
}

#[test]
fn delete_is_idempotent_and_absent_id_is_noop() {
    let mut store = QueueStore::new();
    let a = store.enqueue(request("POST", "/a", "x"), 1);
    let b = store.enqueue(request("POST", "/b", "y"), 2);
    // Absent id: never an error, nothing changes.
    store.delete(9999);
    assert_eq!(store.len(), 2);
    // Delete twice: the second is a no-op.
    store.delete(a);
    assert_eq!(store.len(), 1);
    store.delete(a);
    assert_eq!(store.len(), 1);
    assert!(!store.contains_id(a));
    assert!(store.contains_id(b));
}
