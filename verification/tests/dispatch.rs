use reque::dispatch::{dispatch_cycle, settle_delivery, should_remove, DispatchPolicy};
use reque::entry::StoredRequest;
use reque::store::QueueStore;

fn e1() -> StoredRequest {
    StoredRequest {
        method: "POST".to_string(),
        host: "origin.example".to_string(),
        port: 80,
        uri: "/a".to_string(),
        headers: String::new(),
        body: "x".to_string(),
    }
}

#[test]
fn scenario_failing_forwarder_with_require_success_keeps_entry() {
    // requireSuccess = true, removeOnFailure = false, Forwarder always false.
    let policy = DispatchPolicy { require_success: true, remove_on_failure: false };
    let mut store = QueueStore::new();
    let id = store.enqueue(e1(), 10);
    let k = 4;
    for _ in 0..k {
        // What this cycle hands to the Forwarder: always E1, unchanged.
        let oldest = store.peek_oldest().expect("entry still present");
        assert_eq!(oldest.uri, "/a");
        assert_eq!(oldest.body, "x");
        let attempted = dispatch_cycle(&mut store, false, &policy);
        assert_eq!(attempted, Some(id));
    }
    // After K cycles E1 is still present.
    assert!(store.contains_id(id));
    assert_eq!(store.len(), 1);
}

#[test]
fn scenario_success_with_require_success_removes_entry_once() {
    // Same setup, but the Forwarder returns true on the first call.
    let policy = DispatchPolicy { require_success: true, remove_on_failure: false };
    let mut store = QueueStore::new();
    let id = store.enqueue(e1(), 10);
    let attempted = dispatch_cycle(&mut store, true, &policy);
    assert_eq!(attempted, Some(id));
    assert!(!store.contains_id(id));
    assert_eq!(store.len(), 0);
    // E1 is never delivered again: the next cycle attempts nothing.
    assert_eq!(dispatch_cycle(&mut store, true, &policy), None);
}

#[test]
fn scenario_remove_on_failure_removes_despite_failure() {
    let policy = DispatchPolicy { require_success: false, remove_on_failure: true };
    let mut store = QueueStore::new();
    let id = store.enqueue(e1(), 10);
    let attempted = dispatch_cycle(&mut store, false, &policy);
    assert_eq!(attempted, Some(id));
    assert!(!store.contains_id(id));
    assert_eq!(store.len(), 0);
}

#[test]
fn scenario_success_with_both_flags_off_redelivers_forever() {
    // Documents the corner case: success with both flags false never removes.
    let policy = DispatchPolicy { require_success: false, remove_on_failure: false };
    let mut store = QueueStore::new();
    let id = store.enqueue(e1(), 10);
    for _ in 0..6 {
        let oldest = store.peek_oldest().expect("entry still present");
        assert_eq!(oldest.uri, "/a");
        assert_eq!(oldest.body, "x");
        let attempted = dispatch_cycle(&mut store, true, &policy);
        assert_eq!(attempted, Some(id));
        assert!(store.contains_id(id));
    }
    assert_eq!(store.len(), 1);
}

#[test]
fn both_flags_firing_in_one_cycle_remove_the_entry_once() {
    let policy = DispatchPolicy { require_success: true, remove_on_failure: true };
    let mut store = QueueStore::new();
    let id = store.enqueue(e1(), 10);
    let other = store.enqueue(e1(), 11);
    settle_delivery(&mut store, id, true, &policy);
    assert_eq!(store.len(), 1);
    assert!(store.contains_id(other));
}

#[test]
fn removal_decision_matches_the_flag_table() {
    for &(success, require, remove, expected) in &[
        (false, false, false, false),
        (true, false, false, false),
        (false, true, false, false),
        (true, true, false, true),
        (false, false, true, true),
        (true, false, true, true),
        (false, true, true, true),
        (true, true, true, true),
    ] {
        let policy = DispatchPolicy { require_success: require, remove_on_failure: remove };
        assert_eq!(should_remove(success, &policy), expected);
    }
}

#[test]
fn successful_cycles_drain_the_queue_in_arrival_order() {
    // Many independent enqueues yield distinct entries, then an always-
    // successful Forwarder under requireSuccess drains one per cycle.
    let policy = DispatchPolicy { require_success: true, remove_on_failure: false };
    let mut store = QueueStore::new();
    let n = 5;
    let mut ids = Vec::new();
    for k in 0..n {
        ids.push(store.enqueue(e1(), k));
    }
    assert_eq!(store.len(), n as usize);
    let mut attempted_order = Vec::new();
    for _ in 0..n {
        attempted_order.push(dispatch_cycle(&mut store, true, &policy).expect("nonempty"));
    }
    assert_eq!(attempted_order, ids);
    assert_eq!(store.len(), 0);
    assert_eq!(dispatch_cycle(&mut store, true, &policy), None);
}
