use reque::forward::{build_target_url, delivery_succeeded};

#[test]
fn builds_the_delivery_url_by_concatenation() {
    assert_eq!(
        build_target_url("http", "downstream.example:9000", "/plugins/shopify"),
        "http://downstream.example:9000/plugins/shopify"
    );
    assert_eq!(build_target_url("https", "h", "/a?b=c"), "https://h/a?b=c");
    assert_eq!(build_target_url("http", "", ""), "http://");
}

#[test]
fn only_status_200_counts_as_success() {
    assert!(delivery_succeeded(200));
    assert!(!delivery_succeeded(0));
    assert!(!delivery_succeeded(199));
    assert!(!delivery_succeeded(201));
    assert!(!delivery_succeeded(204));
    assert!(!delivery_succeeded(301));
    assert!(!delivery_succeeded(404));
    assert!(!delivery_succeeded(500));
}
