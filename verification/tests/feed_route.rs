use feed_testbed::request::ConditionalRequest;
use feed_testbed::resource::feed_descriptor;
use feed_testbed::response::{handle_feed_request, index_response};
use feed_testbed::validator::{evaluate, ValidationOutcome};

const FEED_XML: &str = "<?xml version=\"1.0\" encoding=\"utf-8\"?>\n<feed xmlns=\"http://www.w3.org/2005/Atom\">\n    <title>Testbed Feed</title>\n    <link href=\"http://example.org/\"/>\n    <updated>2024-03-03T00:00:00Z</updated>\n    <author>\n        <name>John Doe</name>\n    </author>\n    <id>urn:uuid:60a76c80-d399-11d9-b93C-0003939e0af6</id>\n    <entry>\n        <title>Sample Entry</title>\n        <link href=\"http://example.org/2024/03/03/sample\"/>\n        <id>urn:uuid:1225c695-cfb8-4ebb-aaaa-80da344efa6a</id>\n        <updated>2024-03-03T00:00:00Z</updated>\n        <summary>This is a sample entry in our Atom feed.</summary>\n    </entry>\n</feed>";
const ETAG: &str = "gei0eef3eeth1Oox9aile7ienguhaizo";
const LAST_MODIFIED: &str = "Sun, 03 Mar 2024 00:00:00 GMT";

fn request(inm: Option<&str>, ims: Option<&str>, id: &str) -> ConditionalRequest {
    ConditionalRequest {
        if_none_match: inm.map(|s| s.to_string()),
        if_modified_since: ims.map(|s| s.to_string()),
        correlation_id: id.to_string(),
    }
}

#[test]
fn fresh_fetch_returns_full_feed() {
    let d = feed_descriptor();
    let r = handle_feed_request(&d, request(None, None, "req-1"));
    assert_eq!(r.status, 200);
    assert_eq!(r.body, FEED_XML);
    assert_eq!(r.content_type.as_deref(), Some("application/atom+xml"));
    assert_eq!(r.etag.as_deref(), Some(ETAG));
    assert_eq!(r.last_modified.as_deref(), Some(LAST_MODIFIED));
    assert_eq!(r.cache_control.as_deref(), Some("public, max-age=3600"));
    assert_eq!(r.request_id.as_deref(), Some("req-1"));
}

#[test]
fn etag_match_returns_304_with_empty_body() {
    let d = feed_descriptor();
    let r = handle_feed_request(&d, request(Some(ETAG), None, "req-2"));
    assert_eq!(r.status, 304);
    assert_eq!(r.body, "");
    assert_eq!(r.content_type, None);
    assert_eq!(r.etag.as_deref(), Some(ETAG));
    assert_eq!(r.last_modified.as_deref(), Some(LAST_MODIFIED));
    assert_eq!(r.cache_control.as_deref(), Some("public, max-age=3600"));
    assert_eq!(r.request_id.as_deref(), Some("req-2"));
}

#[test]
fn modified_since_match_returns_304() {
    let d = feed_descriptor();
    let r = handle_feed_request(&d, request(None, Some(LAST_MODIFIED), "req-3"));
    assert_eq!(r.status, 304);
    assert_eq!(r.body, "");
    assert_eq!(r.content_type, None);
}

#[test]
fn etag_mismatch_returns_full_feed() {
    let d = feed_descriptor();
    let r = handle_feed_request(&d, request(Some("\"some-other-etag\""), None, "req-4"));
    assert_eq!(r.status, 200);
    assert_eq!(r.body, FEED_XML);
    assert_eq!(r.content_type.as_deref(), Some("application/atom+xml"));
}

#[test]
fn modified_since_match_with_stale_etag_returns_304() {
    let d = feed_descriptor();
    let r = handle_feed_request(&d, request(Some("stale"), Some(LAST_MODIFIED), "req-5"));
    assert_eq!(r.status, 304);
    assert_eq!(r.body, "");
}

#[test]
fn modified_since_mismatch_returns_full_feed() {
    let d = feed_descriptor();
    let r = handle_feed_request(&d, request(None, Some("Mon, 04 Mar 2024 00:00:00 GMT"), "req-6"));
    assert_eq!(r.status, 200);
    assert_eq!(r.body, FEED_XML);
}

#[test]
fn both_validators_match_returns_304() {
    let d = feed_descriptor();
    let r = handle_feed_request(&d, request(Some(ETAG), Some(LAST_MODIFIED), "req-7"));
    assert_eq!(r.status, 304);
    assert_eq!(r.body, "");
}

#[test]
fn same_headers_give_same_outcome() {
    let d = feed_descriptor();
    let first = handle_feed_request(&d, request(Some(ETAG), None, "req-8a"));
    let second = handle_feed_request(&d, request(Some(ETAG), None, "req-8b"));
    assert_eq!(first.status, second.status);
    assert_eq!(first.body, second.body);
    assert_eq!(first.content_type, second.content_type);

    let third = handle_feed_request(&d, request(None, None, "req-8c"));
    let fourth = handle_feed_request(&d, request(None, None, "req-8d"));
    assert_eq!(third.status, fourth.status);
    assert_eq!(third.body, fourth.body);
}

#[test]
fn evaluate_decides_unchanged_exactly_on_a_match() {
    let d = feed_descriptor();
    assert_eq!(evaluate(&d, &request(None, None, "x")), ValidationOutcome::Fresh);
    assert_eq!(evaluate(&d, &request(Some(ETAG), None, "x")), ValidationOutcome::Unchanged);
    assert_eq!(
        evaluate(&d, &request(None, Some(LAST_MODIFIED), "x")),
        ValidationOutcome::Unchanged
    );
    assert_eq!(evaluate(&d, &request(Some("nope"), None, "x")), ValidationOutcome::Fresh);
    assert_eq!(
        evaluate(&d, &request(None, Some("Sat, 02 Mar 2024 00:00:00 GMT"), "x")),
        ValidationOutcome::Fresh
    );
}

#[test]
fn etag_comparison_is_case_sensitive() {
    let d = feed_descriptor();
    let upper = ETAG.to_uppercase();
    let r = handle_feed_request(&d, request(Some(&upper), None, "req-9"));
    assert_eq!(r.status, 200);
    assert_eq!(r.body, FEED_XML);
}

#[test]
fn index_page_links_to_feed() {
    let r = index_response();
    assert_eq!(r.status, 200);
    assert_eq!(r.content_type.as_deref(), Some("text/html"));
    assert!(r.body.contains("/feed.atom"));
    assert_eq!(r.etag, None);
    assert_eq!(r.last_modified, None);
    assert_eq!(r.cache_control, None);
    assert_eq!(r.request_id, None);
}
