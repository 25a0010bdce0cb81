//! The response builder: turn a validation outcome into a concrete HTTP
//! response — status code, headers and body — ready to be put on the wire.

use vstd::prelude::*;
use crate::request::ConditionalRequest;
use crate::resource::{ResourceDescriptor, index_html};
use crate::validator::{
    ValidationOutcome, etag_matched, evaluate, modified_since_matched, unchanged,
};

verus! {

/// A wire-level response as plain values. A `None` header is simply not sent.
pub struct HttpResponse {
    /// HTTP status code: 200 or 304 here.
    pub status: u16,
    /// `Content-Type`; never sent on 304, which must not describe a body
    /// that is not sent.
    pub content_type: Option<String>,
    /// `ETag` validator, echoed on both feed outcomes.
    pub etag: Option<String>,
    /// `Last-Modified` validator, echoed on both feed outcomes.
    pub last_modified: Option<String>,
    /// `Cache-Control` directive, sent on both feed outcomes.
    pub cache_control: Option<String>,
    /// `X-Request-Id`: the correlation id of the request being answered.
    pub request_id: Option<String>,
    /// Response body; empty on 304.
    pub body: String,
}

/// The one `Cache-Control` directive this server sends.
pub open spec fn cache_control_value() -> Seq<char> {
    "public, max-age=3600"@
}

/// Status of the feed response: 304 exactly when the client's cache is valid.
pub open spec fn status_of(d: ResourceDescriptor, q: ConditionalRequest) -> u16 {
    if unchanged(d, q) {
        304u16
    } else {
        200u16
    }
}

/// Body of the feed response: empty on 304, the full content otherwise.
pub open spec fn body_of(d: ResourceDescriptor, q: ConditionalRequest) -> Seq<char> {
    if unchanged(d, q) {
        Seq::<char>::empty()
    } else {
        d.content@
    }
}

/// `Content-Type` of the feed response: absent on 304, the descriptor's MIME
/// type otherwise.
pub open spec fn content_type_of(d: ResourceDescriptor, q: ConditionalRequest) -> Option<
    Seq<char>,
> {
    if unchanged(d, q) {
        None
    } else {
        Some(d.content_type@)
    }
}

/// Renders a validation outcome as a response.
///
/// Both outcomes echo the descriptor's validators, the fixed `Cache-Control`
/// directive and the caller's correlation id; only `Fresh` carries the body
/// and its content type.
pub fn build_response(
    o: ValidationOutcome,
    d: &ResourceDescriptor,
    correlation_id: String,
) -> (r: HttpResponse)
    ensures
        r.status == (if o is Unchanged { 304u16 } else { 200u16 }),
        r.body@ == (if o is Unchanged { Seq::<char>::empty() } else { d.content@ }),
        r.content_type.deep_view() == (if o is Unchanged { None } else { Some(d.content_type@) }),
        r.etag.deep_view() == Some(d.etag@),
        r.last_modified.deep_view() == Some(d.last_modified@),
        r.cache_control.deep_view() == Some(cache_control_value()),
        r.request_id.deep_view() == Some(correlation_id@),
{
    let status: u16 = match o {
        ValidationOutcome::Unchanged => 304,
        ValidationOutcome::Fresh => 200,
    };
    let content_type: Option<String> = match o {
        ValidationOutcome::Unchanged => None,
        ValidationOutcome::Fresh => Some(d.content_type.clone()),
    };
    let body: String = match o {
        ValidationOutcome::Unchanged => String::new(),
        ValidationOutcome::Fresh => d.content.clone(),
    };
    HttpResponse {
        status,
        content_type,
        etag: Some(d.etag.clone()),
        last_modified: Some(d.last_modified.clone()),
        cache_control: Some(String::from_str("public, max-age=3600")),
        request_id: Some(correlation_id),
        body,
    }
}

/// The whole feed route: evaluate the conditional request, then render the
/// matching response. 304 with an empty body and no content type exactly when
/// one of the presented validators matches; 200 with the full body otherwise.
pub fn handle_feed_request(d: &ResourceDescriptor, q: ConditionalRequest) -> (r: HttpResponse)
    ensures
        r.status == status_of(*d, q),
        r.body@ == body_of(*d, q),
        r.content_type.deep_view() == content_type_of(*d, q),
        r.etag.deep_view() == Some(d.etag@),
        r.last_modified.deep_view() == Some(d.last_modified@),
        r.cache_control.deep_view() == Some(cache_control_value()),
        r.request_id.deep_view() == Some(q.correlation_id@),
{
    let o = evaluate(d, &q);
    build_response(o, d, q.correlation_id)
}

/// The fixed informational index page: 200, HTML, no validators and no
/// correlation id header.
pub fn index_response() -> (r: HttpResponse)
    ensures
        r.status == 200,
        r.body@ == index_html(),
        r.content_type.deep_view() == Some("text/html"@),
        r.etag is None,
        r.last_modified is None,
        r.cache_control is None,
        r.request_id is None,
{
    HttpResponse {
        status: 200,
        content_type: Some(String::from_str("text/html")),
        etag: None,
        last_modified: None,
        cache_control: None,
        request_id: None,
        body: String::from_str("<!DOCTYPE html>\n<html lang=\"en\">\n<head>\n    <meta charset=\"UTF-8\">\n    <title>Feed Reader Testbed</title>\n    <link rel=\"alternate\" type=\"application/atom+xml\" title=\"Atom Feed\" href=\"/feed.atom\">\n</head>\n<body>\n    <h1>Feed Reader Testbed</h1>\n    <p>Welcome to the Feed Reader Testbed.</p>\n    <p><a href=\"/feed.atom\">The Atom Feed</a></p>\n</body>\n</html>"),
    }
}

/// A request with no conditional headers at all is always answered fresh:
/// status 200 with the full body and its content type.
pub proof fn lemma_absent_validators_fresh(d: ResourceDescriptor, q: ConditionalRequest)
    requires
        q.if_none_match is None,
        q.if_modified_since is None,
    ensures
        !unchanged(d, q),
        status_of(d, q) == 200,
        body_of(d, q) == d.content@,
        content_type_of(d, q) == Some(d.content_type@),
{
}

/// A presented `If-None-Match` equal to the descriptor's entity tag makes the
/// response a 304 with an empty body and no content type, whatever else the
/// request carries.
pub proof fn lemma_etag_match_unchanged(d: ResourceDescriptor, q: ConditionalRequest)
    requires
        etag_matched(d, q),
    ensures
        unchanged(d, q),
        status_of(d, q) == 304,
        body_of(d, q) == Seq::<char>::empty(),
        content_type_of(d, q) is None,
{
}

/// A presented `If-Modified-Since` equal to the descriptor's `Last-Modified`
/// string makes the response a 304, even when no entity tag matched.
pub proof fn lemma_modified_since_match_unchanged(d: ResourceDescriptor, q: ConditionalRequest)
    requires
        modified_since_matched(d, q),
        !etag_matched(d, q),
    ensures
        unchanged(d, q),
        status_of(d, q) == 304,
        body_of(d, q) == Seq::<char>::empty(),
        content_type_of(d, q) is None,
{
}

/// Idempotence: the feed response is a function of the presented header text
/// alone. Two requests with the same headers are answered the same way, even
/// with different correlation ids — and the descriptor never changes at
/// runtime, so the same request asked twice is decided the same way.
pub proof fn lemma_same_headers_same_outcome(
    d: ResourceDescriptor,
    q1: ConditionalRequest,
    q2: ConditionalRequest,
)
    requires
        q1.if_none_match.deep_view() == q2.if_none_match.deep_view(),
        q1.if_modified_since.deep_view() == q2.if_modified_since.deep_view(),
    ensures
        unchanged(d, q1) == unchanged(d, q2),
        status_of(d, q1) == status_of(d, q2),
        body_of(d, q1) == body_of(d, q2),
        content_type_of(d, q1) == content_type_of(d, q2),
{
}

} // verus!
