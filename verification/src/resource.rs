//! The one resource this server offers: a fixed Atom feed together with its
//! two cache validators, and the fixed HTML index page.

use vstd::prelude::*;

verus! {

/// The immutable content served on a fresh fetch, and the two cache
/// validators a client may present on a later conditional request.
///
/// A descriptor is built once at process start and never mutated: nothing in
/// this crate takes one by `&mut`.
pub struct ResourceDescriptor {
    /// Full response body for a fresh fetch.
    pub content: String,
    /// MIME type, advertised only on full responses.
    pub content_type: String,
    /// Opaque validator, compared byte for byte, case-sensitively.
    pub etag: String,
    /// A fixed point in time as an HTTP-date string, compared byte for byte.
    pub last_modified: String,
}

/// The fixed Atom document.
pub open spec fn feed_xml() -> Seq<char> {
    "<?xml version=\"1.0\" encoding=\"utf-8\"?>\n<feed xmlns=\"http://www.w3.org/2005/Atom\">\n    <title>Testbed Feed</title>\n    <link href=\"http://example.org/\"/>\n    <updated>2024-03-03T00:00:00Z</updated>\n    <author>\n        <name>John Doe</name>\n    </author>\n    <id>urn:uuid:60a76c80-d399-11d9-b93C-0003939e0af6</id>\n    <entry>\n        <title>Sample Entry</title>\n        <link href=\"http://example.org/2024/03/03/sample\"/>\n        <id>urn:uuid:1225c695-cfb8-4ebb-aaaa-80da344efa6a</id>\n        <updated>2024-03-03T00:00:00Z</updated>\n        <summary>This is a sample entry in our Atom feed.</summary>\n    </entry>\n</feed>"@
}

/// The feed's MIME type.
pub open spec fn feed_content_type() -> Seq<char> {
    "application/atom+xml"@
}

/// The feed's entity tag.
pub open spec fn feed_etag() -> Seq<char> {
    "gei0eef3eeth1Oox9aile7ienguhaizo"@
}

/// The feed's last-modification instant, as the exact HTTP-date string that
/// `If-Modified-Since` values are compared against.
pub open spec fn feed_last_modified() -> Seq<char> {
    "Sun, 03 Mar 2024 00:00:00 GMT"@
}

/// The fixed HTML index page, which links to the feed.
pub open spec fn index_html() -> Seq<char> {
    "<!DOCTYPE html>\n<html lang=\"en\">\n<head>\n    <meta charset=\"UTF-8\">\n    <title>Feed Reader Testbed</title>\n    <link rel=\"alternate\" type=\"application/atom+xml\" title=\"Atom Feed\" href=\"/feed.atom\">\n</head>\n<body>\n    <h1>Feed Reader Testbed</h1>\n    <p>Welcome to the Feed Reader Testbed.</p>\n    <p><a href=\"/feed.atom\">The Atom Feed</a></p>\n</body>\n</html>"@
}

/// Builds the descriptor of the one feed this server offers.
pub fn feed_descriptor() -> (d: ResourceDescriptor)
    ensures
        d.content@ == feed_xml(),
        d.content_type@ == feed_content_type(),
        d.etag@ == feed_etag(),
        d.last_modified@ == feed_last_modified(),
{
    ResourceDescriptor {
        content: String::from_str("<?xml version=\"1.0\" encoding=\"utf-8\"?>\n<feed xmlns=\"http://www.w3.org/2005/Atom\">\n    <title>Testbed Feed</title>\n    <link href=\"http://example.org/\"/>\n    <updated>2024-03-03T00:00:00Z</updated>\n    <author>\n        <name>John Doe</name>\n    </author>\n    <id>urn:uuid:60a76c80-d399-11d9-b93C-0003939e0af6</id>\n    <entry>\n        <title>Sample Entry</title>\n        <link href=\"http://example.org/2024/03/03/sample\"/>\n        <id>urn:uuid:1225c695-cfb8-4ebb-aaaa-80da344efa6a</id>\n        <updated>2024-03-03T00:00:00Z</updated>\n        <summary>This is a sample entry in our Atom feed.</summary>\n    </entry>\n</feed>"),
        content_type: String::from_str("application/atom+xml"),
        etag: String::from_str("gei0eef3eeth1Oox9aile7ienguhaizo"),
        last_modified: String::from_str("Sun, 03 Mar 2024 00:00:00 GMT"),
    }
}

} // verus!
