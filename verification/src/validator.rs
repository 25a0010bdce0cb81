//! The cache validator: given the resource's validators and the validators a
//! client presents, decide whether the client's cached copy is still valid.

use vstd::prelude::*;
use crate::request::ConditionalRequest;
use crate::resource::ResourceDescriptor;

verus! {

/// Result of evaluating a conditional request against the descriptor.
#[derive(Clone, Copy, Debug, PartialEq, Eq, Structural)]
pub enum ValidationOutcome {
    /// The client's cache is still valid: respond 304 with no body and no
    /// content type.
    Unchanged,
    /// The client's cache is stale or absent: respond 200 with the full body.
    Fresh,
}

/// The client sent `If-None-Match` and it equals the descriptor's entity tag,
/// byte for byte.
pub open spec fn etag_matched(d: ResourceDescriptor, q: ConditionalRequest) -> bool {
    q.if_none_match matches Some(v) && v@ == d.etag@
}

/// The client sent `If-Modified-Since` and it equals the descriptor's
/// `Last-Modified` string, byte for byte. No date arithmetic is involved.
pub open spec fn modified_since_matched(d: ResourceDescriptor, q: ConditionalRequest) -> bool {
    q.if_modified_since matches Some(v) && v@ == d.last_modified@
}

/// The resource is unchanged from the client's point of view: at least one of
/// the two presented validators matches. A request without conditional
/// headers never counts as unchanged.
pub open spec fn unchanged(d: ResourceDescriptor, q: ConditionalRequest) -> bool {
    etag_matched(d, q) || modified_since_matched(d, q)
}

/// Decides `Unchanged` against `Fresh` by exact string comparison of the
/// presented validators. Pure: no side effects, no failure modes.
pub fn evaluate(d: &ResourceDescriptor, q: &ConditionalRequest) -> (o: ValidationOutcome)
    ensures
        o is Unchanged <==> unchanged(*d, *q),
        o is Fresh <==> !unchanged(*d, *q),
{
    let etag_matches = match &q.if_none_match {
        Some(v) => *v == d.etag,
        None => false,
    };
    let modified_matches = match &q.if_modified_since {
        Some(v) => *v == d.last_modified,
        None => false,
    };
    if etag_matches || modified_matches {
        ValidationOutcome::Unchanged
    } else {
        ValidationOutcome::Fresh
    }
}

} // verus!
