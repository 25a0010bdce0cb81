//! What the server reads out of an incoming request: the two conditional
//! headers that drive cache validation, and the correlation id attached to
//! the request for traceability.

use vstd::prelude::*;

verus! {

/// The decision-relevant part of one incoming request.
///
/// A missing header is an ordinary input, not an error: it is `None` here.
/// The correlation id is carried through to the response unchanged and never
/// affects the validation decision.
pub struct ConditionalRequest {
    /// The client's cached entity tag, if it sent `If-None-Match`.
    pub if_none_match: Option<String>,
    /// The client's cached HTTP-date, if it sent `If-Modified-Since`.
    pub if_modified_since: Option<String>,
    /// Opaque per-request token, used only for traceability.
    pub correlation_id: String,
}

} // verus!
