//! A single-resource syndication server core: HTTP cache validation
//! (`ETag` / `Last-Modified` conditional requests) for one fixed Atom feed,
//! together with the response construction and per-request correlation ids.

pub mod request;
pub mod request_id;
pub mod resource;
pub mod response;
pub mod validator;
