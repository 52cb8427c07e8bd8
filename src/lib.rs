//! A client-side core for a secrets-management service: request
//! descriptors built from validated builders, their bodies encoded as JSON,
//! and the decoding of the service's responses into typed results or
//! classified errors.
//!
//! The HTTP round trip itself is left to the caller: the library turns an
//! operation into an [`api::HttpRequest`], and turns the [`api::HttpResponse`]
//! that came back into a result.
pub mod error;
pub mod wire;
pub mod json;
pub mod api;
pub mod token;
pub mod kv1;
