//! A typed client library for the Onionoo network-status protocol: canonical
//! query-string rendering for the filter parameters, the six response-document
//! shapes with their decoders, and the endpoint catalog.
//!
//! The HTTP transport itself is outside this crate; callers hand the raw
//! status code and body text to [`client::check_status`] and the decoders.

pub mod client;
pub mod decode;
pub mod endpoints;
pub mod json;
pub mod models;
pub mod parameters;
pub mod text;

pub use client::ClientError;
pub use endpoints::Endpoint;
pub use parameters::QueryParameters;
pub use text::u64_to_string;
