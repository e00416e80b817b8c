//! Typed client library for a hosted JSON document store reachable over HTTP.
//!
//! A *box* is a logical collection of JSON documents on the remote service,
//! addressed by an opaque id.  The library builds request URLs and canonical
//! query strings, and decodes the service's responses: each response object
//! carries the caller's payload fields together with reserved metadata fields
//! (`_id`, `_createdOn`, `_updatedOn`), which are split apart here.
//!
//! The HTTP exchange itself is left to the embedding application; this crate
//! holds the request-construction and response-decoding logic, all of it
//! verified against the specifications written alongside.

pub mod client;
pub mod encode;
pub mod error;
pub mod json;
pub mod query_builder;
pub mod render;
pub mod url;
pub mod value;

pub use crate::client::Client;
pub use crate::client::ErrorMessage;
pub use crate::client::Meta;
pub use crate::error::Error;
pub use crate::query_builder::Order;
pub use crate::query_builder::QueryBuilder;
pub use crate::value::FilterValue;
