//! Typed request building and response handling for an object-storage HTTP
//! API (buckets, objects, signed URLs, image-rendering queries).
//!
//! Each operation is a pair: a `*_request` method of
//! [`client::StorageClient`] that builds the exact HTTP request (verb, URL,
//! headers, body), and a function of [`responses`] that turns the status and
//! body of the answer into the typed result or a service error carrying both.
//! Sending the request and decoding JSON answers is left to the caller.
pub mod client;
pub mod errors;
pub mod headers;
pub mod json;
pub mod mime;
pub mod models;
pub mod outside;
pub mod payloads;
pub mod responses;
pub mod text;
pub mod url;
