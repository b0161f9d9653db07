//! A typed client for a text-completion HTTP API.
//!
//! The library holds the settings, the request and response contract, the
//! shape of the authenticated POST that carries a request, and the mapping of
//! an HTTP reply onto the crate's error taxonomy. Sending bytes over the
//! network and JSON encoding of the wire records are done by the caller.
pub mod models;
pub mod settings;
pub mod errors;
pub mod client;
pub mod requests;
