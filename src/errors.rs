use vstd::prelude::*;

verus! {

/// The HTTP layer's failure: connection, timeout or a malformed request.
#[verifier::external_type_specification]
#[verifier::external_body]
pub struct ExTransportError(reqwest::Error);

/// The JSON layer's failure: a body that is not the expected shape.
#[verifier::external_type_specification]
#[verifier::external_body]
pub struct ExDecodeError(serde_json::Error);

/// Every failure that an operation of this crate reports.
#[derive(Debug)]
pub enum Errors {
    /// The HTTP layer failed (connection, timeout, ...).
    RequestError(reqwest::Error),
    /// The response body could not be decoded.
    Json(serde_json::Error),
    /// A textual failure; any non-success HTTP status lands here.
    Message(String),
    /// The credential needed to authenticate was not supplied.
    MissingSecretKey,
}

impl Errors {
    /// The failure came from the HTTP layer.
    pub open spec fn is_transport(&self) -> bool {
        self is RequestError
    }
}

} // verus!
