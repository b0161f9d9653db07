use std::time::Duration;
use vstd::prelude::*;
use vstd::string::*;
use crate::errors::Errors;
use crate::settings::APISettings;

verus! {

/// The HTTP client that carries the calls.
#[verifier::external_type_specification]
#[verifier::external_body]
pub struct ExHttpClient(reqwest::Client);

/// Relies on reqwest's `ClientBuilder`: a client whose requests time out after
/// `timeout`, or the error met while setting it up.
#[verifier::external_body]
fn build_http_client(timeout: Duration) -> (r: Result<reqwest::Client, reqwest::Error>) {
    reqwest::ClientBuilder::new().timeout(timeout).build()
}

/// Success status of an HTTP reply.
pub const STATUS_OK: u16 = 200;

/// Text of the failure reported for every reply that is not a success.
pub open spec fn request_failed_message() -> Seq<char> {
    "Something went wrong"@
}

/// An authenticated JSON POST, ready to be sent.
pub struct HttpPost {
    /// Host followed by the path, with nothing in between.
    pub url: String,
    /// Value of the content-type header.
    pub content_type: String,
    /// Token sent as bearer authentication.
    pub bearer_token: String,
    /// The JSON-encoded payload.
    pub body: Vec<u8>,
}

/// What to do with a reply once its status is known.
#[derive(Debug)]
pub enum ResponseStep {
    /// Decode the body as the expected type.
    DecodeBody,
    /// The call has failed with this error.
    Fail(Errors),
}

/// The transport client: an HTTP client bound to the settings.
pub struct OpenAPIClient {
    pub client: reqwest::Client,
    pub settings: APISettings,
}

impl OpenAPIClient {
    pub fn new(settings: APISettings) -> (r: Result<Self, Errors>)
        ensures
            r matches Ok(c) ==> c.settings == settings,
            r matches Err(e) ==> e.is_transport(),
    {
        match build_http_client(settings.timeout_request) {
            Ok(client) => Ok(OpenAPIClient { client, settings }),
            Err(e) => Err(Errors::RequestError(e)),
        }
    }

    /// The POST that sends `body` to `path` under the host, authenticated
    /// with the credential.
    pub fn post(&self, path: &str, body: Vec<u8>) -> (r: HttpPost)
        ensures
            r.url@ == self.settings.host@ + path@,
            r.content_type@ == "application/json"@,
            r.bearer_token == self.settings.secret_key,
            r.body == body,
    {
        let url = self.settings.host.clone().concat(path);
        HttpPost {
            url,
            content_type: String::from_str("application/json"),
            bearer_token: self.settings.secret_key.clone(),
            body,
        }
    }

    /// The step that follows a reply with this status: only a success is
    /// decoded, any other status fails with the same message.
    pub fn handle_status(status: u16) -> (r: ResponseStep)
        ensures
            status == STATUS_OK ==> r is DecodeBody,
            status != STATUS_OK ==> (r matches ResponseStep::Fail(Errors::Message(m))
                && m@ == request_failed_message()),
    {
        if status == STATUS_OK {
            ResponseStep::DecodeBody
        } else {
            ResponseStep::Fail(Errors::Message(String::from_str("Something went wrong")))
        }
    }

    /// The outcome of a call whose body was decoded with this result.
    pub fn handle_body<D>(decoded: Result<D, serde_json::Error>) -> (r: Result<D, Errors>)
        ensures
            decoded matches Ok(v) ==> (r matches Ok(w) && w == v),
            decoded matches Err(e) ==> (r matches Err(Errors::Json(f)) && f == e),
    {
        match decoded {
            Ok(v) => Ok(v),
            Err(e) => Err(Errors::Json(e)),
        }
    }

    /// The outcome of a call whose transport failed.
    pub fn handle_transport_error(e: reqwest::Error) -> (r: Errors)
        ensures
            r matches Errors::RequestError(f) && f == e,
    {
        Errors::RequestError(e)
    }
}

} // verus!
