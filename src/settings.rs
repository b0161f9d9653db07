use std::time::Duration;
use vstd::prelude::*;
use vstd::string::*;
use crate::errors::Errors;

verus! {

/// The span of `secs` whole seconds.
pub uninterp spec fn duration_of_secs(secs: u64) -> Duration;

/// Relies on `Duration::from_secs`: the span depends on the count alone, and
/// building it never fails.
pub assume_specification[ core::time::Duration::from_secs ](secs: u64) -> (r: Duration)
    ensures
        r == duration_of_secs(secs),
;

/// Base URL of the API unless another host is set.
pub open spec fn default_host() -> Seq<char> {
    "https://api.openai.com/v1"@
}

/// Seconds that a call may take unless another timeout is set.
pub const DEFAULT_TIMEOUT_SECS: u64 = 10;

/// Connection settings shared by every call.
#[derive(Debug)]
pub struct APISettings {
    /// API secret key used for every call to identify
    pub secret_key: String,
    /// Organization identifier
    pub organization_id: Option<String>,
    /// By default 10 seconds
    pub timeout_request: Duration,
    /// Base request
    pub host: String,
}

impl Default for APISettings {
    fn default() -> (r: Self)
        ensures
            r.secret_key@ == Seq::<char>::empty(),
            r.organization_id is None,
            r.timeout_request == duration_of_secs(DEFAULT_TIMEOUT_SECS),
            r.host@ == default_host(),
    {
        APISettings {
            secret_key: String::new(),
            organization_id: None,
            timeout_request: Duration::from_secs(DEFAULT_TIMEOUT_SECS),
            host: String::from_str("https://api.openai.com/v1"),
        }
    }
}

impl APISettings {
    /// Create a new OpenAPI execution context
    pub fn new(secret_key: String, organization_id: Option<String>) -> (r: Self)
        ensures
            r.secret_key == secret_key,
            r.organization_id == organization_id,
            r.timeout_request == duration_of_secs(DEFAULT_TIMEOUT_SECS),
            r.host@ == default_host(),
    {
        let base = APISettings::default();
        APISettings { secret_key, organization_id, ..base }
    }

    /// Settings from the values found for the credential and the organization
    /// identifier; without a credential there are none.
    pub fn from_env_values(secret_key: Option<String>, organization_id: Option<String>) -> (r:
        Result<Self, Errors>)
        ensures
            secret_key is None ==> r matches Err(Errors::MissingSecretKey),
            secret_key matches Some(k) ==> (r matches Ok(s) && s.secret_key == k
                && s.organization_id == organization_id && s.timeout_request == duration_of_secs(
                DEFAULT_TIMEOUT_SECS) && s.host@ == default_host()),
    {
        match secret_key {
            Some(k) => Ok(APISettings::new(k, organization_id)),
            None => Err(Errors::MissingSecretKey),
        }
    }

    pub fn set_organization_id(self, org_id: String) -> (r: Self)
        ensures
            r == (APISettings { organization_id: Some(org_id), ..self }),
    {
        let mut s = self;
        s.organization_id = Some(org_id);
        s
    }

    pub fn set_timeout_request(self, duration: Duration) -> (r: Self)
        ensures
            r == (APISettings { timeout_request: duration, ..self }),
    {
        let mut s = self;
        s.timeout_request = duration;
        s
    }

    pub fn set_host(self, host: String) -> (r: Self)
        ensures
            r == (APISettings { host, ..self }),
    {
        let mut s = self;
        s.host = host;
        s
    }
}

} // verus!
