//! Errors returned by the API and by the transport.
use vstd::prelude::*;
use crate::text::{decimal, push_decimal};
use reqwest::Error as TransportError;
use serde_json::Error as JsonError;

verus! {

/// The transport error of the HTTP client; held, never inspected.
#[verifier::external_type_specification]
#[verifier::external_body]
pub struct ExTransportError(TransportError);

/// The JSON (de)serialization error; held, never inspected.
#[verifier::external_type_specification]
#[verifier::external_body]
pub struct ExJsonError(JsonError);

/// An error returned by the Klozeo API with a structured body.
#[derive(Debug, Clone, PartialEq, Eq)]
pub struct ApiError {
    /// HTTP status code of the response.
    pub status_code: u16,
    /// Human-readable error message from the API.
    pub message: String,
    /// Machine-readable error code (e.g. `"rate_limit_exceeded"`).
    pub code: String,
}

impl ApiError {
    /// The text the error displays: `HTTP <status> — <message> (<code>)`.
    pub open spec fn display(status_code: u16, message: Seq<char>, code: Seq<char>) -> Seq<char> {
        "HTTP "@ + decimal(status_code as nat) + " — "@ + message + " ("@ + code + ")"@
    }

    /// The text this error displays: `HTTP <status> — <message> (<code>)`.
    pub fn to_string(&self) -> (s: String)
        ensures
            s@ == ApiError::display(self.status_code, self.message@, self.code@),
    {
        let mut s = "HTTP ".to_owned();
        push_decimal(&mut s, self.status_code as u64);
        s.append(" — ");
        s.append(self.message.as_str());
        s.append(" (");
        s.append(self.code.as_str());
        s.append(")");
        s
    }
}

/// All errors that can be returned by the Klozeo SDK.
#[derive(Debug)]
pub enum Error {
    /// The requested resource does not exist (HTTP 404).
    NotFound,
    /// The API key is missing or invalid (HTTP 401).
    Unauthorized,
    /// The account has reached its leads limit; upgrade required (HTTP 403).
    Forbidden,
    /// The account has hit its rate limit. Wait `retry_after` seconds before retrying.
    RateLimited {
        /// Seconds to wait before the next request.
        retry_after: u64,
    },
    /// The request was malformed (HTTP 400).
    BadRequest(String),
    /// A non-400/401/403/404/429 API error with status code and message.
    Api(ApiError),
    /// An underlying network/transport error.
    Network(TransportError),
    /// A JSON serialization or deserialization error.
    Serde(JsonError),
}

impl From<ApiError> for Error {
    fn from(e: ApiError) -> (r: Error)
        ensures
            r == Error::Api(e),
    {
        Error::Api(e)
    }
}

impl vstd::std_specs::convert::FromSpecImpl<ApiError> for Error {
    open spec fn obeys_from_spec() -> bool {
        true
    }

    open spec fn from_spec(e: ApiError) -> Error {
        Error::Api(e)
    }
}


impl From<TransportError> for Error {
    fn from(e: TransportError) -> (r: Error)
        ensures
            r == Error::Network(e),
    {
        Error::Network(e)
    }
}

impl vstd::std_specs::convert::FromSpecImpl<TransportError> for Error {
    open spec fn obeys_from_spec() -> bool {
        true
    }

    open spec fn from_spec(e: TransportError) -> Error {
        Error::Network(e)
    }
}

impl From<JsonError> for Error {
    fn from(e: JsonError) -> (r: Error)
        ensures
            r == Error::Serde(e),
    {
        Error::Serde(e)
    }
}

impl vstd::std_specs::convert::FromSpecImpl<JsonError> for Error {
    open spec fn obeys_from_spec() -> bool {
        true
    }

    open spec fn from_spec(e: JsonError) -> Error {
        Error::Serde(e)
    }
}

} // verus!
