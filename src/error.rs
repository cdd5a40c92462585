//! The structured error of every operation of the library.
//!
//! Durations are held as whole milliseconds. Whether an error may be retried,
//! the status code it stands for and the delay it suggests are functions of the
//! variant and its payload alone.
use vstd::prelude::*;

verus! {

/// A JSON value, carried through unread as the details of an API error.
#[verifier::external_type_specification]
#[verifier::external_body]
pub struct ExJsonValue(serde_json::Value);

/// The error type of the library: exactly one variant is active.
#[derive(Debug)]
pub enum Error {
    /// The resource does not exist (404).
    NotFound,
    /// The credentials were refused (401).
    Authentication { message: String },
    /// The credentials lack a permission (403).
    Authorization { message: String },
    /// Too many requests (429), with the server's suggested delay in milliseconds.
    RateLimit { retry_after: Option<u64> },
    /// Any other failed status, with what the server said.
    Api {
        code: u16,
        message: String,
        details: Option<serde_json::Value>,
        request_id: Option<String>,
    },
    /// The request was rejected as invalid (422), with the first offending field.
    Validation { message: String, field: Option<String>, code: Option<String> },
    /// A failure of the transport, or an unreadable success body.
    Network { message: String, is_timeout: bool, can_retry: bool },
    /// A value could not be encoded or decoded.
    Serialization { message: String },
    /// The client was configured wrongly.
    Configuration { message: String, hint: Option<String> },
    /// The transport gave up after `duration` milliseconds.
    Timeout { duration: u64, operation: String },
    /// Every permitted attempt failed; `last_error` is the final cause.
    RetryExhausted { attempts: u32, operation: String, last_error: Box<Error> },
    /// No connection could be had from the pool.
    ConnectionPool { message: String },
    /// The resource is in a conflicting state (409).
    Conflict { message: String, retry_after: Option<u64> },
    /// The service is unavailable (503), or the circuit breaker is open.
    ServiceUnavailable { message: String, retry_after: Option<u64> },
    /// The request itself is malformed.
    InvalidRequest { message: String, parameter: Option<String> },
    /// A quota is used up until `reset_time` (Unix seconds), when known.
    QuotaExceeded { resource: String, message: String, reset_time: Option<i64> },
    /// Anything else.
    Other(String),
}

/// The delay suggested after a bare network failure: one second.
pub const NETWORK_RETRY_DELAY_MS: u64 = 1000;

impl Error {
    /// Whether a further attempt may succeed.
    pub open spec fn spec_is_retryable(&self) -> bool {
        match self {
            Error::RateLimit { .. } | Error::ServiceUnavailable { .. } | Error::Timeout { .. } => true,
            Error::Network { can_retry, .. } => *can_retry,
            Error::Api { code, .. } => 500 <= *code && *code <= 599,
            _ => false,
        }
    }

    /// The delay, in milliseconds, that the error itself asks for.
    pub open spec fn spec_retry_after(&self) -> Option<u64> {
        match self {
            Error::RateLimit { retry_after } => *retry_after,
            Error::Conflict { retry_after, .. } => *retry_after,
            Error::ServiceUnavailable { retry_after, .. } => *retry_after,
            Error::Network { .. } => Some(NETWORK_RETRY_DELAY_MS),
            _ => None,
        }
    }

    /// The HTTP status that the error stands for.
    pub open spec fn spec_status_code(&self) -> Option<u16> {
        match self {
            Error::Api { code, .. } => Some(*code),
            Error::NotFound => Some(404),
            Error::Authentication { .. } => Some(401),
            Error::Authorization { .. } => Some(403),
            Error::RateLimit { .. } => Some(429),
            Error::Validation { .. } | Error::InvalidRequest { .. } => Some(400),
            Error::Conflict { .. } => Some(409),
            Error::ServiceUnavailable { .. } => Some(503),
            Error::Timeout { .. } => Some(408),
            _ => None,
        }
    }

    /// An API error with a status code and a message.
    pub fn api(code: u16, message: &str) -> (r: Error)
        ensures
            r matches Error::Api { code: c, message: m, details: None, request_id: None }
                && c == code && m@ == message@,
    {
        Error::Api { code, message: message.to_owned(), details: None, request_id: None }
    }

    /// An API error that keeps the server's JSON body as details.
    pub fn api_with_details(code: u16, message: &str, details: serde_json::Value) -> (r: Error)
        ensures
            r matches Error::Api { code: c, message: m, details: Some(d), request_id: None }
                && c == code && m@ == message@ && d == details,
    {
        Error::Api { code, message: message.to_owned(), details: Some(details), request_id: None }
    }

    /// An API error that records the server's request identifier.
    pub fn api_with_request_id(code: u16, message: &str, request_id: &str) -> (r: Error)
        ensures
            r matches Error::Api { code: c, message: m, details: None, request_id: Some(id) }
                && c == code && m@ == message@ && id@ == request_id@,
    {
        Error::Api {
            code,
            message: message.to_owned(),
            details: None,
            request_id: Some(request_id.to_owned()),
        }
    }

    /// An authentication error.
    pub fn auth(message: &str) -> (r: Error)
        ensures
            r matches Error::Authentication { message: m } && m@ == message@,
    {
        Error::Authentication { message: message.to_owned() }
    }

    /// A validation error that names no field.
    pub fn validation(message: &str) -> (r: Error)
        ensures
            r matches Error::Validation { message: m, field: None, code: None } && m@ == message@,
    {
        Error::Validation { message: message.to_owned(), field: None, code: None }
    }

    /// A validation error on a named field.
    pub fn validation_field(message: &str, field: &str) -> (r: Error)
        ensures
            r matches Error::Validation { message: m, field: Some(f), code: None }
                && m@ == message@ && f@ == field@,
    {
        Error::Validation {
            message: message.to_owned(),
            field: Some(field.to_owned()),
            code: None,
        }
    }

    /// A network error that may be retried.
    pub fn network(message: &str) -> (r: Error)
        ensures
            r matches Error::Network { message: m, is_timeout: false, can_retry: true }
                && m@ == message@,
    {
        Error::Network { message: message.to_owned(), is_timeout: false, can_retry: true }
    }

    /// A timeout after `duration` milliseconds of the named operation.
    pub fn timeout(duration: u64, operation: &str) -> (r: Error)
        ensures
            r matches Error::Timeout { duration: d, operation: o } && d == duration
                && o@ == operation@,
    {
        Error::Timeout { duration, operation: operation.to_owned() }
    }

    /// A configuration error with a hint on how to mend it.
    pub fn config_with_hint(message: &str, hint: &str) -> (r: Error)
        ensures
            r matches Error::Configuration { message: m, hint: Some(h) } && m@ == message@
                && h@ == hint@,
    {
        Error::Configuration { message: message.to_owned(), hint: Some(hint.to_owned()) }
    }

    /// Whether a further attempt may succeed: rate limits, unavailability,
    /// timeouts, retryable network failures and 5xx API errors.
    pub fn is_retryable(&self) -> (r: bool)
        ensures
            r == self.spec_is_retryable(),
    {
        match self {
            Error::RateLimit { .. } | Error::ServiceUnavailable { .. } | Error::Timeout { .. } => true,
            Error::Network { can_retry, .. } => *can_retry,
            Error::Api { code, .. } => 500 <= *code && *code <= 599,
            _ => false,
        }
    }

    /// The suggested delay in milliseconds before another attempt.
    pub fn retry_after(&self) -> (r: Option<u64>)
        ensures
            r == self.spec_retry_after(),
    {
        match self {
            Error::RateLimit { retry_after } => *retry_after,
            Error::Conflict { retry_after, .. } => *retry_after,
            Error::ServiceUnavailable { retry_after, .. } => *retry_after,
            Error::Network { .. } => Some(NETWORK_RETRY_DELAY_MS),
            _ => None,
        }
    }

    /// The HTTP status code that the error stands for, if any.
    pub fn status_code(&self) -> (r: Option<u16>)
        ensures
            r == self.spec_status_code(),
    {
        match self {
            Error::Api { code, .. } => Some(*code),
            Error::NotFound => Some(404),
            Error::Authentication { .. } => Some(401),
            Error::Authorization { .. } => Some(403),
            Error::RateLimit { .. } => Some(429),
            Error::Validation { .. } | Error::InvalidRequest { .. } => Some(400),
            Error::Conflict { .. } => Some(409),
            Error::ServiceUnavailable { .. } => Some(503),
            Error::Timeout { .. } => Some(408),
            _ => None,
        }
    }

    /// The server's request identifier, kept by API errors.
    pub fn request_id(&self) -> (r: Option<&str>)
        ensures
            match self {
                Error::Api { request_id: Some(id), .. } => r matches Some(s) && s@ == id@,
                _ => r is None,
            },
    {
        match self {
            Error::Api { request_id: Some(id), .. } => Some(id.as_str()),
            _ => None,
        }
    }

    /// Whether the status code is in 400..500.
    pub fn is_client_error(&self) -> (r: bool)
        ensures
            r == (self.spec_status_code() matches Some(c) && 400 <= c < 500),
    {
        match self.status_code() {
            Some(c) => 400 <= c && c < 500,
            None => false,
        }
    }

    /// Whether the status code is in 500..600.
    pub fn is_server_error(&self) -> (r: bool)
        ensures
            r == (self.spec_status_code() matches Some(c) && 500 <= c < 600),
    {
        match self.status_code() {
            Some(c) => 500 <= c && c < 600,
            None => false,
        }
    }

    /// Prefixes the message of an `Other` error with `context` and ": ";
    /// every other error is returned unchanged.
    pub fn with_context(self, context: &str) -> (r: Error)
        ensures
            match self {
                Error::Other(m) => r matches Error::Other(n) && n@ == context@ + ": "@ + m@,
                _ => r == self,
            },
    {
        match self {
            Error::Other(m) => {
                let prefixed = context.to_owned().concat(": ");
                Error::Other(prefixed.concat(m.as_str()))
            },
            other => other,
        }
    }
}

} // verus!
