//! Turning the outcome of one HTTP exchange into an `Error`.
//!
//! A failed status is classified from plain values: the status, the
//! `Retry-After` and `X-Request-ID` headers and the body, together with what
//! was read out of the body as JSON (`ErrorBody`).
use vstd::prelude::*;
use crate::error::Error;
use crate::json::{parse_json, json_get, json_as_str, json_as_array, json_valid, json_parsed, member_of, string_member, array_member, opt_text};

verus! {

/// The first entry of a validation envelope's `errors` array.
#[derive(Debug)]
pub struct FirstValidationError {
    /// Its `field` member, when a string.
    pub field: Option<String>,
    /// Its `message` member, when a string.
    pub message: Option<String>,
}

/// What the classifier reads out of an error body.
#[derive(Debug)]
pub struct ErrorBody {
    /// Whether the body is a JSON document.
    pub json: bool,
    /// Its top-level `message` member, when a string.
    pub message: Option<String>,
    /// Present when its `errors` member is an array: the first entry's members.
    pub validation: Option<FirstValidationError>,
}

/// How the transport failed before any status was received.
#[derive(Debug)]
pub enum TransportFailure {
    /// The request timed out.
    Timeout,
    /// No connection could be made.
    Connect,
    /// Anything else, with the transport's description.
    Other(String),
}

/// Whether `c` is an ASCII decimal digit.
pub open spec fn is_digit(c: char) -> bool {
    '0' <= c && c <= '9'
}

/// The number that a string of decimal digits writes.
pub open spec fn digits_value(s: Seq<char>) -> int
    decreases s.len(),
{
    if s.len() == 0 {
        0
    } else {
        digits_value(s.drop_last()) * 10 + (s.last() as int - '0' as int)
    }
}

/// The text without one leading `+`.
pub open spec fn unsigned_part(s: Seq<char>) -> Seq<char> {
    if s.len() > 0 && s[0] == '+' { s.drop_first() } else { s }
}

/// The `u64` that the text writes in decimal, with an optional leading `+`.
pub open spec fn parsed_u64(s: Seq<char>) -> Option<u64> {
    let d = unsigned_part(s);
    if d.len() > 0 && (forall|i: int| 0 <= i < d.len() ==> is_digit(#[trigger] d[i]))
        && digits_value(d) <= u64::MAX {
        Some(digits_value(d) as u64)
    } else {
        None
    }
}

/// Seconds as milliseconds, saturating at `u64::MAX`.
pub open spec fn seconds_to_ms(secs: u64) -> u64 {
    if secs * 1000 <= u64::MAX { (secs * 1000) as u64 } else { u64::MAX }
}

/// The text of a header, when present.
pub open spec fn header_text(h: Option<&str>) -> Option<Seq<char>> {
    match h {
        Some(t) => Some(t@),
        None => None,
    }
}

/// The delay that a `Retry-After` header of whole seconds asks for, in milliseconds.
pub open spec fn retry_after_ms(header: Option<Seq<char>>) -> Option<u64> {
    match header {
        Some(h) => match parsed_u64(h) {
            Some(secs) => Some(seconds_to_ms(secs)),
            None => None,
        },
        None => None,
    }
}

/// A string of digits writes a number that is not negative.
proof fn lemma_digits_nonneg(s: Seq<char>)
    requires
        forall|k: int| 0 <= k < s.len() ==> is_digit(#[trigger] s[k]),
    ensures
        digits_value(s) >= 0,
    decreases s.len(),
{
    if s.len() > 0 {
        let p = s.drop_last();
        assert forall|k: int| 0 <= k < p.len() implies is_digit(#[trigger] p[k]) by {
            assert(p[k] == s[k]);
        }
        lemma_digits_nonneg(p);
        assert(is_digit(s[s.len() - 1]));
    }
}

/// A longer string of digits writes at least as much as its prefix.
proof fn lemma_digits_prefix(s: Seq<char>, i: int)
    requires
        0 <= i <= s.len(),
        forall|k: int| 0 <= k < s.len() ==> is_digit(#[trigger] s[k]),
    ensures
        digits_value(s.take(i)) <= digits_value(s),
    decreases s.len() - i,
{
    if i < s.len() {
        lemma_digits_prefix(s, i + 1);
        let p = s.take(i + 1);
        assert(p.drop_last() =~= s.take(i));
        assert forall|k: int| 0 <= k < p.len() implies is_digit(#[trigger] p[k]) by {
            assert(p[k] == s[k]);
        }
        assert forall|k: int| 0 <= k < s.take(i).len() implies is_digit(#[trigger] s.take(i)[k]) by {
            assert(s.take(i)[k] == s[k]);
        }
        lemma_digits_nonneg(s.take(i));
        assert(is_digit(p[i]));
    } else {
        assert(s.take(i) =~= s);
    }
}

/// Reads a decimal `u64`, with an optional leading `+`, as `str::parse` does.
pub fn parse_u64(s: &str) -> (r: Option<u64>)
    ensures
        r == parsed_u64(s@),
{
    let n = s.unicode_len();
    let mut start: usize = 0;
    if n > 0 && s.get_char(0) == '+' {
        start = 1;
    }
    let ghost d = unsigned_part(s@);
    assert(d =~= s@.subrange(start as int, n as int));
    if start == n {
        return None;
    }
    let mut value: u64 = 0;
    let mut i: usize = start;
    while i < n
        invariant
            start <= i <= n,
            n == s@.len(),
            d =~= s@.subrange(start as int, n as int),
            d == unsigned_part(s@),
            forall|k: int| 0 <= k < i - start ==> is_digit(#[trigger] d[k]),
            value == digits_value(d.take(i - start)),
        decreases n - i,
    {
        let c = s.get_char(i);
        assert(d[i - start] == s@[i as int]);
        if !('0' <= c && c <= '9') {
            assert(!is_digit(d[i - start]));
            assert(!(forall|k: int| 0 <= k < d.len() ==> is_digit(#[trigger] d[k])));
            assert(parsed_u64(s@) is None);
            return None;
        }
        let digit = (c as u32 - '0' as u32) as u64;
        assert(d.take(i - start + 1).drop_last() =~= d.take(i - start));
        if value > (u64::MAX - digit) / 10 {
            proof {
                let p = d.take(i - start + 1);
                assert(digits_value(p) == value * 10 + digit);
                assert(value * 10 + digit > u64::MAX) by (nonlinear_arith)
                    requires value > (u64::MAX - digit) / 10, digit <= 9;
                assert(p.drop_last() =~= d.take(i - start));
                if forall|k: int| 0 <= k < d.len() ==> is_digit(#[trigger] d[k]) {
                    lemma_digits_prefix(d, i - start + 1);
                    assert(digits_value(d) > u64::MAX);
                }
                assert(parsed_u64(s@) is None);
            }
            return None;
        }
        value = value * 10 + digit;
        i = i + 1;
    }
    assert(d.take(n - start) =~= d);
    Some(value)
}

/// The delay in milliseconds that a `Retry-After` header asks for.
pub fn parse_retry_after(header: Option<&str>) -> (r: Option<u64>)
    ensures
        r == retry_after_ms(header_text(header)),
{
    match header {
        Some(h) => match parse_u64(h) {
            Some(secs) => {
                if secs <= u64::MAX / 1000 {
                    Some(secs * 1000)
                } else {
                    Some(u64::MAX)
                }
            },
            None => None,
        },
        None => None,
    }
}

/// The top-level `message` of an error body, when it is JSON and has one.
pub open spec fn body_message(body: Seq<char>) -> Option<Seq<char>> {
    if json_valid(body) { string_member(json_parsed(body), "message"@) } else { None }
}

/// The `field` and `message` of the first entry of an error body's `errors`
/// array (both absent for an empty array), when the body is JSON with such an array.
pub open spec fn body_validation(body: Seq<char>) -> Option<(Option<Seq<char>>, Option<Seq<char>>)> {
    if json_valid(body) {
        match array_member(json_parsed(body), "errors"@) {
            Some(a) => if a.len() > 0 {
                Some((string_member(a[0], "field"@), string_member(a[0], "message"@)))
            } else {
                Some((None, None))
            },
            None => None,
        }
    } else {
        None
    }
}

/// The parsed error body, when it is JSON.
pub open spec fn body_details(body: Seq<char>) -> Option<serde_json::Value> {
    if json_valid(body) { Some(json_parsed(body)) } else { None }
}

impl ErrorBody {
    /// The first validation entry's field and message, as texts.
    pub open spec fn validation_view(&self) -> Option<(Option<Seq<char>>, Option<Seq<char>>)> {
        match self.validation {
            Some(v) => Some((opt_text(v.field), opt_text(v.message))),
            None => None,
        }
    }
}

/// Reads the members that classification needs out of an error body.
pub fn read_error_body(body: &str) -> (r: (ErrorBody, Option<serde_json::Value>))
    ensures
        r.0.json == json_valid(body@),
        r.1 == body_details(body@),
        opt_text(r.0.message) == body_message(body@),
        r.0.validation_view() == body_validation(body@),
{
    match parse_json(body) {
        None => (ErrorBody { json: false, message: None, validation: None }, None),
        Some(v) => {
            let message = match json_get(&v, "message") {
                Some(m) => json_as_str(m),
                None => None,
            };
            let errors = match json_get(&v, "errors") {
                Some(e) => json_as_array(e),
                None => None,
            };
            let validation = match errors {
                Some(list) => {
                    if list.len() > 0 {
                        let first = &list[0];
                        let field = match json_get(first, "field") {
                            Some(f) => json_as_str(f),
                            None => None,
                        };
                        let msg = match json_get(first, "message") {
                            Some(m) => json_as_str(m),
                            None => None,
                        };
                        Some(FirstValidationError { field, message: msg })
                    } else {
                        Some(FirstValidationError { field: None, message: None })
                    }
                },
                None => None,
            };
            (ErrorBody { json: true, message, validation }, Some(v))
        },
    }
}

/// The generic API error for a failed status: the body's `message` with the
/// parsed body as details when both are there, else the raw body.
pub open spec fn is_api_error_for(
    r: Error,
    status: u16,
    request_id: Option<Seq<char>>,
    body: Seq<char>,
    message: Option<Seq<char>>,
    details: Option<serde_json::Value>,
) -> bool {
    r matches Error::Api { code, message: m, details: d, request_id: rid }
        && code == status
        && opt_text(rid) == request_id
        && if message is Some && details is Some {
            m@ == message.unwrap() && d == details
        } else {
            m@ == body && d is None
        }
}

/// The error that a failed status stands for, given the texts of the
/// request identifier and the body, what was read out of the body, and the
/// parsed body.
pub open spec fn is_classified(
    r: Error,
    status: u16,
    retry_after: Option<u64>,
    request_id: Option<Seq<char>>,
    body: Seq<char>,
    message: Option<Seq<char>>,
    validation: Option<(Option<Seq<char>>, Option<Seq<char>>)>,
    details: Option<serde_json::Value>,
) -> bool {
    if status == 401 {
        r matches Error::Authentication { message } && message@ == "Unauthorized - check your API credentials"@
    } else if status == 403 {
        r matches Error::Authorization { message } && message@ == "Forbidden - insufficient permissions"@
    } else if status == 404 {
        r is NotFound
    } else if status == 409 {
        r matches Error::Conflict { message, retry_after: ra } && message@ == "Resource conflict"@
            && ra == retry_after
    } else if status == 422 && validation is Some {
        r matches Error::Validation { message: m, field, code: None }
            && opt_text(field) == validation.unwrap().0
            && match validation.unwrap().1 {
                Some(v) => m@ == v,
                None => m@ == "Validation failed"@,
            }
    } else if status == 429 {
        r matches Error::RateLimit { retry_after: ra } && ra == retry_after
    } else if status == 503 {
        r matches Error::ServiceUnavailable { message, retry_after: ra }
            && message@ == "Service temporarily unavailable"@ && ra == retry_after
    } else {
        is_api_error_for(r, status, request_id, body, message, details)
    }
}

/// Classifies a failed status: 401, 403, 404, 409, 422 with an `errors`
/// array, 429 and 503 have their own variants; any other status, and 422
/// without such an array, is an API error carrying the request identifier.
pub fn classify_status(
    status: u16,
    retry_after: Option<u64>,
    request_id: Option<String>,
    body: String,
    parsed: ErrorBody,
    details: Option<serde_json::Value>,
) -> (r: Error)
    ensures
        is_classified(
            r,
            status,
            retry_after,
            opt_text(request_id),
            body@,
            opt_text(parsed.message),
            parsed.validation_view(),
            details,
        ),
{
    if status == 401 {
        Error::Authentication { message: "Unauthorized - check your API credentials".to_owned() }
    } else if status == 403 {
        Error::Authorization { message: "Forbidden - insufficient permissions".to_owned() }
    } else if status == 404 {
        Error::NotFound
    } else if status == 409 {
        Error::Conflict { message: "Resource conflict".to_owned(), retry_after }
    } else if status == 422 && parsed.validation.is_some() {
        let first = parsed.validation.unwrap();
        let message = match first.message {
            Some(m) => m,
            None => "Validation failed".to_owned(),
        };
        Error::Validation { message, field: first.field, code: None }
    } else if status == 429 {
        Error::RateLimit { retry_after }
    } else if status == 503 {
        Error::ServiceUnavailable { message: "Service temporarily unavailable".to_owned(), retry_after }
    } else {
        match (parsed.message, details) {
            (Some(m), Some(d)) => Error::Api { code: status, message: m, details: Some(d), request_id },
            _ => Error::Api { code: status, message: body, details: None, request_id },
        }
    }
}

/// Classifies a failed response from its status, headers and body text.
pub fn classify_response(
    status: u16,
    retry_after_header: Option<&str>,
    request_id: Option<String>,
    body: String,
) -> (r: Error)
    ensures
        is_classified(
            r,
            status,
            retry_after_ms(header_text(retry_after_header)),
            opt_text(request_id),
            body@,
            body_message(body@),
            body_validation(body@),
            body_details(body@),
        ),
{
    let retry_after = parse_retry_after(retry_after_header);
    let (parsed, details) = read_error_body(body.as_str());
    classify_status(status, retry_after, request_id, body, parsed, details)
}

/// Classifies a failure of the transport: a timeout after `timeout_ms`, or a
/// network error that may be retried.
pub fn classify_transport(failure: TransportFailure, timeout_ms: u64) -> (r: Error)
    ensures
        match failure {
            TransportFailure::Timeout => r matches Error::Timeout { duration, operation }
                && duration == timeout_ms && operation@ == "http_request"@,
            TransportFailure::Connect => r matches Error::Network { message, is_timeout: false, can_retry: true }
                && message@ == "Connection failed"@,
            TransportFailure::Other(m) => r matches Error::Network { message, is_timeout: false, can_retry: true }
                && message@ == m@,
        },
{
    match failure {
        TransportFailure::Timeout => Error::timeout(timeout_ms, "http_request"),
        TransportFailure::Connect => Error::network("Connection failed"),
        TransportFailure::Other(m) => Error::network(m.as_str()),
    }
}

} // verus!
