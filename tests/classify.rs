use stateset_core::classify::{classify_response, classify_transport, parse_retry_after, parse_u64, TransportFailure};
use stateset_core::error::Error;

#[test]
fn status_codes_map_to_variants() {
    assert!(matches!(classify_response(401, None, None, String::new()), Error::Authentication { .. }));
    assert!(matches!(classify_response(403, None, None, String::new()), Error::Authorization { .. }));
    assert!(matches!(classify_response(404, None, None, String::new()), Error::NotFound));
    match classify_response(409, Some("7"), None, String::new()) {
        Error::Conflict { message, retry_after } => {
            assert_eq!(message, "Resource conflict");
            assert_eq!(retry_after, Some(7000));
        }
        other => panic!("unexpected {:?}", other),
    }
    assert!(matches!(
        classify_response(429, Some("2"), None, String::new()),
        Error::RateLimit { retry_after: Some(2000) }
    ));
    match classify_response(503, Some("soon"), None, "down".to_string()) {
        Error::ServiceUnavailable { message, retry_after } => {
            assert_eq!(message, "Service temporarily unavailable");
            assert_eq!(retry_after, None);
        }
        other => panic!("unexpected {:?}", other),
    }
}

#[test]
fn validation_takes_the_first_error() {
    let body = r#"{"errors":[{"field":"email","message":"is invalid"},{"field":"name","message":"x"}]}"#;
    match classify_response(422, None, None, body.to_string()) {
        Error::Validation { message, field, code } => {
            assert_eq!(message, "is invalid");
            assert_eq!(field, Some("email".to_string()));
            assert_eq!(code, None);
        }
        other => panic!("unexpected {:?}", other),
    }
    match classify_response(422, None, None, r#"{"errors":[]}"#.to_string()) {
        Error::Validation { message, field, .. } => {
            assert_eq!(message, "Validation failed");
            assert_eq!(field, None);
        }
        other => panic!("unexpected {:?}", other),
    }
    assert!(matches!(
        classify_response(422, None, None, "not json".to_string()),
        Error::Api { code: 422, .. }
    ));
}

#[test]
fn other_statuses_are_api_errors() {
    match classify_response(500, None, Some("req-1".to_string()), r#"{"message":"boom"}"#.to_string()) {
        Error::Api { code, message, details, request_id } => {
            assert_eq!(code, 500);
            assert_eq!(message, "boom");
            assert!(details.is_some());
            assert_eq!(request_id, Some("req-1".to_string()));
        }
        other => panic!("unexpected {:?}", other),
    }
    match classify_response(418, None, None, "teapot".to_string()) {
        Error::Api { code, message, details, request_id } => {
            assert_eq!(code, 418);
            assert_eq!(message, "teapot");
            assert!(details.is_none());
            assert!(request_id.is_none());
        }
        other => panic!("unexpected {:?}", other),
    }
    let e = classify_response(502, None, None, r#"{"error":"x"}"#.to_string());
    assert!(e.is_retryable());
    assert!(matches!(e, Error::Api { details: None, .. }));
    assert!(!classify_response(400, None, None, String::new()).is_retryable());
}

#[test]
fn transport_failures() {
    match classify_transport(TransportFailure::Timeout, 30_000) {
        Error::Timeout { duration, operation } => {
            assert_eq!(duration, 30_000);
            assert_eq!(operation, "http_request");
        }
        other => panic!("unexpected {:?}", other),
    }
    match classify_transport(TransportFailure::Connect, 1) {
        Error::Network { message, can_retry, is_timeout } => {
            assert_eq!(message, "Connection failed");
            assert!(can_retry && !is_timeout);
        }
        other => panic!("unexpected {:?}", other),
    }
    assert!(matches!(
        classify_transport(TransportFailure::Other("reset".to_string()), 1),
        Error::Network { .. }
    ));
}

#[test]
fn decimal_parsing() {
    assert_eq!(parse_u64("0"), Some(0));
    assert_eq!(parse_u64("+42"), Some(42));
    assert_eq!(parse_u64("18446744073709551615"), Some(u64::MAX));
    assert_eq!(parse_u64("18446744073709551616"), None);
    assert_eq!(parse_u64(""), None);
    assert_eq!(parse_u64("+"), None);
    assert_eq!(parse_u64("-1"), None);
    assert_eq!(parse_u64("1 "), None);
    assert_eq!(parse_retry_after(Some("120")), Some(120_000));
    assert_eq!(parse_retry_after(Some("18446744073709551615")), Some(u64::MAX));
    assert_eq!(parse_retry_after(None), None);
}
