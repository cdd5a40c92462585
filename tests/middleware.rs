use stateset_core::breaker::{CircuitBreakerMiddleware, CircuitState};
use stateset_core::limiter::RateLimitMiddleware;
use stateset_core::middleware::{is_sensitive_header, LoggingMiddleware, MetricsMiddleware, UserAgentMiddleware};

#[test]
fn test_sensitive_header_detection() {
    assert!(is_sensitive_header("Authorization"));
    assert!(is_sensitive_header("authorization"));
    assert!(is_sensitive_header("Cookie"));
    assert!(is_sensitive_header("X-API-Key"));
    assert!(!is_sensitive_header("Content-Type"));
    assert!(!is_sensitive_header("Accept"));
}

#[test]
fn test_logging_middleware_creation() {
    let middleware = LoggingMiddleware::all();
    assert!(middleware.log_requests);
    assert!(middleware.log_responses);
    assert!(middleware.log_request_bodies);
    assert!(middleware.log_response_bodies);

    let middleware = LoggingMiddleware::basic();
    assert!(middleware.log_requests);
    assert!(middleware.log_responses);
    assert!(!middleware.log_request_bodies);
    assert!(!middleware.log_response_bodies);
}

#[test]
fn test_middleware_configuration() {
    let middleware = LoggingMiddleware::default()
        .requests(true)
        .responses(false)
        .request_bodies(true);

    assert!(middleware.log_requests);
    assert!(!middleware.log_responses);
    assert!(middleware.log_request_bodies);
    assert!(!middleware.log_response_bodies);
}

#[test]
fn test_circuit_breaker_states() {
    let mut cb = CircuitBreakerMiddleware::new(3, 30_000);

    // Initially closed
    assert_eq!(cb.get_state(), CircuitState::Closed);
    assert!(cb.can_execute());

    // Record failures
    cb.record_failure();
    cb.record_failure();
    assert_eq!(cb.get_state(), CircuitState::Closed);

    cb.record_failure();
    assert_eq!(cb.get_state(), CircuitState::Open);
    assert!(!cb.can_execute());

    // Success should close the circuit
    cb.record_success();
    assert_eq!(cb.get_state(), CircuitState::Closed);
}

#[test]
fn test_rate_limiter() {
    let mut limiter = RateLimitMiddleware::new(2);

    assert!(limiter.check_rate_limit());
    assert!(limiter.check_rate_limit());
    assert!(!limiter.check_rate_limit()); // Should be rate limited
}

#[test]
fn breaker_opens_then_half_opens_after_recovery() {
    let mut cb = CircuitBreakerMiddleware::new(3, 30_000);
    cb.record_failure_at(1_000);
    cb.record_failure_at(1_000);
    cb.record_failure_at(1_000);
    assert_eq!(cb.get_state(), CircuitState::Open);
    assert!(!cb.can_execute_at(1_000));
    assert!(!cb.can_execute_at(30_999));
    assert_eq!(cb.get_state(), CircuitState::Open);
    assert!(cb.can_execute_at(31_000));
    assert_eq!(cb.get_state(), CircuitState::HalfOpen);
    // only the one trial goes through
    assert!(!cb.can_execute_at(31_001));
}

#[test]
fn breaker_half_open_success_closes() {
    let mut cb = CircuitBreakerMiddleware::new(2, 500);
    cb.record_failure_at(10);
    cb.record_failure_at(20);
    assert!(cb.can_execute_at(520));
    assert_eq!(cb.get_state(), CircuitState::HalfOpen);
    cb.record_success();
    assert_eq!(cb.get_state(), CircuitState::Closed);
    assert_eq!(cb.failure_count, 0);
    assert!(cb.can_execute_at(521));
}

#[test]
fn breaker_half_open_failure_reopens() {
    let mut cb = CircuitBreakerMiddleware::new(2, 500);
    cb.record_failure_at(10);
    cb.record_failure_at(20);
    assert!(cb.can_execute_at(520));
    cb.record_failure_at(600);
    assert_eq!(cb.get_state(), CircuitState::Open);
    cb.record_cancelled();
    assert_eq!(cb.get_state(), CircuitState::Open);
    assert_eq!(cb.last_failure, Some(600));
    assert!(!cb.can_execute_at(1_099));
    assert!(cb.can_execute_at(1_100));
}

#[test]
fn breaker_success_resets_consecutive_count() {
    let mut cb = CircuitBreakerMiddleware::new(3, 500);
    cb.record_failure_at(1);
    cb.record_failure_at(2);
    cb.record_success();
    cb.record_failure_at(3);
    cb.record_failure_at(4);
    assert_eq!(cb.get_state(), CircuitState::Closed);
    cb.record_failure_at(5);
    assert_eq!(cb.get_state(), CircuitState::Open);
}

#[test]
fn limiter_rejects_request_past_capacity_then_refills() {
    let mut limiter = RateLimitMiddleware::new_at(3, 0);
    assert!(limiter.check_rate_limit_at(0));
    assert!(limiter.check_rate_limit_at(10));
    assert!(limiter.check_rate_limit_at(59_999));
    assert!(!limiter.check_rate_limit_at(59_999));
    assert_eq!(limiter.tokens_remaining, 0);
    assert!(limiter.check_rate_limit_at(60_000));
    assert_eq!(limiter.tokens_remaining, 2);
    assert_eq!(limiter.window_start, 60_000);
    assert!(limiter.check_rate_limit_at(60_001));
    assert!(limiter.check_rate_limit_at(60_002));
    assert!(!limiter.check_rate_limit_at(60_003));
}

#[test]
fn refilled_window_allows_exactly_its_capacity() {
    let mut limiter = RateLimitMiddleware::new_at(2, 0);
    assert!(limiter.check_rate_limit_at(1));
    assert!(limiter.check_rate_limit_at(1));
    assert!(!limiter.check_rate_limit_at(1));
    assert!(limiter.check_rate_limit_at(60_000));
    assert!(limiter.check_rate_limit_at(60_001));
    assert!(!limiter.check_rate_limit_at(60_002));
    assert_eq!(limiter.tokens_remaining, 0);
}

#[test]
fn limiter_with_zero_capacity_allows_nothing() {
    let mut limiter = RateLimitMiddleware::new_at(0, 100);
    assert!(!limiter.check_rate_limit_at(100));
    assert!(!limiter.check_rate_limit_at(60_100));
    assert_eq!(limiter.window_start, 60_100);
    assert!(!limiter.check_rate_limit_at(60_101));
}

#[test]
fn sensitive_field_matching_ignores_case_and_finds_substrings() {
    let m = LoggingMiddleware::default();
    assert!(m.is_sensitive_field("Password"));
    assert!(m.is_sensitive_field("user_api_key"));
    assert!(m.is_sensitive_field("ACCESS_TOKEN"));
    assert!(!m.is_sensitive_field("name"));
    let m = m.add_sensitive_field("pin");
    assert!(m.is_sensitive_field("card_PIN"));
    assert_eq!(m.sensitive_fields.len(), 8);
    let m = m.add_sensitive_field("pin");
    assert_eq!(m.sensitive_fields.len(), 8);
}

#[test]
fn logging_defaults() {
    let m = LoggingMiddleware::default().max_body_size(10).response_bodies(true);
    assert_eq!(m.max_body_size, 10);
    assert!(m.log_response_bodies);
    assert_eq!(LoggingMiddleware::new().max_body_size, 8192);
    assert_eq!(LoggingMiddleware::new().sensitive_fields.len(), 7);
}

#[test]
fn metrics_and_user_agent() {
    let _m = MetricsMiddleware::new();
    assert!(MetricsMiddleware::is_error_status(404));
    assert!(!MetricsMiddleware::is_error_status(204));
    let ua = UserAgentMiddleware::new("stateset-test/1.0");
    assert_eq!(ua.user_agent, "stateset-test/1.0");
}

#[test]
fn cancelled_trial_reopens_breaker() {
    let mut cb = CircuitBreakerMiddleware::new(1, 100);
    cb.record_failure_at(0);
    assert!(!cb.would_admit(50));
    assert!(cb.would_admit(100));
    assert_eq!(cb.get_state(), CircuitState::Open);
    assert!(cb.can_execute_at(100));
    cb.record_cancelled();
    assert_eq!(cb.get_state(), CircuitState::Open);
    assert!(cb.can_execute_at(101));
    assert_eq!(cb.get_state(), CircuitState::HalfOpen);
}
