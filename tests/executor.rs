use stateset_core::breaker::{CircuitBreakerMiddleware, CircuitState};
use stateset_core::error::Error;
use stateset_core::executor::{admit_attempt, report_attempt, report_cancelled, Execution, Step};
use stateset_core::limiter::RateLimitMiddleware;
use stateset_core::retry::RetryPolicy;

fn unavailable() -> Error {
    Error::ServiceUnavailable { message: "down".to_string(), retry_after: None }
}

/// Runs a call whose attempts end with the given results; returns the
/// number of attempts made and the final result.
fn run(policy: &RetryPolicy, mut results: Vec<Result<u32, Error>>) -> (u32, Result<u32, Error>) {
    results.reverse();
    let mut ex = Execution::new(policy);
    let mut attempts = 0;
    loop {
        let r = results.pop().expect("ran out of results");
        attempts += 1;
        match ex.on_result(policy, r) {
            Step::Retry { .. } => continue,
            Step::Finish(done) => return (attempts, done),
        }
    }
}

#[test]
fn success_on_first_attempt() {
    let policy = RetryPolicy::new(3, 10, 100, 200).without_jitter();
    let (n, r) = run(&policy, vec![Ok(7)]);
    assert_eq!(n, 1);
    assert_eq!(r.unwrap(), 7);
}

#[test]
fn retries_until_success() {
    let policy = RetryPolicy::new(3, 10, 100, 200).without_jitter();
    let (n, r) = run(&policy, vec![Err(unavailable()), Err(Error::network("x")), Ok(1)]);
    assert_eq!(n, 3);
    assert_eq!(r.unwrap(), 1);
}

#[test]
fn gives_up_after_max_attempts_plus_one() {
    let policy = RetryPolicy::new(3, 10, 100, 200).without_jitter();
    let results = (0..10).map(|_| Err(unavailable())).collect();
    let (n, r) = run(&policy, results);
    assert_eq!(n, 4);
    match r {
        Err(Error::RetryExhausted { attempts, operation, last_error }) => {
            assert_eq!(attempts, 3);
            assert_eq!(operation, "execute_request");
            assert!(matches!(*last_error, Error::ServiceUnavailable { .. }));
        }
        other => panic!("unexpected {:?}", other),
    }
}

#[test]
fn non_retryable_error_stops_after_one_attempt() {
    for max in [0, 1, 5, 100] {
        let policy = RetryPolicy::new(max, 10, 100, 200);
        let (n, r) = run(&policy, vec![Err(Error::NotFound), Ok(1)]);
        assert_eq!(n, 1);
        assert!(matches!(r, Err(Error::NotFound)));
    }
}

#[test]
fn non_retryable_after_a_retry_is_wrapped() {
    let policy = RetryPolicy::new(5, 10, 100, 200).without_jitter();
    let (n, r) = run(&policy, vec![Err(unavailable()), Err(Error::api(400, "bad"))]);
    assert_eq!(n, 2);
    match r {
        Err(Error::RetryExhausted { last_error, .. }) => {
            assert!(matches!(*last_error, Error::Api { code: 400, .. }))
        }
        other => panic!("unexpected {:?}", other),
    }
}

#[test]
fn zero_retries_surfaces_the_error() {
    let policy = RetryPolicy::new(0, 10, 100, 200);
    let (n, r) = run(&policy, vec![Err(unavailable())]);
    assert_eq!(n, 1);
    assert!(matches!(r, Err(Error::ServiceUnavailable { .. })));
}

#[test]
fn wait_is_the_longer_of_policy_and_retry_after() {
    let policy = RetryPolicy::new(3, 1000, 60_000, 200).without_jitter();
    let mut ex = Execution::new(&policy);
    let step = ex.decide::<()>(Err(Error::RateLimit { retry_after: Some(5000) }), 1000);
    assert!(matches!(step, Step::Retry { delay_ms: 5000 }));
    let step = ex.decide::<()>(Err(Error::RateLimit { retry_after: Some(5) }), 2000);
    assert!(matches!(step, Step::Retry { delay_ms: 2000 }));
    let step = ex.on_result::<()>(&policy, Err(Error::timeout(10, "op")));
    assert!(matches!(step, Step::Retry { delay_ms: 4000 }));
    assert_eq!(ex.attempt, 3);
    let step = ex.on_result::<()>(&policy, Err(Error::timeout(10, "op")));
    assert!(matches!(step, Step::Finish(Err(Error::RetryExhausted { .. }))));
    assert!(ex.finished);
}

#[test]
fn network_error_waits_at_least_a_second() {
    let policy = RetryPolicy::new(3, 10, 100, 200).without_jitter();
    let mut ex = Execution::new(&policy);
    let step = ex.on_result::<()>(&policy, Err(Error::network("reset")));
    assert!(matches!(step, Step::Retry { delay_ms: 1000 }));
}

#[test]
fn open_breaker_rejects_without_consulting_limiter() {
    let mut breaker = Some(CircuitBreakerMiddleware::new(1, 30_000));
    let mut limiter = Some(RateLimitMiddleware::new_at(5, 0));
    report_attempt::<()>(&mut breaker, &Err(Error::network("x")), 100);
    assert_eq!(breaker.unwrap().state, CircuitState::Open);
    match admit_attempt(&mut breaker, &mut limiter, 200) {
        Some(Error::ServiceUnavailable { message, retry_after }) => {
            assert_eq!(message, "Circuit breaker is open");
            assert_eq!(retry_after, Some(30_000));
        }
        other => panic!("unexpected {:?}", other),
    }
    assert_eq!(limiter.unwrap().tokens_remaining, 5);
    assert!(admit_attempt(&mut breaker, &mut limiter, 30_100).is_none());
    assert_eq!(breaker.unwrap().state, CircuitState::HalfOpen);
    report_attempt(&mut breaker, &Ok(()), 30_200);
    assert_eq!(breaker.unwrap().state, CircuitState::Closed);
}

#[test]
fn exhausted_limiter_rejects_as_rate_limit() {
    let mut breaker: Option<CircuitBreakerMiddleware> = None;
    let mut limiter = Some(RateLimitMiddleware::new_at(1, 0));
    assert!(admit_attempt(&mut breaker, &mut limiter, 1).is_none());
    match admit_attempt(&mut breaker, &mut limiter, 2) {
        Some(e @ Error::RateLimit { .. }) => {
            assert_eq!(e.retry_after(), Some(60_000));
            assert!(e.is_retryable());
        }
        other => panic!("unexpected {:?}", other),
    }
    let mut none: Option<RateLimitMiddleware> = None;
    assert!(admit_attempt(&mut breaker, &mut none, 3).is_none());
}

#[test]
fn client_errors_do_not_count_against_breaker() {
    let mut breaker = Some(CircuitBreakerMiddleware::new(1, 1000));
    report_attempt::<()>(&mut breaker, &Err(Error::NotFound), 5);
    assert_eq!(breaker.unwrap().failure_count, 0);
    report_attempt::<()>(&mut breaker, &Err(Error::api(502, "bad gateway")), 5);
    assert_eq!(breaker.unwrap().state, CircuitState::Open);
}

fn open_breaker() -> Option<CircuitBreakerMiddleware> {
    let mut breaker = Some(CircuitBreakerMiddleware::new(1, 1000));
    report_attempt::<()>(&mut breaker, &Err(Error::network("x")), 0);
    breaker
}

#[test]
fn limiter_rejection_does_not_take_the_trial() {
    let mut breaker = open_breaker();
    let mut limiter = Some(RateLimitMiddleware::new_at(0, 500));
    assert!(matches!(admit_attempt(&mut breaker, &mut limiter, 1000), Some(Error::RateLimit { .. })));
    assert_eq!(breaker.unwrap().state, CircuitState::Open);
    let mut none: Option<RateLimitMiddleware> = None;
    assert!(admit_attempt(&mut breaker, &mut none, 1001).is_none());
    assert_eq!(breaker.unwrap().state, CircuitState::HalfOpen);
}

#[test]
fn any_trial_outcome_ends_half_open() {
    let mut none: Option<RateLimitMiddleware> = None;
    for outcome in [Err(Error::NotFound), Err(Error::RateLimit { retry_after: None })] {
        let mut breaker = open_breaker();
        assert!(admit_attempt(&mut breaker, &mut none, 1000).is_none());
        report_attempt::<()>(&mut breaker, &outcome, 1500);
        assert_eq!(breaker.unwrap().state, CircuitState::Open);
        assert_eq!(breaker.unwrap().last_failure, Some(1500));
    }
    let mut breaker = open_breaker();
    assert!(admit_attempt(&mut breaker, &mut none, 1000).is_none());
    report_cancelled(&mut breaker);
    assert_eq!(breaker.unwrap().state, CircuitState::Open);
    assert!(admit_attempt(&mut breaker, &mut none, 1001).is_none());
}
