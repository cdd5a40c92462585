use stateset_core::retry::RetryPolicy;

#[test]
fn test_retry_policy_creation() {
    let policy = RetryPolicy::new(3, 500, 30_000, 200);

    assert_eq!(policy.max_attempts, 3);
    assert_eq!(policy.initial_delay, 500);
    assert_eq!(policy.max_delay, 30_000);
    assert_eq!(policy.multiplier_percent, 200);
}

#[test]
fn test_delay_calculation() {
    let policy = RetryPolicy::new(3, 1000, 60_000, 200).without_jitter();

    assert_eq!(policy.delay_for_attempt(0), 1000);
    assert_eq!(policy.delay_for_attempt(1), 2000);
    assert_eq!(policy.delay_for_attempt(2), 4000);
}

#[test]
fn test_delay_capping() {
    let policy = RetryPolicy::new(5, 1000, 3000, 200).without_jitter();

    assert_eq!(policy.delay_for_attempt(0), 1000);
    assert_eq!(policy.delay_for_attempt(1), 2000);
    assert_eq!(policy.delay_for_attempt(2), 3000); // Capped
    assert_eq!(policy.delay_for_attempt(3), 3000); // Still capped
}

#[test]
fn test_should_retry() {
    let policy = RetryPolicy::new(3, 1000, 60_000, 200);

    assert!(policy.should_retry(0));
    assert!(policy.should_retry(1));
    assert!(policy.should_retry(2));
    assert!(!policy.should_retry(3));
    assert!(!policy.should_retry(4));
}

#[test]
fn test_jitter_adds_randomness() {
    let policy = RetryPolicy::new(3, 1000, 60_000, 200);

    let delay1 = policy.delay_for_attempt(1);
    let delay2 = policy.delay_for_attempt(1);

    // With jitter, delays should be different (most of the time)
    assert_ne!(delay1, delay2);
}

#[test]
fn jittered_delay_stays_within_half_and_one_and_a_half() {
    let policy = RetryPolicy::new(3, 1000, 60_000, 200);
    for _ in 0..50 {
        let d = policy.delay_for_attempt(2);
        assert!((2000..=6000).contains(&d), "{}", d);
    }
    // the first attempt is never jittered
    assert_eq!(policy.delay_for_attempt(0), 1000);
}

#[test]
fn delay_with_given_jitter_factor() {
    let policy = RetryPolicy::new(3, 1000, 60_000, 200);
    assert_eq!(policy.delay_with_jitter(1, 500), 1000);
    assert_eq!(policy.delay_with_jitter(1, 1500), 3000);
    assert_eq!(policy.delay_with_jitter(2, 1250), 5000);
    assert_eq!(policy.without_jitter().delay_with_jitter(2, 1250), 4000);
    assert_eq!(RetryPolicy::apply_jitter(u64::MAX, 1500), u64::MAX);
}

#[test]
fn delays_never_fall_and_stop_at_the_cap() {
    let policy = RetryPolicy::new(10, 700, 10_000, 150).without_jitter();
    let expected = [700, 1050, 1575, 2362, 3543, 5315, 7973, 10_000, 10_000, 10_000];
    for (n, want) in expected.iter().enumerate() {
        assert_eq!(policy.delay_for_attempt(n as u32), *want);
    }
    let mut prev = 0;
    for n in 0..40 {
        let d = policy.base_delay(n);
        assert!(d >= prev && d <= 10_000);
        prev = d;
    }
    assert_eq!(policy.base_delay(u32::MAX), 10_000);
}

#[test]
fn default_policy() {
    let p = RetryPolicy::default();
    assert_eq!(p.max_attempts, 3);
    assert_eq!(p.initial_delay, 1000);
    assert_eq!(p.max_delay, 60_000);
    assert_eq!(p.multiplier_percent, 200);
    assert!(p.jitter);
}

#[test]
fn delay_is_rounded_once() {
    let policy = RetryPolicy::new(5, 1, 1_000_000, 150).without_jitter();
    assert_eq!(policy.delay_for_attempt(1), 1);
    assert_eq!(policy.delay_for_attempt(2), 2);
    assert_eq!(policy.delay_for_attempt(3), 3);
    assert_eq!(policy.delay_for_attempt(4), 5);
    let slow = RetryPolicy::new(5, 1000, u64::MAX, 101).without_jitter();
    assert_eq!(slow.delay_for_attempt(100), 2704);
    let zero = RetryPolicy::new(5, 0, 100, 300).without_jitter();
    assert_eq!(zero.delay_for_attempt(7), 0);
    let huge = RetryPolicy::new(5, u64::MAX, u64::MAX, u32::MAX).without_jitter();
    assert_eq!(huge.delay_for_attempt(3), u64::MAX);
}
