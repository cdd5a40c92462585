use stateset_core::config::{Config, PoolSettings};
use stateset_core::error::Error;

#[test]
fn test_config_validation() {
    let config = Config::builder()
        .base_url("https://api.stateset.io")
        .timeout(30_000)
        .connect_timeout(10_000)
        .retry_attempts(3)
        .build()
        .unwrap();

    assert_eq!(config.base_url, "https://api.stateset.io/");
    assert_eq!(config.timeout, 30_000);
    assert_eq!(config.retry_attempts, 3);
}

#[test]
fn builder_requires_a_readable_address() {
    assert!(matches!(Config::builder().build(), Err(Error::Configuration { .. })));
    assert!(Config::builder().base_url("not a url").build().is_err());
    assert!(Config::with_base_url("::").is_err());
    assert_eq!(Config::with_base_url("http://localhost:8080/v1").unwrap().base_url, "http://localhost:8080/v1");
}

#[test]
fn validation_rules() {
    assert!(Config::default().validate().is_ok());
    let c = Config::with_base_url("ftp://files.example.com").unwrap();
    match c.validate() {
        Err(Error::Configuration { message, .. }) => assert_eq!(message, "Invalid URL scheme"),
        other => panic!("unexpected {:?}", other),
    }
    let b = || Config::builder().base_url("https://x.example");
    assert!(b().timeout(0).build().is_err());
    assert!(b().timeout(5).connect_timeout(6).build().is_err());
    assert!(b().timeout(6).connect_timeout(6).build().is_ok());
    assert!(b().retry_multiplier_percent(100).build().is_err());
    assert!(b().retry_multiplier_percent(101).build().is_ok());
    let no_pool = PoolSettings { max_connections_per_host: 0, ..PoolSettings::default() };
    assert!(b().pool_settings(no_pool).build().is_err());
}

#[test]
fn builder_fills_defaults() {
    let c = Config::builder()
        .base_url("https://x.example")
        .user_agent("agent/1")
        .default_header("X-A", "1")
        .default_header("X-A", "2")
        .keep_alive(None)
        .max_redirects(3)
        .build()
        .unwrap();
    assert_eq!(c.retry_delay, 1000);
    assert_eq!(c.max_retry_delay, 60_000);
    assert_eq!(c.retry_multiplier_percent, 200);
    assert_eq!(c.keep_alive, Some(90_000));
    assert_eq!(c.max_redirects, 3);
    assert_eq!(c.user_agent, "agent/1");
    assert_eq!(c.default_headers, vec![("X-A".to_string(), "2".to_string())]);
    assert_eq!(c.pool_settings, PoolSettings::default());
    assert!(c.compression && c.tls_verification);
}

#[test]
fn total_timeout_sums_timeouts_and_delays() {
    let c = Config::default();
    assert_eq!(c.total_timeout(), 97_000);
    let c = Config::builder().base_url("https://x.example").retry_attempts(0).build().unwrap();
    assert_eq!(c.total_timeout(), 0);
    let c = Config::builder().base_url("https://x.example").timeout(u64::MAX).build().unwrap();
    assert_eq!(c.total_timeout(), u64::MAX);
    let p = Config::default().retry_policy();
    assert_eq!(p.max_attempts, 3);
    assert!(p.jitter);
}
