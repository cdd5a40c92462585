//! The settings that the executor reads: address, timeouts, retry policy,
//! rate limit and connection pool. Durations are whole milliseconds.
use vstd::prelude::*;
use crate::error::Error;
use crate::retry::{RetryPolicy, backoff, min_int};
use crate::text::text_eq;

verus! {

/// Whether url reads the text as an absolute URL.
pub uninterp spec fn url_parses(s: Seq<char>) -> bool;

/// How url writes a URL that it has read.
pub uninterp spec fn url_serialization(s: Seq<char>) -> Seq<char>;

/// Relies on `url::Url::parse` and the URL's serialization: the normalised
/// text of an absolute URL, or `None` where the text is not one.
#[verifier::external_body]
fn normalize_url(s: &str) -> (r: Option<String>)
    ensures
        r.is_some() == url_parses(s@),
        r matches Some(u) ==> u@ == url_serialization(s@),
{
    url::Url::parse(s).ok().map(|u| u.to_string())
}

/// The address used when none is given.
pub const DEFAULT_BASE_URL: &'static str = "https://api.stateset.io/";

/// The settings of the connection pool.
#[derive(Debug, Clone, Copy, PartialEq, Eq, Structural)]
pub struct PoolSettings {
    /// Most connections kept per host.
    pub max_connections_per_host: usize,
    /// Most connections in all.
    pub max_total_connections: usize,
    /// How long an idle connection is kept.
    pub idle_timeout: u64,
    /// Keep-alive of a connection.
    pub keep_alive_timeout: u64,
}

/// The default pool: ten connections per host, a hundred in all, idle ones
/// kept for thirty seconds, keep-alive of ninety.
pub open spec fn default_pool() -> PoolSettings {
    PoolSettings {
        max_connections_per_host: 10,
        max_total_connections: 100,
        idle_timeout: 30000,
        keep_alive_timeout: 90000,
    }
}

impl Default for PoolSettings {
    fn default() -> (r: PoolSettings)
        ensures
            r == default_pool(),
    {
        PoolSettings {
            max_connections_per_host: 10,
            max_total_connections: 100,
            idle_timeout: 30000,
            keep_alive_timeout: 90000,
        }
    }
}

/// The settings of a client.
#[derive(Debug, Clone)]
pub struct Config {
    /// Address of the API, as url writes it.
    pub base_url: String,
    /// Timeout of one request.
    pub timeout: u64,
    /// Timeout of making a connection.
    pub connect_timeout: u64,
    /// Retries after the first attempt.
    pub retry_attempts: u32,
    /// Delay before the first retry.
    pub retry_delay: u64,
    /// Upper bound of the delays.
    pub max_retry_delay: u64,
    /// Growth of the delays, in hundredths.
    pub retry_multiplier_percent: u32,
    /// Requests allowed per period, and the period.
    pub rate_limit: Option<(u32, u64)>,
    /// User agent sent with each request.
    pub user_agent: String,
    /// Connection pool settings.
    pub pool_settings: PoolSettings,
    /// Whether compressed responses are accepted.
    pub compression: bool,
    /// TCP keep-alive.
    pub keep_alive: Option<u64>,
    /// Most redirects followed.
    pub max_redirects: u32,
    /// Headers sent with each request, in order.
    pub default_headers: Vec<(String, String)>,
    /// Whether TLS certificates are checked.
    pub tls_verification: bool,
}

/// Whether `p` begins `s`.
pub open spec fn starts_with(s: Seq<char>, p: Seq<char>) -> bool {
    p.len() <= s.len() && s.subrange(0, p.len() as int) == p
}

/// Whether `p` begins `s`.
fn has_prefix(s: &str, p: &str) -> (r: bool)
    ensures
        r == starts_with(s@, p@),
{
    let n = s.unicode_len();
    let m = p.unicode_len();
    if m > n {
        return false;
    }
    let mut i: usize = 0;
    while i < m
        invariant
            i <= m,
            m <= n,
            n == s@.len(),
            m == p@.len(),
            forall|k: int| 0 <= k < i ==> s@[k] == p@[k],
        decreases m - i,
    {
        if s.get_char(i) != p.get_char(i) {
            assert(s@.subrange(0, m as int)[i as int] != p@[i as int]);
            return false;
        }
        i = i + 1;
    }
    assert(s@.subrange(0, m as int) =~= p@);
    true
}

/// The sum over the first `n` attempts of the request timeout and the delay
/// that follows each.
pub open spec fn timeout_sum(timeout: u64, initial: u64, max: u64, m: u32, n: nat) -> int
    decreases n,
{
    if n == 0 {
        0
    } else {
        timeout_sum(timeout, initial, max, m, (n - 1) as nat) + timeout + backoff(initial, max, m, (n - 1) as nat)
    }
}

impl Config {
    /// Whether the address is an http or https URL.
    pub open spec fn has_http_scheme(&self) -> bool {
        starts_with(self.base_url@, "http:"@) || starts_with(self.base_url@, "https:"@)
    }

    /// Whether the settings may be used.
    pub open spec fn spec_valid(&self) -> bool {
        &&& self.has_http_scheme()
        &&& self.timeout > 0
        &&& self.connect_timeout <= self.timeout
        &&& self.retry_multiplier_percent > 100
        &&& self.pool_settings.max_connections_per_host > 0
    }

    /// The settings used when none are given.
    pub fn new() -> (r: Config)
        ensures
            r.base_url@ == DEFAULT_BASE_URL@,
            r.timeout == 30000,
            r.connect_timeout == 10000,
            r.retry_attempts == 3,
            r.retry_delay == 1000,
            r.max_retry_delay == 60000,
            r.retry_multiplier_percent == 200,
            r.rate_limit is None,
            r.pool_settings == default_pool(),
            r.compression,
            r.keep_alive == Some(90000u64),
            r.max_redirects == 10,
            r.default_headers@.len() == 2,
            header_names_unique(r.default_headers@),
            r.tls_verification,
            r.spec_valid(),
    {
        let mut default_headers: Vec<(String, String)> = Vec::new();
        default_headers.push(("Accept".to_owned(), "application/json".to_owned()));
        default_headers.push(("Accept-Encoding".to_owned(), "gzip, deflate, br".to_owned()));
        proof {
            reveal_strlit("https://api.stateset.io/");
            reveal_strlit("https:");
        }
        proof {
            reveal_strlit("Accept");
            reveal_strlit("Accept-Encoding");
            assert(default_headers@[0].0@.len() != default_headers@[1].0@.len());
        }
        let r = Config {
            base_url: DEFAULT_BASE_URL.to_owned(),
            timeout: 30000,
            connect_timeout: 10000,
            retry_attempts: 3,
            retry_delay: 1000,
            max_retry_delay: 60000,
            retry_multiplier_percent: 200,
            rate_limit: None,
            user_agent: "stateset-rust-sdk/0.1.0".to_owned(),
            pool_settings: PoolSettings::default(),
            compression: true,
            keep_alive: Some(90000),
            max_redirects: 10,
            default_headers,
            tls_verification: true,
        };
        assert(r.base_url@.subrange(0, 6) =~= "https:"@);
        r
    }

    /// The default settings with another address, or a configuration error
    /// when url cannot read it.
    pub fn with_base_url(base_url: &str) -> (r: Result<Config, Error>)
        ensures
            r is Ok <==> url_parses(base_url@),
            r matches Ok(c) ==> c.base_url@ == url_serialization(base_url@) && c.timeout == 30000
                && c.retry_attempts == 3,
            !url_parses(base_url@) ==> r matches Err(Error::Configuration { .. }),
    {
        match normalize_url(base_url) {
            Some(u) => Ok(Config { base_url: u, ..Config::new() }),
            None => Err(Error::config_with_hint(
                "Invalid base URL",
                "Ensure the URL starts with http:// or https://",
            )),
        }
    }

    /// Checks the settings: an http or https address, a timeout above zero
    /// and at least the connect timeout, a multiplier above 1.0, and room for
    /// a connection per host.
    pub fn validate(&self) -> (r: Result<(), Error>)
        ensures
            r is Ok <==> self.spec_valid(),
            r matches Err(e) ==> e is Configuration,
    {
        if !(has_prefix(self.base_url.as_str(), "http:") || has_prefix(self.base_url.as_str(), "https:")) {
            return Err(Error::config_with_hint("Invalid URL scheme", "Only HTTP and HTTPS are supported"));
        }
        if self.timeout == 0 {
            return Err(Error::config_with_hint(
                "Timeout cannot be zero",
                "Set a reasonable timeout like 30 seconds",
            ));
        }
        if self.connect_timeout > self.timeout {
            return Err(Error::config_with_hint(
                "Connect timeout cannot be greater than request timeout",
                "Ensure connect_timeout <= timeout",
            ));
        }
        if self.retry_multiplier_percent <= 100 {
            return Err(Error::config_with_hint(
                "Retry multiplier must be greater than 1.0",
                "Use a value like 200 for exponential backoff",
            ));
        }
        if self.pool_settings.max_connections_per_host == 0 {
            return Err(Error::config_with_hint(
                "Max connections per host cannot be zero",
                "Set a reasonable value like 10",
            ));
        }
        Ok(())
    }

    /// The retry policy of these settings, with jitter.
    pub fn retry_policy(&self) -> (r: RetryPolicy)
        requires
            self.retry_multiplier_percent > 100,
        ensures
            r.wf(),
            r == (RetryPolicy {
                max_attempts: self.retry_attempts,
                initial_delay: self.retry_delay,
                max_delay: self.max_retry_delay,
                multiplier_percent: self.retry_multiplier_percent,
                jitter: true,
            }),
    {
        RetryPolicy::new(self.retry_attempts, self.retry_delay, self.max_retry_delay, self.retry_multiplier_percent)
    }

    /// The longest time that the retries of one call can take: for each
    /// retry, the request timeout and the delay before it, without jitter;
    /// saturating at `u64::MAX`.
    pub fn total_timeout(&self) -> (r: u64)
        requires
            self.retry_multiplier_percent > 100,
        ensures
            r == min_int(
                timeout_sum(self.timeout, self.retry_delay, self.max_retry_delay, self.retry_multiplier_percent, self.retry_attempts as nat),
                u64::MAX as int,
            ),
    {
        let policy = RetryPolicy::new(self.retry_attempts, self.retry_delay, self.max_retry_delay, self.retry_multiplier_percent)
            .without_jitter();
        let mut total: u64 = 0;
        let mut i: u32 = 0;
        while i < self.retry_attempts
            invariant
                i <= self.retry_attempts,
                policy.wf(),
                policy.initial_delay == self.retry_delay,
                policy.max_delay == self.max_retry_delay,
                policy.multiplier_percent == self.retry_multiplier_percent,
                total == min_int(
                    timeout_sum(self.timeout, self.retry_delay, self.max_retry_delay, self.retry_multiplier_percent, i as nat),
                    u64::MAX as int,
                ),
                timeout_sum(self.timeout, self.retry_delay, self.max_retry_delay, self.retry_multiplier_percent, i as nat) >= 0,
            decreases self.retry_attempts - i,
        {
            let d = policy.base_delay(i);
            proof {
                crate::retry::lemma_backoff_nonneg(self.retry_delay, self.max_retry_delay, self.retry_multiplier_percent, i as nat);
            }
            let step = self.timeout as u128 + d as u128;
            let sum = total as u128 + step;
            total = if sum > u64::MAX as u128 { u64::MAX } else { sum as u64 };
            i = i + 1;
        }
        total
    }
}

impl Default for Config {
    fn default() -> (r: Config)
        ensures
            r.base_url@ == DEFAULT_BASE_URL@,
            r.spec_valid(),
    {
        Config::new()
    }
}

/// Builder of settings: what is not set is taken from the defaults.
#[derive(Debug, Clone)]
pub struct ConfigBuilder {
    /// The address as url writes it; `None` also when url could not read it.
    pub base_url: Option<String>,
    /// Timeout of one request.
    pub timeout: Option<u64>,
    /// Timeout of making a connection.
    pub connect_timeout: Option<u64>,
    /// Retries after the first attempt.
    pub retry_attempts: Option<u32>,
    /// Delay before the first retry.
    pub retry_delay: Option<u64>,
    /// Upper bound of the delays.
    pub max_retry_delay: Option<u64>,
    /// Growth of the delays, in hundredths.
    pub retry_multiplier_percent: Option<u32>,
    /// Requests allowed per period, and the period.
    pub rate_limit: Option<(u32, u64)>,
    /// User agent.
    pub user_agent: Option<String>,
    /// Connection pool settings.
    pub pool_settings: Option<PoolSettings>,
    /// Whether compressed responses are accepted.
    pub compression: Option<bool>,
    /// TCP keep-alive.
    pub keep_alive: Option<u64>,
    /// Most redirects followed.
    pub max_redirects: Option<u32>,
    /// Headers sent with each request.
    pub default_headers: Option<Vec<(String, String)>>,
    /// Whether TLS certificates are checked.
    pub tls_verification: Option<bool>,
}

/// Whether no header name is listed twice.
pub open spec fn header_names_unique(h: Seq<(String, String)>) -> bool {
    forall|i: int, j: int| 0 <= i < h.len() && 0 <= j < h.len() && i != j ==> (#[trigger] h[i]).0@ != (#[trigger] h[j]).0@
}

/// Whether a header with this name and value is in the list.
pub open spec fn has_header(h: Seq<(String, String)>, key: Seq<char>, value: Seq<char>) -> bool {
    exists|i: int| 0 <= i < h.len() && (#[trigger] h[i]).0@ == key && h[i].1@ == value
}

/// The value when set, else the default.
pub open spec fn or_default<T>(v: Option<T>, d: T) -> T {
    match v {
        Some(x) => x,
        None => d,
    }
}

impl Config {
    /// A builder with nothing set.
    pub fn builder() -> (r: ConfigBuilder)
        ensures
            r.base_url is None && r.timeout is None && r.connect_timeout is None && r.retry_attempts is None
                && r.retry_delay is None && r.max_retry_delay is None && r.retry_multiplier_percent is None
                && r.rate_limit is None && r.user_agent is None && r.pool_settings is None
                && r.compression is None && r.keep_alive is None && r.max_redirects is None
                && r.default_headers is None && r.tls_verification is None,
    {
        ConfigBuilder {
            base_url: None,
            timeout: None,
            connect_timeout: None,
            retry_attempts: None,
            retry_delay: None,
            max_retry_delay: None,
            retry_multiplier_percent: None,
            rate_limit: None,
            user_agent: None,
            pool_settings: None,
            compression: None,
            keep_alive: None,
            max_redirects: None,
            default_headers: None,
            tls_verification: None,
        }
    }
}

impl ConfigBuilder {
    /// Whether the settings that `build` makes are valid: an http or https
    /// address, and with the defaults filled in, a timeout above zero and at
    /// least the connect timeout, a multiplier above 1.0, and room for a
    /// connection per host.
    pub open spec fn spec_valid(&self) -> bool {
        &&& self.base_url matches Some(u) && (starts_with(u@, "http:"@) || starts_with(u@, "https:"@))
        &&& or_default(self.timeout, 30000u64) > 0
        &&& or_default(self.connect_timeout, 10000u64) <= or_default(self.timeout, 30000u64)
        &&& or_default(self.retry_multiplier_percent, 200u32) > 100
        &&& or_default(self.pool_settings, default_pool()).max_connections_per_host > 0
    }

    /// Sets the address; one that url cannot read leaves it unset.
    pub fn base_url(self, url: &str) -> (r: ConfigBuilder)
        ensures
            r.base_url.is_some() == url_parses(url@),
            r.base_url matches Some(u) ==> u@ == url_serialization(url@),
            r == (ConfigBuilder { base_url: r.base_url, ..self }),
    {
        ConfigBuilder { base_url: normalize_url(url), ..self }
    }

    /// Sets the request timeout.
    pub fn timeout(self, timeout: u64) -> (r: ConfigBuilder)
        ensures
            r == (ConfigBuilder { timeout: Some(timeout), ..self }),
    {
        ConfigBuilder { timeout: Some(timeout), ..self }
    }

    /// Sets the connect timeout.
    pub fn connect_timeout(self, timeout: u64) -> (r: ConfigBuilder)
        ensures
            r == (ConfigBuilder { connect_timeout: Some(timeout), ..self }),
    {
        ConfigBuilder { connect_timeout: Some(timeout), ..self }
    }

    /// Sets the number of retries.
    pub fn retry_attempts(self, attempts: u32) -> (r: ConfigBuilder)
        ensures
            r == (ConfigBuilder { retry_attempts: Some(attempts), ..self }),
    {
        ConfigBuilder { retry_attempts: Some(attempts), ..self }
    }

    /// Sets the first delay.
    pub fn retry_delay(self, delay: u64) -> (r: ConfigBuilder)
        ensures
            r == (ConfigBuilder { retry_delay: Some(delay), ..self }),
    {
        ConfigBuilder { retry_delay: Some(delay), ..self }
    }

    /// Sets the largest delay.
    pub fn max_retry_delay(self, delay: u64) -> (r: ConfigBuilder)
        ensures
            r == (ConfigBuilder { max_retry_delay: Some(delay), ..self }),
    {
        ConfigBuilder { max_retry_delay: Some(delay), ..self }
    }

    /// Sets the growth of the delays, in hundredths.
    pub fn retry_multiplier_percent(self, multiplier_percent: u32) -> (r: ConfigBuilder)
        ensures
            r == (ConfigBuilder { retry_multiplier_percent: Some(multiplier_percent), ..self }),
    {
        ConfigBuilder { retry_multiplier_percent: Some(multiplier_percent), ..self }
    }

    /// Sets the rate limit: `requests` per `per` milliseconds.
    pub fn rate_limit(self, requests: u32, per: u64) -> (r: ConfigBuilder)
        ensures
            r == (ConfigBuilder { rate_limit: Some((requests, per)), ..self }),
    {
        ConfigBuilder { rate_limit: Some((requests, per)), ..self }
    }

    /// Sets the user agent.
    pub fn user_agent(self, user_agent: &str) -> (r: ConfigBuilder)
        ensures
            r.user_agent matches Some(u) && u@ == user_agent@,
            r == (ConfigBuilder { user_agent: r.user_agent, ..self }),
    {
        ConfigBuilder { user_agent: Some(user_agent.to_owned()), ..self }
    }

    /// Sets the pool settings.
    pub fn pool_settings(self, settings: PoolSettings) -> (r: ConfigBuilder)
        ensures
            r == (ConfigBuilder { pool_settings: Some(settings), ..self }),
    {
        ConfigBuilder { pool_settings: Some(settings), ..self }
    }

    /// Switches compression.
    pub fn compression(self, enabled: bool) -> (r: ConfigBuilder)
        ensures
            r == (ConfigBuilder { compression: Some(enabled), ..self }),
    {
        ConfigBuilder { compression: Some(enabled), ..self }
    }

    /// Sets or clears the keep-alive.
    pub fn keep_alive(self, timeout: Option<u64>) -> (r: ConfigBuilder)
        ensures
            r == (ConfigBuilder { keep_alive: timeout, ..self }),
    {
        ConfigBuilder { keep_alive: timeout, ..self }
    }

    /// Sets the most redirects followed.
    pub fn max_redirects(self, redirects: u32) -> (r: ConfigBuilder)
        ensures
            r == (ConfigBuilder { max_redirects: Some(redirects), ..self }),
    {
        ConfigBuilder { max_redirects: Some(redirects), ..self }
    }

    /// Switches TLS certificate checks.
    pub fn tls_verification(self, enabled: bool) -> (r: ConfigBuilder)
        ensures
            r == (ConfigBuilder { tls_verification: Some(enabled), ..self }),
    {
        ConfigBuilder { tls_verification: Some(enabled), ..self }
    }

    /// Adds a default header, or replaces the value of one with that name.
    pub fn default_header(self, key: &str, value: &str) -> (r: ConfigBuilder)
        ensures
            r.base_url == self.base_url && r.timeout == self.timeout,
            r.default_headers matches Some(h) && has_header(h@, key@, value@),
            (self.default_headers matches Some(h) ==> header_names_unique(h@))
                ==> (r.default_headers matches Some(h) && header_names_unique(h@)),
    {
        let mut headers = match self.default_headers {
            Some(h) => h,
            None => Vec::new(),
        };
        let ghost unique_before = header_names_unique(headers@);
        let mut i: usize = 0;
        let mut found = false;
        while i < headers.len()
            invariant
                i <= headers@.len(),
                unique_before ==> header_names_unique(headers@),
                !found ==> forall|k: int| 0 <= k < i ==> (#[trigger] headers@[k]).0@ != key@,
                found ==> exists|k: int| 0 <= k < headers@.len()
                    && (#[trigger] headers@[k]).0@ == key@ && headers@[k].1@ == value@,
            decreases headers@.len() - i,
        {
            if !found && text_eq(headers[i].0.as_str(), key) {
                let name = headers[i].0.as_str().to_owned();
                let v = value.to_owned();
                let ghost before = headers@;
                headers.set(i, (name, v));
                assert(headers@[i as int].0@ == before[i as int].0@);
                assert(header_names_unique(before) ==> header_names_unique(headers@)) by {
                    if header_names_unique(before) {
                        assert forall|a: int, b: int| 0 <= a < headers@.len() && 0 <= b < headers@.len() && a != b
                            implies (#[trigger] headers@[a]).0@ != (#[trigger] headers@[b]).0@ by {
                            assert(headers@[a].0@ == before[a].0@);
                            assert(headers@[b].0@ == before[b].0@);
                            assert(before[a].0@ != before[b].0@);
                        }
                    }
                }
                found = true;
                assert(headers@[i as int].0@ == key@ && headers@[i as int].1@ == value@);
            }
            i = i + 1;
        }
        if !found {
            assert(forall|k: int| 0 <= k < headers@.len() ==> (#[trigger] headers@[k]).0@ != key@);
            let ghost before = headers@;
            let k = key.to_owned();
            let v = value.to_owned();
            headers.push((k, v));
            let ghost last = headers@.len() - 1;
            assert(headers@[last].0@ == key@ && headers@[last].1@ == value@);
            assert(header_names_unique(before) ==> header_names_unique(headers@)) by {
                if header_names_unique(before) {
                    assert forall|a: int, b: int| 0 <= a < headers@.len() && 0 <= b < headers@.len() && a != b
                        implies (#[trigger] headers@[a]).0@ != (#[trigger] headers@[b]).0@ by {
                        if a < before.len() && b < before.len() {
                            assert(headers@[a] == before[a]);
                            assert(headers@[b] == before[b]);
                            assert(before[a].0@ != before[b].0@);
                        } else if a < before.len() {
                            assert(headers@[a] == before[a]);
                        } else {
                            assert(headers@[b] == before[b]);
                        }
                    }
                }
            }
        }
        assert(has_header(headers@, key@, value@));
        ConfigBuilder { default_headers: Some(headers), ..self }
    }

    /// The settings, with the defaults for what was not set; a configuration
    /// error without an address, or when the settings are not valid.
    pub fn build(self) -> (r: Result<Config, Error>)
        ensures
            self.base_url is None ==> r matches Err(Error::Configuration { .. }),
            r is Ok <==> self.spec_valid(),
            r matches Ok(c) ==> c.spec_valid(),
            r matches Ok(c) ==> {
                &&& self.base_url == Some(c.base_url)
                &&& c.timeout == or_default(self.timeout, 30000u64)
                &&& c.connect_timeout == or_default(self.connect_timeout, 10000u64)
                &&& c.retry_attempts == or_default(self.retry_attempts, 3u32)
                &&& c.retry_delay == or_default(self.retry_delay, 1000u64)
                &&& c.max_retry_delay == or_default(self.max_retry_delay, 60000u64)
                &&& c.retry_multiplier_percent == or_default(self.retry_multiplier_percent, 200u32)
                &&& c.rate_limit == self.rate_limit
                &&& c.pool_settings == or_default(self.pool_settings, default_pool())
                &&& c.compression == or_default(self.compression, true)
                &&& c.keep_alive == match self.keep_alive { Some(k) => Some(k), None => Some(90000u64) }
                &&& c.max_redirects == or_default(self.max_redirects, 10u32)
                &&& c.tls_verification == or_default(self.tls_verification, true)
            },
    {
        let base_url = match self.base_url {
            Some(u) => u,
            None => {
                return Err(Error::config_with_hint(
                    "Base URL is required",
                    "Use .base_url(\"https://api.stateset.io\")",
                ));
            },
        };
        let d = Config::new();
        let config = Config {
            base_url,
            timeout: match self.timeout { Some(v) => v, None => d.timeout },
            connect_timeout: match self.connect_timeout { Some(v) => v, None => d.connect_timeout },
            retry_attempts: match self.retry_attempts { Some(v) => v, None => d.retry_attempts },
            retry_delay: match self.retry_delay { Some(v) => v, None => d.retry_delay },
            max_retry_delay: match self.max_retry_delay { Some(v) => v, None => d.max_retry_delay },
            retry_multiplier_percent: match self.retry_multiplier_percent { Some(v) => v, None => d.retry_multiplier_percent },
            rate_limit: match self.rate_limit { Some(v) => Some(v), None => d.rate_limit },
            user_agent: match self.user_agent { Some(v) => v, None => d.user_agent },
            pool_settings: match self.pool_settings { Some(v) => v, None => d.pool_settings },
            compression: match self.compression { Some(v) => v, None => d.compression },
            keep_alive: match self.keep_alive { Some(v) => Some(v), None => d.keep_alive },
            max_redirects: match self.max_redirects { Some(v) => v, None => d.max_redirects },
            default_headers: match self.default_headers { Some(v) => v, None => d.default_headers },
            tls_verification: match self.tls_verification { Some(v) => v, None => d.tls_verification },
        };
        match config.validate() {
            Ok(()) => Ok(config),
            Err(e) => Err(e),
        }
    }
}

} // verus!
