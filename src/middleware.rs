//! Settings of the request and response hooks: what is logged, and which
//! header and field names are redacted from logs.
use vstd::prelude::*;
use crate::text::{to_lower, text_eq, contains_text, contains_seq, lower_of};

verus! {

/// Largest body, in bytes, that is logged by default.
pub const DEFAULT_MAX_BODY_SIZE: usize = 8192;

/// The header names, in lower case, whose values are never logged.
pub open spec fn sensitive_header_names() -> Seq<Seq<char>> {
    seq!["authorization"@, "cookie"@, "set-cookie"@, "x-api-key"@, "x-auth-token"@]
}

/// The field names whose values are redacted from logged bodies by default.
pub open spec fn default_sensitive_fields() -> Seq<Seq<char>> {
    seq!["password"@, "token"@, "api_key"@, "secret"@, "authorization"@, "credit_card"@, "ssn"@]
}

/// Whether a header's value must not be logged: its name, in lower case, is
/// one of the sensitive header names.
pub fn is_sensitive_header(name: &str) -> (r: bool)
    ensures
        r == sensitive_header_names().contains(lower_of(name@)),
{
    let lower = to_lower(name);
    let l = lower.as_str();
    let r = text_eq(l, "authorization") || text_eq(l, "cookie") || text_eq(l, "set-cookie")
        || text_eq(l, "x-api-key") || text_eq(l, "x-auth-token");
    proof {
        let names = sensitive_header_names();
        if r {
            assert(names.contains(lower_of(name@))) by {
                if l@ == "authorization"@ { assert(names[0] == l@); }
                else if l@ == "cookie"@ { assert(names[1] == l@); }
                else if l@ == "set-cookie"@ { assert(names[2] == l@); }
                else if l@ == "x-api-key"@ { assert(names[3] == l@); }
                else { assert(names[4] == l@); }
            }
        }
    }
    r
}

/// What the logging hooks write.
#[derive(Debug)]
pub struct LoggingMiddleware {
    /// Log each request line and its headers.
    pub log_requests: bool,
    /// Log each response status.
    pub log_responses: bool,
    /// Log request bodies.
    pub log_request_bodies: bool,
    /// Log response bodies.
    pub log_response_bodies: bool,
    /// Largest body logged, in bytes.
    pub max_body_size: usize,
    /// Field names redacted from logged bodies, without repeats.
    pub sensitive_fields: Vec<String>,
}

/// The texts of a list of strings.
pub open spec fn texts(v: Seq<String>) -> Seq<Seq<char>> {
    v.map_values(|s: String| s@)
}

impl LoggingMiddleware {
    /// The settings with the given switches and the default body size and
    /// sensitive fields.
    pub open spec fn has_defaults_with(self, req: bool, resp: bool, req_bodies: bool, resp_bodies: bool) -> bool {
        &&& self.log_requests == req
        &&& self.log_responses == resp
        &&& self.log_request_bodies == req_bodies
        &&& self.log_response_bodies == resp_bodies
        &&& self.max_body_size == DEFAULT_MAX_BODY_SIZE
        &&& texts(self.sensitive_fields@) == default_sensitive_fields()
        &&& self.wf()
    }

    /// No sensitive field name is listed twice.
    pub open spec fn wf(self) -> bool {
        texts(self.sensitive_fields@).no_duplicates()
    }

    /// Whether a field name is sensitive: some sensitive name, in lower case,
    /// occurs in the field name in lower case.
    pub open spec fn spec_is_sensitive_field(self, field: Seq<char>) -> bool {
        exists|i: int| 0 <= i < self.sensitive_fields@.len()
            && contains_seq(lower_of(field), lower_of(#[trigger] self.sensitive_fields@[i]@))
    }

    /// Nothing logged; the default body size and sensitive fields.
    pub fn new() -> (r: LoggingMiddleware)
        ensures
            r.has_defaults_with(false, false, false, false),
    {
        let mut fields: Vec<String> = Vec::new();
        fields.push("password".to_owned());
        fields.push("token".to_owned());
        fields.push("api_key".to_owned());
        fields.push("secret".to_owned());
        fields.push("authorization".to_owned());
        fields.push("credit_card".to_owned());
        fields.push("ssn".to_owned());
        let r = LoggingMiddleware {
            log_requests: false,
            log_responses: false,
            log_request_bodies: false,
            log_response_bodies: false,
            max_body_size: DEFAULT_MAX_BODY_SIZE,
            sensitive_fields: fields,
        };
        assert(texts(r.sensitive_fields@) =~= default_sensitive_fields());
        proof {
            reveal_strlit("password");
            reveal_strlit("token");
            reveal_strlit("api_key");
            reveal_strlit("secret");
            reveal_strlit("authorization");
            reveal_strlit("credit_card");
            reveal_strlit("ssn");
            let d = default_sensitive_fields();
            assert forall|i: int, j: int| 0 <= i < d.len() && 0 <= j < d.len() && i != j implies d[i] != d[j] by {
                assert(d[i].len() != d[j].len() || d[i][0] != d[j][0] || d[i][1] != d[j][1]);
            }
        }
        r
    }

    /// Everything logged, bodies included.
    pub fn all() -> (r: LoggingMiddleware)
        ensures
            r.has_defaults_with(true, true, true, true),
    {
        LoggingMiddleware {
            log_requests: true,
            log_responses: true,
            log_request_bodies: true,
            log_response_bodies: true,
            ..LoggingMiddleware::new()
        }
    }

    /// Requests and responses logged, bodies not.
    pub fn basic() -> (r: LoggingMiddleware)
        ensures
            r.has_defaults_with(true, true, false, false),
    {
        LoggingMiddleware { log_requests: true, log_responses: true, ..LoggingMiddleware::new() }
    }

    /// Switches request logging.
    pub fn requests(self, enabled: bool) -> (r: LoggingMiddleware)
        ensures
            r == (LoggingMiddleware { log_requests: enabled, ..self }),
    {
        LoggingMiddleware { log_requests: enabled, ..self }
    }

    /// Switches response logging.
    pub fn responses(self, enabled: bool) -> (r: LoggingMiddleware)
        ensures
            r == (LoggingMiddleware { log_responses: enabled, ..self }),
    {
        LoggingMiddleware { log_responses: enabled, ..self }
    }

    /// Switches request body logging.
    pub fn request_bodies(self, enabled: bool) -> (r: LoggingMiddleware)
        ensures
            r == (LoggingMiddleware { log_request_bodies: enabled, ..self }),
    {
        LoggingMiddleware { log_request_bodies: enabled, ..self }
    }

    /// Switches response body logging.
    pub fn response_bodies(self, enabled: bool) -> (r: LoggingMiddleware)
        ensures
            r == (LoggingMiddleware { log_response_bodies: enabled, ..self }),
    {
        LoggingMiddleware { log_response_bodies: enabled, ..self }
    }

    /// Sets the largest body logged.
    pub fn max_body_size(self, size: usize) -> (r: LoggingMiddleware)
        ensures
            r == (LoggingMiddleware { max_body_size: size, ..self }),
    {
        LoggingMiddleware { max_body_size: size, ..self }
    }

    /// Adds a field name to redact, unless it is already there.
    pub fn add_sensitive_field(self, field: &str) -> (r: LoggingMiddleware)
        ensures
            r.log_requests == self.log_requests,
            r.log_responses == self.log_responses,
            r.log_request_bodies == self.log_request_bodies,
            r.log_response_bodies == self.log_response_bodies,
            r.max_body_size == self.max_body_size,
            self.wf() ==> r.wf(),
            texts(r.sensitive_fields@) == if texts(self.sensitive_fields@).contains(field@) {
                texts(self.sensitive_fields@)
            } else {
                texts(self.sensitive_fields@).push(field@)
            },
    {
        let mut m = self;
        let mut i: usize = 0;
        let mut found = false;
        while i < m.sensitive_fields.len()
            invariant
                i <= m.sensitive_fields@.len(),
                m == self,
                found == exists|k: int| 0 <= k < i && (#[trigger] m.sensitive_fields@[k])@ == field@,
            decreases m.sensitive_fields@.len() - i,
        {
            if text_eq(m.sensitive_fields[i].as_str(), field) {
                found = true;
            }
            i = i + 1;
        }
        let ghost before = texts(m.sensitive_fields@);
        if !found {
            m.sensitive_fields.push(field.to_owned());
            assert(texts(m.sensitive_fields@) =~= before.push(field@));
        }
        proof {
            if before.contains(field@) {
                let k = choose|k: int| 0 <= k < before.len() && before[k] == field@;
                assert(before[k] == self.sensitive_fields@[k]@);
            }
            if found {
                let k = choose|k: int| 0 <= k < self.sensitive_fields@.len() && (#[trigger] self.sensitive_fields@[k])@ == field@;
                assert(before[k] == field@);
            }
        }
        m
    }

    /// Whether a field name is sensitive: some sensitive name, in lower case,
    /// occurs in the field name in lower case.
    pub fn is_sensitive_field(&self, field_name: &str) -> (r: bool)
        ensures
            r == self.spec_is_sensitive_field(field_name@),
    {
        let lower = to_lower(field_name);
        let mut i: usize = 0;
        while i < self.sensitive_fields.len()
            invariant
                i <= self.sensitive_fields@.len(),
                lower@ == lower_of(field_name@),
                forall|k: int| 0 <= k < i ==> !contains_seq(lower_of(field_name@), lower_of(#[trigger] self.sensitive_fields@[k]@)),
            decreases self.sensitive_fields@.len() - i,
        {
            let s = to_lower(self.sensitive_fields[i].as_str());
            if contains_text(lower.as_str(), s.as_str()) {
                return true;
            }
            i = i + 1;
        }
        false
    }
}

impl Default for LoggingMiddleware {
    fn default() -> (r: LoggingMiddleware)
        ensures
            r.has_defaults_with(false, false, false, false),
    {
        LoggingMiddleware::new()
    }
}

/// Hook that reports the status and duration of each response.
#[derive(Debug, Default, Clone, Copy)]
pub struct MetricsMiddleware {}

impl MetricsMiddleware {
    /// The metrics hook.
    pub fn new() -> (r: MetricsMiddleware)
        ensures
            r == (MetricsMiddleware {}),
    {
        MetricsMiddleware {}
    }

    /// Whether a response status is counted as an error: 400 and above.
    pub fn is_error_status(status: u16) -> (r: bool)
        ensures
            r == (status >= 400),
    {
        status >= 400
    }
}

/// Hook that names the client in the `User-Agent` header.
#[derive(Debug)]
pub struct UserAgentMiddleware {
    /// The user agent text.
    pub user_agent: String,
}

impl UserAgentMiddleware {
    /// The hook with the given user agent.
    pub fn new(user_agent: &str) -> (r: UserAgentMiddleware)
        ensures
            r.user_agent@ == user_agent@,
    {
        UserAgentMiddleware { user_agent: user_agent.to_owned() }
    }
}

} // verus!
