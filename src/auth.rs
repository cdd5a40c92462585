//! Credentials and the settings of the OAuth2 and token clients.
use vstd::prelude::*;
use crate::error::Error;
use base64::Engine;

verus! {

/// How the client authenticates.
#[derive(Debug, Clone)]
pub enum Credentials {
    /// A bearer token.
    Bearer(String),
    /// An API key.
    ApiKey(String),
    /// OAuth2 client credentials, which need a token exchange first.
    OAuth2 { client_id: String, client_secret: String, redirect_uri: Option<String> },
}

impl Credentials {
    /// Bearer token credentials.
    pub fn bearer(token: &str) -> (r: Credentials)
        ensures
            r matches Credentials::Bearer(t) && t@ == token@,
    {
        Credentials::Bearer(token.to_owned())
    }

    /// API key credentials.
    pub fn api_key(key: &str) -> (r: Credentials)
        ensures
            r matches Credentials::ApiKey(k) && k@ == key@,
    {
        Credentials::ApiKey(key.to_owned())
    }

    /// OAuth2 credentials without a redirect URI.
    pub fn oauth2(client_id: &str, client_secret: &str) -> (r: Credentials)
        ensures
            r matches Credentials::OAuth2 { client_id: i, client_secret: s, redirect_uri: None }
                && i@ == client_id@ && s@ == client_secret@,
    {
        Credentials::OAuth2 {
            client_id: client_id.to_owned(),
            client_secret: client_secret.to_owned(),
            redirect_uri: None,
        }
    }

    /// Whether these are OAuth2 credentials.
    pub open spec fn spec_is_oauth2(&self) -> bool {
        self is OAuth2
    }

    /// The value of the `Authorization` header: `Bearer <token>` or
    /// `ApiKey <key>`. OAuth2 credentials have none before a token exchange.
    pub fn authorization_header(&self) -> (r: String)
        requires
            !self.spec_is_oauth2(),
        ensures
            match self {
                Credentials::Bearer(t) => r@ == "Bearer "@ + t@,
                Credentials::ApiKey(k) => r@ == "ApiKey "@ + k@,
                Credentials::OAuth2 { .. } => false,
            },
    {
        match self {
            Credentials::Bearer(t) => "Bearer ".to_owned().concat(t.as_str()),
            Credentials::ApiKey(k) => "ApiKey ".to_owned().concat(k.as_str()),
            Credentials::OAuth2 { .. } => {
                proof {
                    assert(false);
                }
                String::new()
            },
        }
    }

    /// Whether these are OAuth2 credentials.
    pub fn is_oauth2(&self) -> (r: bool)
        ensures
            r == self.spec_is_oauth2(),
    {
        match self {
            Credentials::OAuth2 { .. } => true,
            _ => false,
        }
    }
}

/// The answer of an OAuth2 token endpoint.
#[derive(Debug, Clone)]
pub struct TokenResponse {
    /// The access token.
    pub access_token: String,
    /// The kind of token, usually `Bearer`.
    pub token_type: String,
    /// Lifetime in seconds.
    pub expires_in: Option<u64>,
    /// Token to get a new access token with.
    pub refresh_token: Option<String>,
    /// Granted scopes.
    pub scope: Option<String>,
}

/// The settings of an OAuth2 authorization-code client.
#[derive(Debug, Clone)]
pub struct OAuth2Client {
    /// Client identifier.
    pub client_id: String,
    /// Client secret.
    pub client_secret: String,
    /// Authorization endpoint.
    pub auth_url: String,
    /// Token endpoint.
    pub token_url: String,
    /// Where the authorization server sends the user back.
    pub redirect_uri: Option<String>,
}

impl OAuth2Client {
    /// A client without a redirect URI.
    pub fn new(client_id: &str, client_secret: &str, auth_url: &str, token_url: &str) -> (r: OAuth2Client)
        ensures
            r.client_id@ == client_id@,
            r.client_secret@ == client_secret@,
            r.auth_url@ == auth_url@,
            r.token_url@ == token_url@,
            r.redirect_uri is None,
    {
        OAuth2Client {
            client_id: client_id.to_owned(),
            client_secret: client_secret.to_owned(),
            auth_url: auth_url.to_owned(),
            token_url: token_url.to_owned(),
            redirect_uri: None,
        }
    }

    /// Sets the redirect URI.
    pub fn with_redirect_uri(self, uri: &str) -> (r: OAuth2Client)
        ensures
            r.redirect_uri matches Some(u) && u@ == uri@,
            r == (OAuth2Client { redirect_uri: r.redirect_uri, ..self }),
    {
        OAuth2Client { redirect_uri: Some(uri.to_owned()), ..self }
    }
}

/// The claims of a signed token.
#[derive(Debug)]
pub struct Claims {
    /// Subject.
    pub sub: String,
    /// Expiry, in Unix seconds.
    pub exp: Option<u64>,
    /// Issue time, in Unix seconds.
    pub iat: Option<u64>,
    /// Issuer.
    pub iss: Option<String>,
    /// Audience.
    pub aud: Option<String>,
    /// Every other claim.
    pub custom: serde_json::Value,
}

/// The bytes that base64's URL-safe alphabet without padding decodes from a
/// text, or `None` where the text is not such base64.
pub uninterp spec fn base64url_decoded(s: Seq<char>) -> Option<Seq<u8>>;

/// Relies on base64's `URL_SAFE_NO_PAD` engine and its `decode`: the decoded
/// bytes, or `None` on a decode error; the result depends on the text alone.
#[verifier::external_body]
fn decode_base64url(s: &str) -> (r: Option<Vec<u8>>)
    ensures
        match r {
            Some(b) => base64url_decoded(s@) == Some(b@),
            None => base64url_decoded(s@) is None,
        },
{
    base64::engine::general_purpose::URL_SAFE_NO_PAD.decode(s).ok()
}

/// Whether a token has dots at positions `i` and `j` and nowhere else.
pub open spec fn token_shape(s: Seq<char>, i: int, j: int) -> bool {
    &&& 0 <= i < j < s.len()
    &&& s[i] == '.' && s[j] == '.'
    &&& forall|k: int| 0 <= k < s.len() && k != i && k != j ==> #[trigger] s[k] != '.'
}

/// The key that signed tokens are checked with.
#[derive(Debug, Clone)]
pub struct TokenValidator {
    /// A shared secret.
    pub secret: Option<String>,
    /// A public key.
    pub public_key: Option<String>,
}

impl TokenValidator {
    /// Checks tokens with a shared secret.
    pub fn with_secret(secret: &str) -> (r: TokenValidator)
        ensures
            r.secret matches Some(s) && s@ == secret@,
            r.public_key is None,
    {
        TokenValidator { secret: Some(secret.to_owned()), public_key: None }
    }

    /// Checks tokens with a public key.
    pub fn with_public_key(key: &str) -> (r: TokenValidator)
        ensures
            r.public_key matches Some(k) && k@ == key@,
            r.secret is None,
    {
        TokenValidator { secret: None, public_key: Some(key.to_owned()) }
    }

    /// The payload segment of a token of three dot-separated segments (the
    /// text between its two dots), or an authentication error for any other
    /// shape.
    pub fn payload_segment(token: &str) -> (r: Result<String, Error>)
        ensures
            match r {
                Ok(p) => exists|i: int, j: int| token_shape(token@, i, j) && p@ == token@.subrange(i + 1, j),
                Err(e) => (forall|i: int, j: int| !token_shape(token@, i, j))
                    && (e matches Error::Authentication { message } && message@ == "Invalid token format"@),
            },
    {
        let n = token.unicode_len();
        let mut first: Option<usize> = None;
        let mut second: Option<usize> = None;
        let mut k: usize = 0;
        while k < n
            invariant
                k <= n,
                n == token@.len(),
                match first {
                    None => second is None && forall|x: int| 0 <= x < k ==> token@[x] != '.',
                    Some(a) => a < k && token@[a as int] == '.' && (forall|x: int| 0 <= x < a ==> token@[x] != '.')
                        && match second {
                            None => forall|x: int| a < x < k ==> token@[x] != '.',
                            Some(b) => a < b < k && token@[b as int] == '.'
                                && forall|x: int| a < x < k && x != b ==> token@[x] != '.',
                        },
                },
            decreases n - k,
        {
            if token.get_char(k) == '.' {
                match (first, second) {
                    (None, _) => { first = Some(k); },
                    (Some(_), None) => { second = Some(k); },
                    (Some(a), Some(b)) => {
                        proof {
                            assert forall|i: int, j: int| !token_shape(token@, i, j) by {
                                if token_shape(token@, i, j) {
                                    assert(token@[a as int] == '.' && token@[b as int] == '.' && token@[k as int] == '.');
                                }
                            }
                        }
                        return Err(Error::auth("Invalid token format"));
                    },
                }
            }
            k = k + 1;
        }
        match (first, second) {
            (Some(a), Some(b)) => {
                assert(token_shape(token@, a as int, b as int));
                let p = token.substring_char(a + 1, b).to_owned();
                Ok(p)
            },
            _ => {
                proof {
                    assert forall|i: int, j: int| !token_shape(token@, i, j) by {
                        if token_shape(token@, i, j) {
                            assert(token@[i] == '.' && token@[j] == '.');
                        }
                    }
                }
                Err(Error::auth("Invalid token format"))
            },
        }
    }

    /// The decoded payload of a token: its middle segment read as URL-safe
    /// base64 without padding; an authentication error for a token of another
    /// shape or a payload that does not decode.
    pub fn decode_payload(token: &str) -> (r: Result<Vec<u8>, Error>)
        ensures
            match r {
                Ok(b) => exists|i: int, j: int| token_shape(token@, i, j)
                    && base64url_decoded(token@.subrange(i + 1, j)) == Some(b@),
                Err(e) => e is Authentication,
            },
            (exists|i: int, j: int| token_shape(token@, i, j)
                && base64url_decoded(token@.subrange(i + 1, j)) is Some) ==> r is Ok,
    {
        let segment = match TokenValidator::payload_segment(token) {
            Ok(p) => p,
            Err(e) => return Err(e),
        };
        proof {
            assert forall|i: int, j: int| token_shape(token@, i, j) implies token@.subrange(i + 1, j) == segment@ by {
                let (a, b) = choose|a: int, b: int| token_shape(token@, a, b) && segment@ == token@.subrange(a + 1, b);
                if i != a {
                    assert(token@[a] == '.');
                }
                if j != b {
                    assert(token@[b] == '.');
                }
            }
        }
        match decode_base64url(segment.as_str()) {
            Some(b) => Ok(b),
            None => Err(Error::auth("Failed to decode token payload")),
        }
    }

    /// Checks the expiry of claims at `now` (Unix seconds): an authentication
    /// error once `now` is past the expiry, else success.
    pub fn check_expiry(exp: Option<u64>, now: u64) -> (r: Result<(), Error>)
        ensures
            match exp {
                Some(e) if now > e => r matches Err(Error::Authentication { message })
                    && message@ == "Token has expired"@,
                _ => r is Ok,
            },
    {
        match exp {
            Some(e) => {
                if now > e {
                    return Err(Error::auth("Token has expired"));
                }
                Ok(())
            },
            None => Ok(()),
        }
    }
}

} // verus!
