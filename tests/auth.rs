use stateset_core::auth::{Credentials, OAuth2Client, TokenValidator};
use stateset_core::realtime::{Channel, RealtimeBuilder};

#[test]
fn test_credentials() {
    let bearer = Credentials::bearer("test-token");
    assert_eq!(bearer.authorization_header(), "Bearer test-token");

    let api_key = Credentials::api_key("test-key");
    assert_eq!(api_key.authorization_header(), "ApiKey test-key");
}

#[test]
fn oauth2_settings() {
    let creds = Credentials::oauth2("id", "secret");
    assert!(creds.is_oauth2());
    assert!(!Credentials::bearer("t").is_oauth2());
    let client = OAuth2Client::new("client_id", "client_secret", "https://auth.example.com/authorize", "https://auth.example.com/token")
        .with_redirect_uri("https://app.example.com/callback");
    assert_eq!(client.client_id, "client_id");
    assert_eq!(client.redirect_uri, Some("https://app.example.com/callback".to_string()));
    let v = TokenValidator::with_secret("s");
    assert_eq!(v.secret, Some("s".to_string()));
    assert!(TokenValidator::with_public_key("k").secret.is_none());
}

#[test]
fn realtime_settings() {
    let b = RealtimeBuilder::new("wss://x").auth_token("tok");
    assert_eq!(b.url, "wss://x");
    assert_eq!(b.auth_token, Some("tok".to_string()));
    assert_eq!(Channel::Orders.name(), "orders");
    assert_eq!(Channel::All.name(), "all");
}

use stateset_core::error::Error;

#[test]
fn token_payload_segment() {
    assert_eq!(TokenValidator::payload_segment("aa.bbb.c").unwrap(), "bbb");
    assert_eq!(TokenValidator::payload_segment("..").unwrap(), "");
    for bad in ["abc", "a.b", "a.b.c.d", ""] {
        match TokenValidator::payload_segment(bad) {
            Err(Error::Authentication { message }) => assert_eq!(message, "Invalid token format"),
            other => panic!("unexpected {:?}", other),
        }
    }
}

#[test]
fn token_payload_decoding() {
    // {"sub":"u1"} in URL-safe base64 without padding
    assert_eq!(TokenValidator::decode_payload("h.eyJzdWIiOiJ1MSJ9.s").unwrap(), br#"{"sub":"u1"}"#.to_vec());
    match TokenValidator::decode_payload("h.not*base64.s") {
        Err(Error::Authentication { message }) => assert_eq!(message, "Failed to decode token payload"),
        other => panic!("unexpected {:?}", other),
    }
    assert!(TokenValidator::decode_payload("only.two").is_err());
}

#[test]
fn token_expiry() {
    assert!(TokenValidator::check_expiry(None, 5).is_ok());
    assert!(TokenValidator::check_expiry(Some(5), 5).is_ok());
    assert!(matches!(TokenValidator::check_expiry(Some(5), 6), Err(Error::Authentication { .. })));
}
