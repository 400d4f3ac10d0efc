use base64::engine::general_purpose::URL_SAFE_NO_PAD;
use base64::Engine as _;
use qrmi::pasqal_cloud_api::{Client, TokenError};
use serde_json::Value;
use std::time::{SystemTime, UNIX_EPOCH};

fn now_unix_seconds() -> i64 {
    SystemTime::now()
        .duration_since(UNIX_EPOCH)
        .expect("time should be after UNIX_EPOCH")
        .as_secs() as i64
}

fn object(members: Vec<(&str, Value)>) -> Value {
    let mut map = serde_json::Map::new();
    for (key, value) in members {
        map.insert(key.to_string(), value);
    }
    Value::Object(map)
}

fn text(s: &str) -> Value {
    Value::String(s.to_string())
}

fn make_jwt(payload: Value) -> String {
    let header = object(vec![("alg", text("none")), ("typ", text("JWT"))]);
    let header = URL_SAFE_NO_PAD.encode(header.to_string().as_bytes());
    let payload = URL_SAFE_NO_PAD.encode(payload.to_string().as_bytes());
    format!("{header}.{payload}.sig")
}

#[test]
fn jwt_expiry_valid_token_with_exp() {
    let exp = now_unix_seconds() + 3600;
    let token = make_jwt(object(vec![("sub", text("test")), ("exp", Value::from(exp))]));
    assert_eq!(
        Client::jwt_expiry_unix_seconds(&token).unwrap(),
        Some(exp)
    );
}

#[test]
fn jwt_expiry_token_without_exp() {
    let token = make_jwt(object(vec![("sub", text("test"))]));
    assert_eq!(Client::jwt_expiry_unix_seconds(&token).unwrap(), None);
}

#[test]
fn jwt_expiry_non_jwt_token() {
    // A token that is not made of three segments is malformed.
    assert_eq!(
        Client::jwt_expiry_unix_seconds("opaque_token"),
        Err(TokenError::NotThreeSegments)
    );
    // It is still a credential: none of its expiry is known.
    assert_eq!(Client::recorded_expiry("opaque_token"), Ok(None));
}

#[test]
fn jwt_expiry_malformed_token() {
    let err = Client::jwt_expiry_unix_seconds("a.@@@.c");
    assert!(err.is_err());
}

#[test]
fn jwt_expiry_past_and_future() {
    let now = now_unix_seconds();
    let past = now - 60;
    let future = now + 60;
    let past_token = make_jwt(object(vec![("exp", Value::from(past))]));
    let future_token = make_jwt(object(vec![("exp", Value::from(future))]));
    assert_eq!(
        Client::jwt_expiry_unix_seconds(&past_token).unwrap(),
        Some(past)
    );
    assert_eq!(
        Client::jwt_expiry_unix_seconds(&future_token).unwrap(),
        Some(future)
    );
}

#[test]
fn auth_token_usable_empty_token() {
    let now = now_unix_seconds();
    assert!(!Client::is_auth_token_usable("", now));
}

#[test]
fn auth_token_usable_without_expiry() {
    let now = now_unix_seconds();
    assert!(Client::is_auth_token_usable("opaque_token", now));
}

#[test]
fn auth_token_usable_with_expiry() {
    let now = now_unix_seconds();
    let past_token = make_jwt(object(vec![("exp", Value::from(now - 60))]));
    let future_token = make_jwt(object(vec![("exp", Value::from(now + 60))]));
    assert!(Client::is_auth_token_usable(&future_token, now));
    assert!(!Client::is_auth_token_usable(&past_token, now));
}

#[test]
fn auth_token_usable_malformed_jwt() {
    let now = now_unix_seconds();
    assert!(!Client::is_auth_token_usable("a.@@@.c", now));
}

#[test]
fn jwt_expiry_reads_numeric_string_claim() {
    let token = make_jwt(object(vec![("exp", text("1700000000"))]));
    assert_eq!(
        Client::jwt_expiry_unix_seconds(&token),
        Ok(Some(1_700_000_000))
    );
    let negative = make_jwt(object(vec![("exp", text("-5"))]));
    assert_eq!(Client::jwt_expiry_unix_seconds(&negative), Ok(Some(-5)));
}

#[test]
fn jwt_expiry_reports_each_error() {
    assert_eq!(
        Client::jwt_expiry_unix_seconds("a.b"),
        Err(TokenError::NotThreeSegments)
    );
    assert_eq!(
        Client::jwt_expiry_unix_seconds("a.@@@.c"),
        Err(TokenError::InvalidBase64)
    );
    let not_json = format!("h.{}.s", URL_SAFE_NO_PAD.encode(b"not json"));
    assert_eq!(
        Client::jwt_expiry_unix_seconds(&not_json),
        Err(TokenError::InvalidJson)
    );
    let bad_exp = make_jwt(object(vec![("exp", text("soon"))]));
    assert_eq!(
        Client::jwt_expiry_unix_seconds(&bad_exp),
        Err(TokenError::InvalidExpiry)
    );
}

#[test]
fn jwt_expiry_refuses_tokens_without_three_segments() {
    let claims = URL_SAFE_NO_PAD.encode(b"{\"exp\":7}");
    let four = format!("h.{claims}.s.extra");
    for token in ["", "   ", "a", "a.b", ".b.c", "a..c", "a.", ".", "..", four.as_str()] {
        assert_eq!(
            Client::jwt_expiry_unix_seconds(token),
            Err(TokenError::NotThreeSegments),
            "{token:?}"
        );
        assert_eq!(Client::recorded_expiry(token), Ok(None), "{token:?}");
        // usable unless blank: its expiry cannot be known
        assert_eq!(
            Client::is_auth_token_usable(token, 0),
            !token.trim().is_empty(),
            "{token:?}"
        );
    }
    assert_eq!(
        Client::jwt_expiry_unix_seconds(&format!("  h.{claims}.  ")),
        Ok(Some(7))
    );
    assert_eq!(
        Client::jwt_expiry_unix_seconds(&format!("h.{claims}.sig")),
        Ok(Some(7))
    );
    assert_eq!(
        Client::recorded_expiry("a.@@@.c"),
        Err(TokenError::InvalidBase64)
    );
}

#[test]
fn jwt_expiry_of_other_claim_kinds_is_none() {
    for claims in ["{\"exp\":1.5}", "{\"exp\":null}", "{\"exp\":18446744073709551615}", "[1]", "7"] {
        let token = format!("h.{}.s", URL_SAFE_NO_PAD.encode(claims.as_bytes()));
        assert_eq!(Client::jwt_expiry_unix_seconds(&token), Ok(None), "{claims}");
    }
}

#[test]
fn auth_token_usable_respects_grace_period() {
    let token_at = |exp: i64| make_jwt(object(vec![("exp", Value::from(exp))]));
    assert!(!Client::is_auth_token_usable(&token_at(1010), 1000));
    assert!(Client::is_auth_token_usable(&token_at(1011), 1000));
    assert!(!Client::is_auth_token_usable(&token_at(i64::MAX), i64::MAX));
    assert!(Client::is_auth_token_usable(&token_at(i64::MIN + 11), i64::MIN));
}
