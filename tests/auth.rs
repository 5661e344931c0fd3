use rust_emr::auth::{check_claims, finish_login, Gateway, TOKEN_VALIDITY_SECS};
use rust_emr::error::ApiError;

const KEY: &[u8] = b"test-signing-key";

fn gateway() -> Gateway {
    Gateway::new("demo@rustemr.com".to_string(), "password123".to_string(), KEY.to_vec())
}

fn decode_claims(token: &str) -> serde_json::Value {
    let key = jsonwebtoken::DecodingKey::from_secret(KEY);
    let data = jsonwebtoken::decode::<serde_json::Value>(token, &key, &jsonwebtoken::Validation::default())
        .unwrap();
    data.claims
}

#[test]
fn demo_login_token_expires_a_day_after_issue() {
    let before = chrono::Utc::now().timestamp();
    let resp = gateway()
        .login_at(&"demo@rustemr.com".to_string(), &"password123".to_string(), chrono::Utc::now().timestamp())
        .unwrap();
    let after = chrono::Utc::now().timestamp();
    assert_eq!(resp.user.email, "demo@rustemr.com");
    assert_eq!(resp.expires_at - resp.issued_at, 86400);
    assert!(before <= resp.issued_at && resp.issued_at <= after);
    let claims = decode_claims(&resp.token);
    assert_eq!(claims["exp"].as_i64(), Some(resp.expires_at));
    assert_eq!(claims["email"].as_str(), Some("demo@rustemr.com"));
}

#[test]
fn wrong_password_is_unauthorized() {
    let r = gateway().login_at(&"demo@rustemr.com".to_string(), &"password124".to_string(), 1000);
    let e = r.unwrap_err();
    assert_eq!(e, ApiError::Unauthorized);
    assert_eq!(e.status_code(), 401);
    let r = gateway().login_at(&"demo@rustemr.com".to_string(), &String::new(), 1000);
    assert_eq!(r.unwrap_err(), ApiError::Unauthorized);
}

#[test]
fn wrong_email_is_unauthorized_the_same_way() {
    let r = gateway().login_at(&"other@rustemr.com".to_string(), &"password123".to_string(), 1000);
    assert_eq!(r.unwrap_err(), ApiError::Unauthorized);
}

#[test]
fn login_at_fixed_time_is_exact() {
    let now = 4_000_000_000_i64;
    let resp = gateway()
        .login_at(&"demo@rustemr.com".to_string(), &"password123".to_string(), now)
        .unwrap();
    assert_eq!(resp.issued_at, now);
    assert_eq!(resp.expires_at, now + TOKEN_VALIDITY_SECS);
    let claims = decode_claims(&resp.token);
    assert_eq!(claims["exp"].as_i64(), Some(now + 86400));
    assert_eq!(resp.token.split('.').count(), 3);
    let again = gateway()
        .login_at(&"demo@rustemr.com".to_string(), &"password123".to_string(), now)
        .unwrap();
    assert_eq!(again.token, resp.token);
}

#[test]
fn clock_beyond_representable_expiry_is_reported() {
    let r = gateway().login_at(&"demo@rustemr.com".to_string(), &"password123".to_string(), i64::MAX - 86399);
    assert_eq!(r.unwrap_err(), ApiError::ClockOutOfRange);
    let r = gateway().login_at(&"demo@rustemr.com".to_string(), &"password123".to_string(), i64::MAX - 86400);
    assert!(r.is_ok());
}

#[test]
fn signing_failure_is_reported() {
    let err = jsonwebtoken::errors::Error::from(jsonwebtoken::errors::ErrorKind::InvalidAlgorithm);
    let r = finish_login(&"demo@rustemr.com".to_string(), 10, Err(err));
    assert_eq!(r.unwrap_err(), ApiError::SigningFailed);
    let r = finish_login(&"demo@rustemr.com".to_string(), 10, Ok("a.b.c".to_string())).unwrap();
    assert_eq!(r.token, "a.b.c");
    assert_eq!(r.expires_at, 86410);
}

#[test]
fn issued_token_verifies_until_expiry() {
    let g = gateway();
    let now = 1_700_000_000_i64;
    let resp = g.login_at(&"demo@rustemr.com".to_string(), &"password123".to_string(), now).unwrap();
    assert_eq!(g.verify_at(&resp.token, now).unwrap(), "demo@rustemr.com");
    assert_eq!(g.verify_at(&resp.token, now + 86400).unwrap(), "demo@rustemr.com");
    assert_eq!(g.verify_at(&resp.token, now + 86401).unwrap_err(), ApiError::TokenExpired);
}

#[test]
fn fresh_login_token_verifies_now() {
    let g = gateway();
    let now = chrono::Utc::now().timestamp();
    let resp = g.login_at(&"demo@rustemr.com".to_string(), &"password123".to_string(), now).unwrap();
    let later = chrono::Utc::now().timestamp();
    assert_eq!(g.verify_at(&resp.token, later).unwrap(), "demo@rustemr.com");
}

#[test]
fn forged_or_foreign_tokens_are_unauthorized() {
    let g = gateway();
    let resp = g.login_at(&"demo@rustemr.com".to_string(), &"password123".to_string(), 1000).unwrap();
    let mut forged = resp.token.clone();
    forged.push('x');
    assert_eq!(g.verify_at(&forged, 1000).unwrap_err(), ApiError::Unauthorized);
    let other = Gateway::new("demo@rustemr.com".to_string(), "password123".to_string(), b"another-key".to_vec());
    assert_eq!(other.verify_at(&resp.token, 1000).unwrap_err(), ApiError::Unauthorized);
    assert_eq!(g.verify_at(&"not-a-token".to_string(), 1000).unwrap_err(), ApiError::Unauthorized);
}

#[test]
fn claims_decide_expiry() {
    assert_eq!(check_claims(None, 5).unwrap_err(), ApiError::Unauthorized);
    assert_eq!(check_claims(Some(("a@b.c".to_string(), 5)), 5).unwrap(), "a@b.c");
    assert_eq!(check_claims(Some(("a@b.c".to_string(), 4)), 5).unwrap_err(), ApiError::TokenExpired);
}
