use gportal::gportal_auth::{password_grant_form, refresh_grant_form, AuthError, AuthStep, GPortalAuth};
use gportal::openid::Token;
use gportal::time::UtcInstant;

const SECRET: &str = "GEZDGNBVGY3TQOJQGEZDGNBVGY3TQOJQ";

fn token(access: &str, refresh: &str, expires_in: i64, refresh_expires_in: i64) -> Token {
    Token {
        access_token: access.to_string(),
        expires_in,
        refresh_expires_in,
        refresh_token: refresh.to_string(),
        token_type: "Bearer".to_string(),
        id_token: "id".to_string(),
        not_before_policy: 0,
        session_state: "s".to_string(),
        scope: "openid".to_string(),
    }
}

fn at(secs: i64) -> UtcInstant {
    UtcInstant { secs, nanos: 0 }
}

#[test]
fn test_get_totp_secret() {
    assert_eq!(GPortalAuth::get_totp_code(SECRET, 59).ok(), Some("287082".to_string()));
    assert!(matches!(GPortalAuth::get_totp_code("not base32!", 59), Err(AuthError::InvalidTotpSecret)));
    assert!(matches!(GPortalAuth::get_totp_code("GEZDGNBV", 59), Err(AuthError::InvalidTotpSecret)));
}

#[test]
fn valid_access_token_is_reused() {
    let mut auth = GPortalAuth::new("u".to_string(), "p".to_string());
    auth.update_token(token("a1", "r1", 300, 1800), at(1000));
    match auth.next_step(at(1299)) {
        Ok(AuthStep::Cached(t)) => assert_eq!(t, "a1"),
        _ => panic!("expected the stored access token"),
    }
}

#[test]
fn expired_access_token_refreshes() {
    let mut auth = GPortalAuth::new("u".to_string(), "p".to_string());
    auth.update_token(token("a1", "r1", 300, 1800), at(1000));
    match auth.next_step(at(1300)) {
        Ok(AuthStep::Refresh(t)) => assert_eq!(t, "r1"),
        _ => panic!("expected a refresh"),
    }
    let access = auth.update_token(token("a2", "r2", 300, 1800), at(1300));
    assert_eq!(access, "a2");
    assert_eq!(auth.token.as_ref().map(|t| t.refresh_token.clone()), Some("r2".to_string()));
    assert_eq!(auth.fetch_time, Some(at(1300)));
    assert!(matches!(auth.next_step(at(1301)), Ok(AuthStep::Cached(_))));
}

#[test]
fn both_expired_logs_in_with_totp() {
    let mut auth = GPortalAuth::new_with_totp("u".to_string(), "p".to_string(), SECRET.to_string());
    auth.update_token(token("a1", "r1", 300, 1800), at(-5000));
    match auth.next_step(at(59)) {
        Ok(AuthStep::Login { username, password, totp_code }) => {
            assert_eq!(username, "u");
            assert_eq!(password, "p");
            assert_eq!(totp_code, "287082");
        },
        _ => panic!("expected a login"),
    }
}

#[test]
fn first_call_logs_in_with_empty_code() {
    let auth = GPortalAuth::new("u".to_string(), "p".to_string());
    match auth.next_step(at(59)) {
        Ok(AuthStep::Login { totp_code, .. }) => assert_eq!(totp_code, ""),
        _ => panic!("expected a login"),
    }
}

#[test]
fn malformed_secret_fails_login() {
    let auth = GPortalAuth::new_with_totp("u".to_string(), "p".to_string(), "1".to_string());
    assert!(matches!(auth.next_step(at(59)), Err(AuthError::InvalidTotpSecret)));
    let auth = GPortalAuth::new_with_totp("u".to_string(), "p".to_string(), SECRET.to_string());
    assert!(matches!(auth.next_step(at(-1)), Err(AuthError::ClockBeforeEpoch)));
}

fn pairs(f: &[(String, String)]) -> Vec<(&str, &str)> {
    f.iter().map(|(a, b)| (a.as_str(), b.as_str())).collect()
}

#[test]
fn test_get_access_token_by_password() {
    let f = password_grant_form("user", "pw", "123456");
    assert_eq!(
        pairs(&f),
        vec![
            ("grant_type", "password"),
            ("client_id", "website"),
            ("scope", "openid email profile gportal"),
            ("username", "user"),
            ("password", "pw"),
            ("rememberMe", "on"),
            ("totp", "123456"),
        ]
    );
}

#[test]
fn test_get_access_token_by_refreshtoken() {
    let f = refresh_grant_form("r1");
    assert_eq!(pairs(&f), vec![
            ("grant_type", "refresh_token"),
            ("client_id", "website"),
            ("scope", "openid email profile gportal"),
            ("refresh_token", "r1"),
        ]);
}

#[test]
fn rejected_grant_keeps_tokens() {
    let mut auth = GPortalAuth::new("u".to_string(), "p".to_string());
    auth.update_token(token("a1", "r1", 300, 1800), at(1000));
    match auth.finish_grant(Err("invalid_grant".to_string()), at(1400)) {
        Err(AuthError::Rejected(body)) => assert_eq!(body, "invalid_grant"),
        _ => panic!("expected a rejection"),
    }
    assert_eq!(auth.fetch_time, Some(at(1000)));
    assert!(matches!(auth.next_step(at(1400)), Ok(AuthStep::Refresh(_))));
    assert_eq!(auth.finish_grant(Ok(token("a2", "r2", 300, 1800)), at(1400)).ok(), Some("a2".to_string()));
    assert_eq!(auth.fetch_time, Some(at(1400)));
}

#[test]
fn totp_code_is_six_digits_per_window() {
    let a = GPortalAuth::get_totp_code(SECRET, 30).ok().unwrap();
    let b = GPortalAuth::get_totp_code(SECRET, 59).ok().unwrap();
    assert_eq!(a, b);
    assert_eq!(a.len(), 6);
    assert!(a.chars().all(|c| c.is_ascii_digit()));
    assert_eq!(GPortalAuth::get_totp_code(SECRET, 1111111109).ok(), Some("081804".to_string()));
}
