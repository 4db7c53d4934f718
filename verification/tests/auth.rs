use backend::domain::error::DomainError;
use backend::infrastructure::auth::auth_middleware::{
    requires_authentication, ID_TOKEN_COOKIE_NAME, REFRESH_TOKEN_COOKIE_NAME,
};
use backend::infrastructure::auth::cognito::cognito_authenticator::{
    get_issuer, Claims, Jwks, Key, KeyCache, TokenError, TokenVerification, VerifyAction, VerifyEvent, VerifyPhase,
};
use backend::infrastructure::config::CognitoConfig;

/// Base64url without padding, for building token headers.
fn b64url(bytes: &[u8]) -> String {
    const ALPHABET: &[u8; 64] = b"ABCDEFGHIJKLMNOPQRSTUVWXYZabcdefghijklmnopqrstuvwxyz0123456789-_";
    let mut out = String::new();
    for chunk in bytes.chunks(3) {
        let b = [chunk[0], *chunk.get(1).unwrap_or(&0), *chunk.get(2).unwrap_or(&0)];
        let n = ((b[0] as u32) << 16) | ((b[1] as u32) << 8) | (b[2] as u32);
        let chars = chunk.len() + 1;
        for i in 0..chars {
            out.push(ALPHABET[((n >> (18 - 6 * i)) & 63) as usize] as char);
        }
    }
    out
}

/// A token whose header names the key `kid` (or no key); payload and signature are not read here.
fn token(kid: Option<&str>) -> String {
    let header = match kid {
        Some(k) => format!("{{\"alg\":\"RS256\",\"typ\":\"JWT\",\"kid\":\"{k}\"}}"),
        None => "{\"alg\":\"RS256\",\"typ\":\"JWT\"}".to_string(),
    };
    format!("{}.{}.{}", b64url(header.as_bytes()), b64url(b"{}"), "signature")
}

fn key(kid: &str) -> Key {
    Key { kid: kid.to_string(), n: format!("n-{kid}"), e: "AQAB".to_string() }
}

fn claims(token_use: &str) -> Claims {
    Claims {
        aud: "client".to_string(),
        exp: 2_000_000_000,
        iat: 1_700_000_000,
        iss: "https://cognito-idp.ap-northeast-1.amazonaws.com/pool".to_string(),
        sub: "user-sub".to_string(),
        token_use: token_use.to_string(),
        email: "user@example.com".to_string(),
    }
}

fn finished(action: VerifyAction) -> Result<(String, String, String), DomainError> {
    match action {
        VerifyAction::Finish(Ok((user, token))) => Ok((user.id, user.email, token)),
        VerifyAction::Finish(Err(e)) => Err(e),
        other => panic!("Expected the verification to finish, got {other:?}"),
    }
}

#[test]
fn issuer_names_the_region_and_the_pool() {
    let config = CognitoConfig::new(
        Some("pool".to_string()),
        Some("client".to_string()),
        Some("ap-northeast-1".to_string()),
        Some("https://keys".to_string()),
    )
    .unwrap();
    assert_eq!(get_issuer(&config), "https://cognito-idp.ap-northeast-1.amazonaws.com/pool");
}

#[test]
fn no_tokens_is_an_authentication_error() {
    let (_, action) = TokenVerification::start(None, None, &KeyCache::new());
    assert!(matches!(finished(action), Err(DomainError::AuthenticationError)));
}

#[test]
fn a_valid_id_token_with_a_cached_key_is_verified() {
    let mut cache = KeyCache::new();
    cache.replace(vec![key("k1")]);
    let t = token(Some("k1"));
    let (v, action) = TokenVerification::start(Some(t.clone()), None, &cache);
    assert!(matches!(action, VerifyAction::VerifyIdToken { ref key, ref id_token } if key.kid == "k1" && *id_token == t));
    let (v, action) = v.step(VerifyEvent::IdTokenVerified(Ok(claims("id"))), &mut cache);
    assert!(matches!(v.phase, VerifyPhase::Done));
    assert_eq!(finished(action).unwrap(), ("user-sub".to_string(), "user@example.com".to_string(), t));
}

#[test]
fn an_unknown_key_is_fetched_and_cached() {
    let mut cache = KeyCache::new();
    let (v, action) = TokenVerification::start(Some(token(Some("k2"))), None, &cache);
    assert!(matches!(action, VerifyAction::FetchJwks));
    let (v, action) = v.step(VerifyEvent::JwksFetched(Ok(Jwks { keys: vec![key("k1"), key("k2")] })), &mut cache);
    assert!(matches!(action, VerifyAction::VerifyIdToken { ref key, .. } if key.kid == "k2"));
    assert_eq!(cache.keys.len(), 2);
    assert!(cache.find("k1").is_some());
    let (_, action) = v.step(VerifyEvent::IdTokenVerified(Ok(claims("id"))), &mut cache);
    assert!(finished(action).is_ok());
}

#[test]
fn a_key_missing_from_the_set_is_an_authentication_error() {
    let mut cache = KeyCache::new();
    let (v, _) = TokenVerification::start(Some(token(Some("k9"))), None, &cache);
    let (_, action) = v.step(VerifyEvent::JwksFetched(Ok(Jwks { keys: vec![key("k1")] })), &mut cache);
    assert!(matches!(finished(action), Err(DomainError::AuthenticationError)));
}

#[test]
fn header_problems() {
    let cache = KeyCache::new();
    let (_, action) = TokenVerification::start(Some(token(None)), None, &cache);
    assert!(matches!(finished(action), Err(DomainError::AuthenticationError)));
    let (_, action) = TokenVerification::start(Some("not-a-token".to_string()), None, &cache);
    assert!(matches!(finished(action), Err(DomainError::SystemError)));
    let (_, action) = TokenVerification::start(Some("a.b.c".to_string()), None, &cache);
    assert!(matches!(finished(action), Err(DomainError::SystemError)));
}

#[test]
fn an_access_token_is_refused() {
    let mut cache = KeyCache::new();
    cache.replace(vec![key("k1")]);
    let (v, _) = TokenVerification::start(Some(token(Some("k1"))), None, &cache);
    let (_, action) = v.step(VerifyEvent::IdTokenVerified(Ok(claims("access"))), &mut cache);
    assert!(matches!(finished(action), Err(DomainError::AuthenticationError)));
}

#[test]
fn an_expired_token_is_refreshed_once() {
    let mut cache = KeyCache::new();
    cache.replace(vec![key("k1")]);
    let (v, _) = TokenVerification::start(Some(token(Some("k1"))), Some("refresh".to_string()), &cache);
    let (v, action) = v.step(VerifyEvent::IdTokenVerified(Err(TokenError::Expired)), &mut cache);
    assert!(matches!(action, VerifyAction::RefreshIdToken { ref refresh_token } if refresh_token == "refresh"));
    let (v, action) = v.step(VerifyEvent::IdTokenRefreshed(Some("new".to_string())), &mut cache);
    assert!(matches!(action, VerifyAction::VerifyIdToken { ref id_token, ref key } if id_token == "new" && key.kid == "k1"));
    let (_, action) = v.step(VerifyEvent::IdTokenVerified(Ok(claims("id"))), &mut cache);
    assert_eq!(finished(action).unwrap().2, "new");
}

#[test]
fn a_second_expiry_is_reported() {
    let mut cache = KeyCache::new();
    cache.replace(vec![key("k1")]);
    let (v, _) = TokenVerification::start(Some(token(Some("k1"))), Some("refresh".to_string()), &cache);
    let (v, _) = v.step(VerifyEvent::IdTokenVerified(Err(TokenError::Expired)), &mut cache);
    let (v, _) = v.step(VerifyEvent::IdTokenRefreshed(Some("new".to_string())), &mut cache);
    let (_, action) = v.step(VerifyEvent::IdTokenVerified(Err(TokenError::Expired)), &mut cache);
    assert!(matches!(finished(action), Err(DomainError::AuthenticationExpired)));
}

#[test]
fn expiry_without_a_refresh_token_is_reported() {
    let mut cache = KeyCache::new();
    cache.replace(vec![key("k1")]);
    let (v, _) = TokenVerification::start(Some(token(Some("k1"))), None, &cache);
    let (_, action) = v.step(VerifyEvent::IdTokenVerified(Err(TokenError::Expired)), &mut cache);
    assert!(matches!(finished(action), Err(DomainError::AuthenticationExpired)));
    let (v, _) = TokenVerification::start(Some(token(Some("k1"))), None, &cache);
    let (_, action) = v.step(VerifyEvent::IdTokenVerified(Err(TokenError::Invalid)), &mut cache);
    assert!(matches!(finished(action), Err(DomainError::SystemError)));
}

#[test]
fn without_an_id_token_one_is_obtained_first() {
    let mut cache = KeyCache::new();
    cache.replace(vec![key("k1")]);
    let (v, action) = TokenVerification::start(None, Some("refresh".to_string()), &cache);
    assert!(matches!(action, VerifyAction::RefreshIdToken { .. }));
    let (_, action) = v.step(VerifyEvent::IdTokenRefreshed(Some(token(Some("k1")))), &mut cache);
    assert!(matches!(action, VerifyAction::VerifyIdToken { .. }));
    let (v, _) = TokenVerification::start(None, Some("refresh".to_string()), &cache);
    let (_, action) = v.step(VerifyEvent::IdTokenRefreshed(None), &mut cache);
    assert!(matches!(finished(action), Err(DomainError::SystemError)));
}

#[test]
fn an_unexpected_event_ends_the_verification() {
    let mut cache = KeyCache::new();
    let (v, _) = TokenVerification::start(Some(token(Some("k1"))), None, &cache);
    let (v, action) = v.step(VerifyEvent::IdTokenRefreshed(Some("x".to_string())), &mut cache);
    assert!(matches!(finished(action), Err(DomainError::SystemError)));
    let (_, action) = v.step(VerifyEvent::IdTokenVerified(Ok(claims("id"))), &mut cache);
    assert!(matches!(finished(action), Err(DomainError::SystemError)));
}

#[test]
fn open_paths_need_no_authentication() {
    assert!(!requires_authentication("/health"));
    assert!(!requires_authentication("/ec-extension/auth/sign-in"));
    assert!(requires_authentication("/ec-extension/products"));
    assert!(requires_authentication("/health/"));
    assert_eq!(ID_TOKEN_COOKIE_NAME, "ID_TOKEN");
    assert_eq!(REFRESH_TOKEN_COOKIE_NAME, "REFRESH_TOKEN");
}
