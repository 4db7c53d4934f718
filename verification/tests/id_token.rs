use std::time::{SystemTime, UNIX_EPOCH};

use backend::infrastructure::auth::cognito::cognito_authenticator::{
    claims_from_fields, verify_id_token, ClaimValue, Key, TokenError,
};
use backend::infrastructure::config::CognitoConfig;
use jsonwebtoken::{encode, Algorithm, EncodingKey, Header};
use serde_json::{Number, Value};

/// Unsigned big integers as little-endian 32-bit limbs, enough to build a test RSA key.
type Big = Vec<u32>;

fn trim(mut a: Big) -> Big {
    while a.len() > 1 && *a.last().unwrap() == 0 {
        a.pop();
    }
    a
}

/// `k * 2^shift`.
fn shifted(k: u32, shift: usize) -> Big {
    let mut a = vec![0u32; shift / 32 + 2];
    let v = (k as u64) << (shift % 32);
    a[shift / 32] = v as u32;
    a[shift / 32 + 1] = (v >> 32) as u32;
    trim(a)
}

fn add_small(a: &Big, s: u32) -> Big {
    let mut r = a.clone();
    let mut carry = s as u64;
    for limb in r.iter_mut() {
        let v = *limb as u64 + carry;
        *limb = v as u32;
        carry = v >> 32;
    }
    if carry > 0 {
        r.push(carry as u32);
    }
    r
}

fn sub_small(a: &Big, s: u32) -> Big {
    let mut r = a.clone();
    let mut borrow = s as i64;
    for limb in r.iter_mut() {
        let v = *limb as i64 - borrow;
        if v < 0 {
            *limb = (v + (1i64 << 32)) as u32;
            borrow = 1;
        } else {
            *limb = v as u32;
            borrow = 0;
        }
    }
    trim(r)
}

fn mul(a: &Big, b: &Big) -> Big {
    let mut r = vec![0u64; a.len() + b.len() + 1];
    for (i, &x) in a.iter().enumerate() {
        let mut carry = 0u64;
        for (j, &y) in b.iter().enumerate() {
            let v = r[i + j] + (x as u64) * (y as u64) + carry;
            r[i + j] = v & 0xffff_ffff;
            carry = v >> 32;
        }
        let mut k = i + b.len();
        while carry > 0 {
            let v = r[k] + carry;
            r[k] = v & 0xffff_ffff;
            carry = v >> 32;
            k += 1;
        }
    }
    trim(r.into_iter().map(|v| v as u32).collect())
}

/// The quotient and remainder of `a` divided by a small `d`.
fn div_small(a: &Big, d: u32) -> (Big, u32) {
    let mut q = vec![0u32; a.len()];
    let mut rem = 0u64;
    for i in (0..a.len()).rev() {
        let v = (rem << 32) | a[i] as u64;
        q[i] = (v / d as u64) as u32;
        rem = v % d as u64;
    }
    (trim(q), rem as u32)
}

fn pow_mod_small(b: u64, mut exp: u64, m: u64) -> u64 {
    let (mut r, mut b) = (1u64, b % m);
    while exp > 0 {
        if exp & 1 == 1 {
            r = r * b % m;
        }
        b = b * b % m;
        exp >>= 1;
    }
    r
}

/// The inverse of the prime `e` modulo `m`: `(1 + k * m) / e` for the `k` below `e` that
/// makes the division exact.
fn inverse_of_e(e: u32, m: &Big) -> Big {
    let (_, r) = div_small(m, e);
    let k = (e as u64 - pow_mod_small(r as u64, e as u64 - 2, e as u64)) % e as u64;
    let (x, rem) = div_small(&add_small(&mul(m, &vec![k as u32]), 1), e);
    assert_eq!(rem, 0);
    x
}

fn be_bytes(a: &Big) -> Vec<u8> {
    let mut out: Vec<u8> = a.iter().rev().flat_map(|l| l.to_be_bytes()).collect();
    while out.len() > 1 && out[0] == 0 {
        out.remove(0);
    }
    out
}

fn der_length(len: usize) -> Vec<u8> {
    if len < 128 {
        vec![len as u8]
    } else if len < 256 {
        vec![0x81, len as u8]
    } else {
        vec![0x82, (len >> 8) as u8, len as u8]
    }
}

fn der_integer(bytes: &[u8]) -> Vec<u8> {
    let mut content = bytes.to_vec();
    if content[0] & 0x80 != 0 {
        content.insert(0, 0);
    }
    let mut out = vec![0x02];
    out.extend(der_length(content.len()));
    out.extend(content);
    out
}

/// Base64url without padding.
fn b64url(bytes: &[u8]) -> String {
    const ALPHABET: &[u8; 64] = b"ABCDEFGHIJKLMNOPQRSTUVWXYZabcdefghijklmnopqrstuvwxyz0123456789-_";
    let mut out = String::new();
    for chunk in bytes.chunks(3) {
        let b = [chunk[0], *chunk.get(1).unwrap_or(&0), *chunk.get(2).unwrap_or(&0)];
        let n = ((b[0] as u32) << 16) | ((b[1] as u32) << 8) | (b[2] as u32);
        for i in 0..chunk.len() + 1 {
            out.push(ALPHABET[((n >> (18 - 6 * i)) & 63) as usize] as char);
        }
    }
    out
}

/// A 2048-bit RSA key pair built for these tests from two primes of a simple form:
/// `q = 7 * 2^1021 + 567279` and `p = (6q - 1) / 7`, so that `6` is the inverse of `q`
/// modulo `p`. Gives the PKCS#1 DER of the private key and the base64url modulus and
/// exponent of the public key.
fn test_key_pair() -> (Vec<u8>, String, String) {
    let e: u32 = 65537;
    let q = add_small(&shifted(7, 1021), 567_279);
    let (p, rem) = div_small(&sub_small(&mul(&q, &vec![6]), 1), 7);
    assert_eq!(rem, 0);
    let n = mul(&p, &q);
    let p1 = sub_small(&p, 1);
    let q1 = sub_small(&q, 1);
    let d = inverse_of_e(e, &mul(&p1, &q1));
    let dp = inverse_of_e(e, &p1);
    let dq = inverse_of_e(e, &q1);
    let mut body = der_integer(&[0]);
    for part in [&n, &vec![e], &d, &p, &q, &dp, &dq, &vec![6]] {
        body.extend(der_integer(&be_bytes(part)));
    }
    let mut der = vec![0x30];
    der.extend(der_length(body.len()));
    der.extend(body);
    (der, b64url(&be_bytes(&n)), b64url(&be_bytes(&vec![e])))
}

const REGION: &str = "ap-northeast-1";
const POOL: &str = "pool";
const CLIENT: &str = "client";

fn config() -> CognitoConfig {
    CognitoConfig::new(
        Some(POOL.to_string()),
        Some(CLIENT.to_string()),
        Some(REGION.to_string()),
        Some("https://example.com/jwks.json".to_string()),
    )
    .unwrap()
}

fn issuer() -> String {
    format!("https://cognito-idp.{REGION}.amazonaws.com/{POOL}")
}

fn test_key() -> Key {
    let (_, n, e) = test_key_pair();
    Key { kid: "kid-1".to_string(), n, e }
}

fn now() -> u64 {
    SystemTime::now().duration_since(UNIX_EPOCH).unwrap().as_secs()
}

fn text(s: &str) -> Value {
    Value::String(s.to_string())
}

fn number(n: u64) -> Value {
    Value::Number(Number::from(n))
}

/// The claims of a Cognito ID token for `aud`, issued by `iss`, that expires at `exp`.
fn payload(aud: &str, iss: &str, exp: u64) -> serde_json::Map<String, Value> {
    let mut m = serde_json::Map::new();
    m.insert("aud".to_string(), text(aud));
    m.insert("exp".to_string(), number(exp));
    m.insert("iat".to_string(), number(1_700_000_000));
    m.insert("iss".to_string(), text(iss));
    m.insert("sub".to_string(), text("user-sub"));
    m.insert("token_use".to_string(), text("id"));
    m.insert("email".to_string(), text("user@example.com"));
    m
}

fn sign(claims: &serde_json::Map<String, Value>) -> String {
    let (der, _, _) = test_key_pair();
    let key = EncodingKey::from_rsa_der(&der);
    encode(&Header::new(Algorithm::RS256), claims, &key).unwrap()
}

#[test]
fn a_valid_id_token_gives_its_claims() {
    let exp = now() + 3600;
    let token = sign(&payload(CLIENT, &issuer(), exp));
    let claims = verify_id_token(&config(), &token, &test_key()).unwrap();
    assert_eq!(claims.aud, CLIENT);
    assert_eq!(claims.iss, issuer());
    assert_eq!(claims.exp, exp);
    assert_eq!(claims.iat, 1_700_000_000);
    assert_eq!(claims.sub, "user-sub");
    assert_eq!(claims.token_use, "id");
    assert_eq!(claims.email, "user@example.com");
}

#[test]
fn a_token_for_another_client_is_invalid() {
    let token = sign(&payload("another-client", &issuer(), now() + 3600));
    assert!(matches!(verify_id_token(&config(), &token, &test_key()), Err(TokenError::Invalid)));
}

#[test]
fn a_token_of_another_issuer_is_invalid() {
    let token = sign(&payload(CLIENT, "https://cognito-idp.us-east-1.amazonaws.com/other", now() + 3600));
    assert!(matches!(verify_id_token(&config(), &token, &test_key()), Err(TokenError::Invalid)));
}

#[test]
fn an_expired_token_is_expired() {
    let token = sign(&payload(CLIENT, &issuer(), 1_000_000));
    assert!(matches!(verify_id_token(&config(), &token, &test_key()), Err(TokenError::Expired)));
}

#[test]
fn a_token_without_an_email_is_invalid() {
    let mut claims = payload(CLIENT, &issuer(), now() + 3600);
    claims.remove("email");
    let token = sign(&claims);
    assert!(matches!(verify_id_token(&config(), &token, &test_key()), Err(TokenError::Invalid)));
}

#[test]
fn a_token_checked_with_another_key_is_invalid() {
    let token = sign(&payload(CLIENT, &issuer(), now() + 3600));
    let mut other = test_key();
    other.n = b64url(&be_bytes(&add_small(&shifted(1, 2047), 1)));
    assert!(matches!(verify_id_token(&config(), &token, &other), Err(TokenError::Invalid)));
}

#[test]
fn a_key_that_is_not_base64url_is_invalid() {
    let token = sign(&payload(CLIENT, &issuer(), now() + 3600));
    let bad = Key { kid: "kid-1".to_string(), n: "not base64!".to_string(), e: "AQAB".to_string() };
    assert!(matches!(verify_id_token(&config(), &token, &bad), Err(TokenError::Invalid)));
}

#[test]
fn a_malformed_token_is_invalid() {
    assert!(matches!(verify_id_token(&config(), "not-a-token", &test_key()), Err(TokenError::Invalid)));
}

fn field(name: &str, value: ClaimValue) -> (String, ClaimValue) {
    (name.to_string(), value)
}

fn all_fields() -> Vec<(String, ClaimValue)> {
    vec![
        field("aud", ClaimValue::Text("client".to_string())),
        field("email", ClaimValue::Text("user@example.com".to_string())),
        field("exp", ClaimValue::Number(Some(2_000_000_000))),
        field("iat", ClaimValue::Number(Some(1_700_000_000))),
        field("iss", ClaimValue::Text("issuer".to_string())),
        field("sub", ClaimValue::Text("user-sub".to_string())),
        field("token_use", ClaimValue::Text("id".to_string())),
        field("auth_time", ClaimValue::Number(Some(1_700_000_000))),
    ]
}

#[test]
fn claims_are_read_by_name() {
    let claims = claims_from_fields(&all_fields()).unwrap();
    assert_eq!(claims.aud, "client");
    assert_eq!(claims.email, "user@example.com");
    assert_eq!(claims.exp, 2_000_000_000);
    assert_eq!(claims.iat, 1_700_000_000);
    assert_eq!(claims.iss, "issuer");
    assert_eq!(claims.sub, "user-sub");
    assert_eq!(claims.token_use, "id");
}

#[test]
fn a_missing_claim_gives_no_claims() {
    let fields: Vec<(String, ClaimValue)> = all_fields().into_iter().filter(|(n, _)| n != "sub").collect();
    assert!(claims_from_fields(&fields).is_none());
}

#[test]
fn a_claim_of_the_wrong_kind_gives_no_claims() {
    let mut fields = all_fields();
    fields[2] = field("exp", ClaimValue::Text("soon".to_string()));
    assert!(claims_from_fields(&fields).is_none());
    let mut fields = all_fields();
    fields[3] = field("iat", ClaimValue::Number(None));
    assert!(claims_from_fields(&fields).is_none());
    let mut fields = all_fields();
    fields[0] = field("aud", ClaimValue::Other);
    assert!(claims_from_fields(&fields).is_none());
}
