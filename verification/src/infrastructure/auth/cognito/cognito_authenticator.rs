//! Verification of Cognito ID tokens.
//!
//! Verifying a token takes outside work: refreshing the ID token with the refresh
//! token, fetching the JSON Web Key Set and checking the signature and the claims.
//! [`TokenVerification`] holds the decisions between those steps and reads the token
//! header itself: the caller performs each [`VerifyAction`] and hands back the
//! [`VerifyEvent`] it produced, until the action is `Finish`.
use jsonwebtoken::errors::ErrorKind;
use jsonwebtoken::{decode, Algorithm, DecodingKey, Validation};
use serde_json::Value;
use vstd::prelude::*;

use crate::domain::error::DomainError;
use crate::infrastructure::auth::idp_user::IdpUser;
use crate::infrastructure::config::CognitoConfig;
use crate::infrastructure::error::{InfrastructureError, InfrastructureErrorMapper};
use crate::text::{owned, str_equals};

verus! {

/// A JSON Web Key: its id and the RSA modulus and exponent.
#[derive(Debug)]
pub struct Key {
    pub kid: String,
    pub n: String,
    pub e: String,
}

impl Clone for Key {
    fn clone(&self) -> (r: Self)
        ensures
            r == *self,
    {
        Key { kid: self.kid.clone(), n: self.n.clone(), e: self.e.clone() }
    }
}

/// A JSON Web Key Set.
#[derive(Debug)]
pub struct Jwks {
    pub keys: Vec<Key>,
}

/// The claims of a Cognito token.
#[derive(Debug)]
pub struct Claims {
    pub aud: String,
    pub exp: u64,
    pub iat: u64,
    pub iss: String,
    pub sub: String,
    pub token_use: String,
    pub email: String,
}

/// Why a token did not pass the signature and claims check.
#[derive(Clone, Copy, Debug, PartialEq, Eq, Structural)]
pub enum TokenError {
    /// The token has expired.
    Expired,
    /// Any other failure: bad signature, audience, issuer or format.
    Invalid,
}

/// The issuer that the tokens of a user pool carry.
pub open spec fn issuer_text(region: Seq<char>, user_pool_id: Seq<char>) -> Seq<char> {
    "https://cognito-idp."@ + region + ".amazonaws.com/"@ + user_pool_id
}

/// The issuer of the tokens of the configured user pool.
pub fn get_issuer(config: &CognitoConfig) -> (r: String)
    ensures
        r@ == issuer_text(config.spec_region(), config.spec_user_pool_id()),
{
    let mut r = owned("https://cognito-idp.");
    r.append(config.region().as_str());
    r.append(".amazonaws.com/");
    r.append(config.user_pool_id().as_str());
    r
}

/// The first key of `keys` with id `kid`.
pub open spec fn find_key(keys: Seq<Key>, kid: Seq<char>) -> Option<Key>
    decreases keys.len(),
{
    if keys.len() == 0 {
        None
    } else if keys[0].kid@ == kid {
        Some(keys[0])
    } else {
        find_key(keys.drop_first(), kid)
    }
}

/// The keys fetched last from the key set URI.
#[derive(Debug)]
pub struct KeyCache {
    pub keys: Vec<Key>,
}

impl KeyCache {
    /// An empty cache.
    pub fn new() -> (c: KeyCache)
        ensures
            c.keys@.len() == 0,
    {
        KeyCache { keys: Vec::new() }
    }

    /// The first cached key with id `kid`.
    pub fn find(&self, kid: &str) -> (r: Option<Key>)
        ensures
            r == find_key(self.keys@, kid@),
    {
        let mut i: usize = 0;
        assert(self.keys@.subrange(0, self.keys@.len() as int) =~= self.keys@);
        while i < self.keys.len()
            invariant
                i <= self.keys@.len(),
                find_key(self.keys@, kid@) == find_key(self.keys@.subrange(i as int, self.keys@.len() as int), kid@),
            decreases self.keys.len() - i,
        {
            let ghost rest = self.keys@.subrange(i as int, self.keys@.len() as int);
            assert(rest[0] == self.keys@[i as int]);
            assert(rest.drop_first() =~= self.keys@.subrange(i + 1, self.keys@.len() as int));
            if str_equals(self.keys[i].kid.as_str(), kid) {
                return Some(self.keys[i].clone());
            }
            i = i + 1;
        }
        None
    }

    /// Replaces the cached keys with a freshly fetched set.
    pub fn replace(&mut self, keys: Vec<Key>)
        ensures
            final(self).keys@ == keys@,
    {
        self.keys = keys;
    }
}


/// The key id in the header of a JSON Web Token: `None` where the header cannot be
/// decoded, `Some(None)` where it names no key.
pub uninterp spec fn jwt_header_kid(token: Seq<char>) -> Option<Option<Seq<char>>>;

/// `jsonwebtoken::decode_header`, reduced to the `kid` of the header: `None` where the
/// token does not have three parts or its header is not base64url-encoded JSON of a
/// header. The result depends on the token alone.
#[verifier::external_body]
fn decode_header_kid(token: &str) -> (r: Option<Option<String>>)
    ensures
        match jwt_header_kid(token@) {
            None => r is None,
            Some(None) => r == Some(None::<String>),
            Some(Some(k)) => r matches Some(Some(s)) && s@ == k,
        },
{
    match jsonwebtoken::decode_header(token) {
        Ok(header) => Some(header.kid),
        Err(_) => None,
    }
}

/// The value of a claim in the payload of a JSON Web Token, as far as the claims of an
/// ID token read it.
#[derive(Debug)]
pub enum ClaimValue {
    /// A JSON string.
    Text(String),
    /// A JSON number: `Some` where it is an integer from 0 to `u64::MAX`.
    Number(Option<u64>),
    /// Any other JSON value.
    Other,
}

/// The claims in the payload of a JSON Web Token, name and value, as the decoder lists
/// them; the list depends on the token alone.
pub uninterp spec fn jwt_claims(token: Seq<char>) -> Seq<(String, ClaimValue)>;

/// Every claim `name` that is a string holds `value`.
pub open spec fn text_claims_hold(fields: Seq<(String, ClaimValue)>, name: Seq<char>, value: Seq<char>) -> bool {
    forall|i: int| 0 <= i < fields.len() && (#[trigger] fields[i]).0@ == name ==> (fields[i].1 matches ClaimValue::Text(s) ==> s@ == value)
}

/// `jsonwebtoken::decode` of an ID token, with the RS256 key of modulus `n` and exponent
/// `e` (`DecodingKey::from_rsa_components`; a key that is not base64url is `Invalid`) and
/// a `Validation` for the audience `audience` and the issuer `issuer`, the payload read as
/// a JSON object. An expired token is `Expired`, any other failure `Invalid`. Where it
/// succeeds, the claims are those of the token, and a string `aud` or `iss` claim is the
/// audience or the issuer given (the validation compares a string claim with the set of
/// the one value given). The signature check and the expiry, which depends on the clock,
/// are not stated.
#[verifier::external_body]
fn decode_id_token(id_token: &str, n: &str, e: &str, audience: &str, issuer: &str) -> (r: Result<Vec<(String, ClaimValue)>, TokenError>)
    ensures
        r matches Ok(fields) ==> fields@ == jwt_claims(id_token@) && text_claims_hold(fields@, "aud"@, audience@)
            && text_claims_hold(fields@, "iss"@, issuer@),
{
    let key = DecodingKey::from_rsa_components(n, e).map_err(|_| TokenError::Invalid)?;
    let mut validation = Validation::new(Algorithm::RS256);
    validation.set_audience(&[audience]);
    validation.set_issuer(&[issuer]);
    match decode::<serde_json::Map<_, _>>(id_token, &key, &validation) {
        Ok(data) => Ok(data.claims.into_iter().map(|(name, v)| (name, match v {
            Value::String(s) => ClaimValue::Text(s),
            Value::Number(x) => ClaimValue::Number(x.as_u64()),
            _ => ClaimValue::Other,
        })).collect()),
        Err(err) if *err.kind() == ErrorKind::ExpiredSignature => Err(TokenError::Expired),
        Err(_) => Err(TokenError::Invalid),
    }
}

/// The first claim `name`, where it is a string.
pub open spec fn text_claim(fields: Seq<(String, ClaimValue)>, name: Seq<char>) -> Option<String>
    decreases fields.len(),
{
    if fields.len() == 0 {
        None
    } else if fields[0].0@ == name {
        match fields[0].1 {
            ClaimValue::Text(s) => Some(s),
            _ => None,
        }
    } else {
        text_claim(fields.drop_first(), name)
    }
}

/// The first claim `name`, where it is an integer from 0 to `u64::MAX`.
pub open spec fn number_claim(fields: Seq<(String, ClaimValue)>, name: Seq<char>) -> Option<u64>
    decreases fields.len(),
{
    if fields.len() == 0 {
        None
    } else if fields[0].0@ == name {
        match fields[0].1 {
            ClaimValue::Number(Some(u)) => Some(u),
            _ => None,
        }
    } else {
        number_claim(fields.drop_first(), name)
    }
}

/// The claims of an ID token read from the payload's claims: every one present, with
/// `exp` and `iat` numbers and the others strings; otherwise none.
pub open spec fn claims_of(fields: Seq<(String, ClaimValue)>) -> Option<Claims> {
    match (
        text_claim(fields, "aud"@),
        number_claim(fields, "exp"@),
        number_claim(fields, "iat"@),
        text_claim(fields, "iss"@),
        text_claim(fields, "sub"@),
        text_claim(fields, "token_use"@),
        text_claim(fields, "email"@),
    ) {
        (Some(aud), Some(exp), Some(iat), Some(iss), Some(sub), Some(token_use), Some(email)) => Some(
            Claims { aud, exp, iat, iss, sub, token_use, email },
        ),
        _ => None,
    }
}

/// A string claim found by `text_claim` is one of the claims.
pub proof fn lemma_text_claim_is_listed(fields: Seq<(String, ClaimValue)>, name: Seq<char>)
    ensures
        text_claim(fields, name) matches Some(s) ==> exists|i: int|
            0 <= i < fields.len() && (#[trigger] fields[i]).0@ == name && fields[i].1 == ClaimValue::Text(s),
    decreases fields.len(),
{
    if fields.len() > 0 && fields[0].0@ != name {
        lemma_text_claim_is_listed(fields.drop_first(), name);
        if text_claim(fields, name) is Some {
            let s = text_claim(fields, name)->Some_0;
            let i = choose|i: int|
                0 <= i < fields.drop_first().len() && (#[trigger] fields.drop_first()[i]).0@ == name
                    && fields.drop_first()[i].1 == ClaimValue::Text(s);
            assert(fields[i + 1] == fields.drop_first()[i]);
        }
    }
}

fn find_text_claim(fields: &Vec<(String, ClaimValue)>, name: &str) -> (r: Option<String>)
    ensures
        r == text_claim(fields@, name@),
{
    let mut i: usize = 0;
    assert(fields@.subrange(0, fields@.len() as int) =~= fields@);
    while i < fields.len()
        invariant
            i <= fields@.len(),
            text_claim(fields@, name@) == text_claim(fields@.subrange(i as int, fields@.len() as int), name@),
        decreases fields.len() - i,
    {
        let ghost rest = fields@.subrange(i as int, fields@.len() as int);
        assert(rest[0] == fields@[i as int]);
        assert(rest.drop_first() =~= fields@.subrange(i + 1, fields@.len() as int));
        if str_equals(fields[i].0.as_str(), name) {
            return match &fields[i].1 {
                ClaimValue::Text(s) => Some(s.clone()),
                _ => None,
            };
        }
        i = i + 1;
    }
    None
}

fn find_number_claim(fields: &Vec<(String, ClaimValue)>, name: &str) -> (r: Option<u64>)
    ensures
        r == number_claim(fields@, name@),
{
    let mut i: usize = 0;
    assert(fields@.subrange(0, fields@.len() as int) =~= fields@);
    while i < fields.len()
        invariant
            i <= fields@.len(),
            number_claim(fields@, name@) == number_claim(fields@.subrange(i as int, fields@.len() as int), name@),
        decreases fields.len() - i,
    {
        let ghost rest = fields@.subrange(i as int, fields@.len() as int);
        assert(rest[0] == fields@[i as int]);
        assert(rest.drop_first() =~= fields@.subrange(i + 1, fields@.len() as int));
        if str_equals(fields[i].0.as_str(), name) {
            return match &fields[i].1 {
                ClaimValue::Number(Some(u)) => Some(*u),
                _ => None,
            };
        }
        i = i + 1;
    }
    None
}

/// The claims of an ID token read from the claims of its payload: `None` where one of
/// them is missing or of the wrong kind.
pub fn claims_from_fields(fields: &Vec<(String, ClaimValue)>) -> (r: Option<Claims>)
    ensures
        r == claims_of(fields@),
{
    let aud = match find_text_claim(fields, "aud") {
        Some(v) => v,
        None => return None,
    };
    let exp = match find_number_claim(fields, "exp") {
        Some(v) => v,
        None => return None,
    };
    let iat = match find_number_claim(fields, "iat") {
        Some(v) => v,
        None => return None,
    };
    let iss = match find_text_claim(fields, "iss") {
        Some(v) => v,
        None => return None,
    };
    let sub = match find_text_claim(fields, "sub") {
        Some(v) => v,
        None => return None,
    };
    let token_use = match find_text_claim(fields, "token_use") {
        Some(v) => v,
        None => return None,
    };
    let email = match find_text_claim(fields, "email") {
        Some(v) => v,
        None => return None,
    };
    Some(Claims { aud, exp, iat, iss, sub, token_use, email })
}

/// Checks the ID token's signature with `key`, its expiry, and that it was issued by the
/// configured user pool for the configured client; the claims it carries where it passes.
/// A token without all the claims of an ID token is `Invalid`.
pub fn verify_id_token(config: &CognitoConfig, id_token: &str, key: &Key) -> (r: Result<Claims, TokenError>)
    ensures
        r matches Ok(c) ==> Some(c) == claims_of(jwt_claims(id_token@)) && c.aud@ == config.spec_client_id()
            && c.iss@ == issuer_text(config.spec_region(), config.spec_user_pool_id()),
        claims_of(jwt_claims(id_token@)) is None ==> r is Err,
{
    // https://docs.aws.amazon.com/cognito/latest/developerguide/amazon-cognito-user-pools-using-tokens-verifying-a-jwt.html#amazon-cognito-user-pools-using-tokens-step-3
    let issuer = get_issuer(config);
    let fields = match decode_id_token(id_token, key.n.as_str(), key.e.as_str(), config.client_id().as_str(), issuer.as_str()) {
        Ok(f) => f,
        Err(e) => return Err(e),
    };
    match claims_from_fields(&fields) {
        Some(c) => {
            proof {
                lemma_text_claim_is_listed(fields@, "aud"@);
                lemma_text_claim_is_listed(fields@, "iss"@);
            }
            Ok(c)
        },
        None => Err(TokenError::Invalid),
    }
}

/// What a token verification waits for.
#[derive(Debug)]
pub enum VerifyPhase {
    /// No ID token was given: one is being obtained with the refresh token.
    Refreshing,
    /// The key set is being fetched to find the key `kid` that signed `id_token`.
    FetchingKeys { id_token: String, kid: String },
    /// `id_token` is being checked against `key`; `retried` tells whether it was
    /// obtained after an earlier token had expired.
    Verifying { id_token: String, key: Key, retried: bool },
    /// The token checked against `key` had expired: a new one is being obtained.
    RefreshingExpired { key: Key },
    /// The verification is over.
    Done,
}

/// What the caller is to do next.
#[derive(Debug)]
pub enum VerifyAction {
    /// Obtain an ID token with the refresh token.
    RefreshIdToken { refresh_token: String },
    /// Fetch the JSON Web Key Set.
    FetchJwks,
    /// Check the signature, audience, issuer and expiry of the ID token with the key.
    VerifyIdToken { id_token: String, key: Key },
    /// The verification is over: the user and the ID token that was verified, or the error.
    Finish(Result<(IdpUser, String), DomainError>),
}

/// What the caller's work produced.
#[derive(Debug)]
pub enum VerifyEvent {
    /// The ID token that Cognito issued for the refresh token; `None` where the call
    /// failed or returned no ID token.
    IdTokenRefreshed(Option<String>),
    /// The fetched key set, or the failure of the request.
    JwksFetched(Result<Jwks, InfrastructureError>),
    /// The claims of the token, or why it did not pass the check.
    IdTokenVerified(Result<Claims, TokenError>),
}

/// A token verification in progress: the refresh token it may use and its phase.
#[derive(Debug)]
pub struct TokenVerification {
    pub refresh_token: Option<String>,
    pub phase: VerifyPhase,
}

/// The verification ends with the error `e`.
pub open spec fn finishes_with_error(next: TokenVerification, action: VerifyAction, e: DomainError) -> bool {
    next.phase is Done && action == VerifyAction::Finish(Err(e))
}

/// The verification ends with the user that `claims` describe and `id_token`.
pub open spec fn finishes_with_user(next: TokenVerification, action: VerifyAction, claims: Claims, id_token: String) -> bool {
    &&& next.phase is Done
    &&& action matches VerifyAction::Finish(Ok((user, token)))
    &&& user.id == claims.sub
    &&& user.email == claims.email
    &&& user.roles@.len() == 0
    &&& user.permissions@.len() == 0
    &&& token == id_token
}

/// The verification goes on to check `id_token` against `key`.
pub open spec fn goes_on_to_verify(next: TokenVerification, action: VerifyAction, id_token: String, key: Key, retried: bool) -> bool {
    next.phase == (VerifyPhase::Verifying { id_token, key, retried })
        && action == (VerifyAction::VerifyIdToken { id_token, key })
}

/// What follows once the ID token to verify is known: its header is read; an
/// unreadable header is a system error and one without a key id an authentication
/// error; a key cached under the id is used, otherwise the key set is fetched.
pub open spec fn proceeds_with_token(next: TokenVerification, action: VerifyAction, id_token: String, keys: Seq<Key>) -> bool {
    match jwt_header_kid(id_token@) {
        None => finishes_with_error(next, action, DomainError::SystemError),
        Some(None) => finishes_with_error(next, action, DomainError::AuthenticationError),
        Some(Some(kid)) => match find_key(keys, kid) {
            Some(k) => goes_on_to_verify(next, action, id_token, k, false),
            None => next.phase matches VerifyPhase::FetchingKeys { id_token: t, kid: k } && t == id_token && k@ == kid
                && action is FetchJwks,
        },
    }
}

/// The step of a verification in phase `phase` (with refresh token `refresh_token` and
/// cached keys `keys`) on `event`: its next state and action. An event that the phase
/// does not wait for ends the verification with a system error.
pub open spec fn step_result(
    refresh_token: Option<String>,
    phase: VerifyPhase,
    event: VerifyEvent,
    keys: Seq<Key>,
    next: TokenVerification,
    action: VerifyAction,
) -> bool {
    match phase {
        VerifyPhase::Refreshing => match event {
            VerifyEvent::IdTokenRefreshed(Some(t)) => proceeds_with_token(next, action, t, keys),
            _ => finishes_with_error(next, action, DomainError::SystemError),
        },
        VerifyPhase::FetchingKeys { id_token, kid } => match event {
            VerifyEvent::JwksFetched(Ok(jwks)) => match find_key(jwks.keys@, kid@) {
                Some(k) => goes_on_to_verify(next, action, id_token, k, false),
                None => finishes_with_error(next, action, DomainError::AuthenticationError),
            },
            _ => finishes_with_error(next, action, DomainError::SystemError),
        },
        VerifyPhase::Verifying { id_token, key, retried } => match event {
            VerifyEvent::IdTokenVerified(Ok(claims)) => if claims.token_use@ == "id"@ {
                finishes_with_user(next, action, claims, id_token)
            } else {
                finishes_with_error(next, action, DomainError::AuthenticationError)
            },
            VerifyEvent::IdTokenVerified(Err(TokenError::Expired)) => if !retried && refresh_token is Some {
                next.phase == (VerifyPhase::RefreshingExpired { key })
                    && action == (VerifyAction::RefreshIdToken { refresh_token: refresh_token->Some_0 })
            } else {
                finishes_with_error(next, action, DomainError::AuthenticationExpired)
            },
            _ => finishes_with_error(next, action, DomainError::SystemError),
        },
        VerifyPhase::RefreshingExpired { key } => match event {
            VerifyEvent::IdTokenRefreshed(Some(t)) => goes_on_to_verify(next, action, t, key, true),
            _ => finishes_with_error(next, action, DomainError::SystemError),
        },
        VerifyPhase::Done => finishes_with_error(next, action, DomainError::SystemError),
    }
}

/// The keys cached after a step: the fetched set where keys were fetched, else the same.
pub open spec fn keys_after(phase: VerifyPhase, event: VerifyEvent, keys: Seq<Key>) -> Seq<Key> {
    match (phase, event) {
        (VerifyPhase::FetchingKeys { .. }, VerifyEvent::JwksFetched(Ok(jwks))) => jwks.keys@,
        _ => keys,
    }
}

fn finish_with_error(refresh_token: Option<String>, e: DomainError) -> (r: (TokenVerification, VerifyAction))
    ensures
        r.0.refresh_token == refresh_token,
        finishes_with_error(r.0, r.1, e),
{
    (TokenVerification { refresh_token, phase: VerifyPhase::Done }, VerifyAction::Finish(Err(e)))
}

fn verify_with(refresh_token: Option<String>, id_token: String, key: Key, retried: bool) -> (r: (TokenVerification, VerifyAction))
    ensures
        r.0.refresh_token == refresh_token,
        goes_on_to_verify(r.0, r.1, id_token, key, retried),
{
    (
        TokenVerification {
            refresh_token,
            phase: VerifyPhase::Verifying { id_token: id_token.clone(), key: key.clone(), retried },
        },
        VerifyAction::VerifyIdToken { id_token, key },
    )
}

fn proceed_with_token(refresh_token: Option<String>, id_token: String, cache: &KeyCache) -> (r: (TokenVerification, VerifyAction))
    ensures
        r.0.refresh_token == refresh_token,
        proceeds_with_token(r.0, r.1, id_token, cache.keys@),
{
    match decode_header_kid(id_token.as_str()) {
        None => finish_with_error(refresh_token, DomainError::SystemError),
        Some(None) => finish_with_error(refresh_token, DomainError::AuthenticationError),
        Some(Some(kid)) => match cache.find(kid.as_str()) {
            Some(k) => verify_with(refresh_token, id_token, k, false),
            None => (
                TokenVerification { refresh_token, phase: VerifyPhase::FetchingKeys { id_token, kid } },
                VerifyAction::FetchJwks,
            ),
        },
    }
}

impl TokenVerification {
    /// Starts verifying: with neither token it is an authentication error; a given ID
    /// token is read at once; otherwise an ID token is first obtained with the refresh
    /// token.
    pub fn start(id_token: Option<String>, refresh_token: Option<String>, cache: &KeyCache) -> (r: (TokenVerification, VerifyAction))
        ensures
            r.0.refresh_token == refresh_token,
            id_token is None && refresh_token is None ==> finishes_with_error(r.0, r.1, DomainError::AuthenticationError),
            id_token matches Some(t) ==> proceeds_with_token(r.0, r.1, t, cache.keys@),
            id_token is None ==> (refresh_token matches Some(t) ==> r.0.phase is Refreshing
                && r.1 == (VerifyAction::RefreshIdToken { refresh_token: t })),
    {
        match id_token {
            Some(t) => proceed_with_token(refresh_token, t, cache),
            None => match refresh_token {
                Some(rt) => {
                    let action = VerifyAction::RefreshIdToken { refresh_token: rt.clone() };
                    (TokenVerification { refresh_token: Some(rt), phase: VerifyPhase::Refreshing }, action)
                },
                None => finish_with_error(None, DomainError::AuthenticationError),
            },
        }
    }

    /// One step of the verification: what `event` means in the current phase.
    pub fn step(self, event: VerifyEvent, cache: &mut KeyCache) -> (r: (TokenVerification, VerifyAction))
        ensures
            r.0.refresh_token == self.refresh_token,
            step_result(self.refresh_token, self.phase, event, old(cache).keys@, r.0, r.1),
            final(cache).keys@ == keys_after(self.phase, event, old(cache).keys@),
    {
        let refresh_token = self.refresh_token;
        match self.phase {
            VerifyPhase::Refreshing => match event {
                VerifyEvent::IdTokenRefreshed(Some(t)) => proceed_with_token(refresh_token, t, cache),
                _ => finish_with_error(refresh_token, DomainError::SystemError),
            },
            VerifyPhase::FetchingKeys { id_token, kid } => match event {
                VerifyEvent::JwksFetched(Ok(jwks)) => {
                    cache.replace(jwks.keys);
                    match cache.find(kid.as_str()) {
                        Some(k) => verify_with(refresh_token, id_token, k, false),
                        None => finish_with_error(refresh_token, DomainError::AuthenticationError),
                    }
                },
                VerifyEvent::JwksFetched(Err(e)) => finish_with_error(refresh_token, InfrastructureErrorMapper::to_domain(e)),
                _ => finish_with_error(refresh_token, DomainError::SystemError),
            },
            VerifyPhase::Verifying { id_token, key, retried } => match event {
                VerifyEvent::IdTokenVerified(Ok(claims)) => {
                    if str_equals(claims.token_use.as_str(), "id") {
                        let user = IdpUser::new(claims.sub, claims.email, Vec::new(), Vec::new());
                        (
                            TokenVerification { refresh_token, phase: VerifyPhase::Done },
                            VerifyAction::Finish(Ok((user, id_token))),
                        )
                    } else {
                        finish_with_error(refresh_token, DomainError::AuthenticationError)
                    }
                },
                VerifyEvent::IdTokenVerified(Err(TokenError::Expired)) => match refresh_token {
                    Some(t) if !retried => {
                        let action = VerifyAction::RefreshIdToken { refresh_token: t.clone() };
                        (TokenVerification { refresh_token: Some(t), phase: VerifyPhase::RefreshingExpired { key } }, action)
                    },
                    other => finish_with_error(other, DomainError::AuthenticationExpired),
                },
                _ => finish_with_error(refresh_token, DomainError::SystemError),
            },
            VerifyPhase::RefreshingExpired { key } => match event {
                VerifyEvent::IdTokenRefreshed(Some(t)) => verify_with(refresh_token, t, key, true),
                _ => finish_with_error(refresh_token, DomainError::SystemError),
            },
            VerifyPhase::Done => finish_with_error(refresh_token, DomainError::SystemError),
        }
    }
}

/// How many more actions a verification in `phase` can ask for at most before it finishes.
pub open spec fn phase_rank(phase: VerifyPhase) -> nat {
    match phase {
        VerifyPhase::Done => 0,
        VerifyPhase::Verifying { retried, .. } => if retried { 1 } else { 3 },
        VerifyPhase::RefreshingExpired { .. } => 2,
        VerifyPhase::FetchingKeys { .. } => 4,
        VerifyPhase::Refreshing => 5,
    }
}

/// Every step of an unfinished verification moves it closer to its end, and it asks for
/// no more outside work exactly when it has finished: so a verification finishes after
/// at most five actions, refreshing at most once after an expiry.
pub proof fn lemma_verification_progresses(
    refresh_token: Option<String>,
    phase: VerifyPhase,
    event: VerifyEvent,
    keys: Seq<Key>,
    next: TokenVerification,
    action: VerifyAction,
)
    requires
        step_result(refresh_token, phase, event, keys, next, action),
        !(phase is Done),
    ensures
        phase_rank(next.phase) < phase_rank(phase),
        action is Finish <==> next.phase is Done,
{
}

} // verus!
