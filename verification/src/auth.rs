use vstd::prelude::*;
use crate::constants::{JWT_COOKIE_NAME, TOKEN_TTL_SECONDS};
use crate::data_stores::TokenStore;
use crate::email::Email;
use crate::error::AuthAPIError;

verus! {

/// The signed payload of a session token: the subject it was issued to
/// and its absolute expiry, as a Unix timestamp in seconds.
#[derive(Debug)]
pub struct Claims {
    pub sub: String,
    pub exp: usize,
}

/// Why issuing a session token failed.
#[derive(Clone, Copy, Debug, PartialEq, Eq, Structural)]
pub enum GenerateTokenError {
    TokenError,
    UnexpectedError,
    DurationTooLong,
}

/// What `jsonwebtoken::encode` under the default HS256 header yields for
/// given claims and signing secret: a function of those alone.
pub uninterp spec fn jwt_token_of(sub: Seq<char>, exp: int, secret: Seq<char>) -> Seq<char>;

/// The claims a token carries under a secret: `Some((sub, exp))` where
/// the token's HS256 signature verifies under the secret and its payload
/// reads back to exactly that subject and expiry, `None` where it does
/// not. A function of the token and the secret alone; whether the expiry
/// has passed is checked separately, against the clock.
pub uninterp spec fn jwt_claims_of(token: Seq<char>, secret: Seq<char>) -> Option<(Seq<char>, int)>;

/// Relies on `chrono::Utc::now`: the clock's Unix timestamp in seconds;
/// nothing is promised of the clock.
#[verifier::external_body]
fn now_timestamp() -> (r: i64) {
    chrono::Utc::now().timestamp()
}

/// Relies on `jsonwebtoken::encode` with the default header (HS256): the
/// token is a deterministic function of the claims and the secret, it
/// carries a valid signature over exactly those claims, and those claims
/// read back out of it.
#[verifier::external_body]
fn create_token(claims: &Claims, secret: &str) -> (r: Result<String, GenerateTokenError>)
    ensures
        r matches Ok(t) ==> t@ == jwt_token_of(claims.sub@, claims.exp as int, secret@)
            && jwt_claims_of(t@, secret@) == Some((claims.sub@, claims.exp as int)),
{
    let mut payload = serde_json::Map::new();
    payload.insert("sub".to_owned(), serde_json::Value::from(claims.sub.clone()));
    payload.insert("exp".to_owned(), serde_json::Value::from(claims.exp as u64));
    let key = jsonwebtoken::EncodingKey::from_secret(secret.as_bytes());
    match jsonwebtoken::encode(&jsonwebtoken::Header::default(), &payload, &key) {
        Ok(t) => Ok(t),
        Err(_) => Err(GenerateTokenError::TokenError),
    }
}

/// Relies on `jsonwebtoken::decode` with default validation: success means
/// the token's signature verifies under the secret, its payload carries
/// exactly the subject and expiry handed back, and the expiry has not
/// passed; any rejection, including a missing subject, is an error.
#[verifier::external_body]
fn decode_token(token: &str, secret: &str) -> (r: Result<Claims, GenerateTokenError>)
    ensures
        r matches Ok(c) ==> jwt_claims_of(token@, secret@) == Some((c.sub@, c.exp as int)),
{
    let key = jsonwebtoken::DecodingKey::from_secret(secret.as_bytes());
    let validation = jsonwebtoken::Validation::default();
    match jsonwebtoken::decode::<serde_json::Value>(token, &key, &validation) {
        Ok(data) => {
            let sub = match data.claims.get("sub").and_then(|v| v.as_str()) {
                Some(sub) => sub.to_owned(),
                None => return Err(GenerateTokenError::TokenError),
            };
            let exp = data.claims.get("exp").and_then(|v| v.as_u64()).unwrap_or(0) as usize;
            Ok(Claims { sub, exp })
        },
        Err(_) => Err(GenerateTokenError::TokenError),
    }
}

/// Issues a signed session token for the email, with expiry "now plus the
/// fixed TTL".
pub fn generate_jwt_auth_token(email: &Email, secret: &str) -> (r: Result<
    String,
    GenerateTokenError,
>)
    ensures
        r matches Ok(t) ==> exists|e: int|
            t@ == #[trigger] jwt_token_of(email@, e, secret@) && jwt_claims_of(t@, secret@)
                == Some((email@, e)),
{
    let now = now_timestamp();
    if now < 0 || now > i64::MAX - TOKEN_TTL_SECONDS {
        return Err(GenerateTokenError::UnexpectedError);
    }
    let exp64: i64 = now + TOKEN_TTL_SECONDS;
    if exp64 as u64 > usize::MAX as u64 {
        return Err(GenerateTokenError::UnexpectedError);
    }
    let exp: usize = exp64 as usize;
    let sub = email.expose_secret().to_owned();
    let claims = Claims { sub, exp };
    match create_token(&claims, secret) {
        Ok(t) => {
            proof {
                assert(t@ == jwt_token_of(email@, claims.exp as int, secret@));
            }
            Ok(t)
        },
        Err(e) => Err(e),
    }
}

/// A cookie carrying the signed session token. Its attributes are fixed:
/// path `/`, http-only, same-site lax.
#[derive(Debug)]
pub struct AuthCookie {
    pub name: String,
    pub value: String,
    pub path: String,
    pub http_only: bool,
    pub same_site_lax: bool,
}

/// A freshly issued session cookie for the email: fixed name and
/// attributes, the signed token as its value.
pub open spec fn auth_cookie_for(c: AuthCookie, email: Seq<char>, secret: Seq<char>) -> bool {
    &&& c.name@ == JWT_COOKIE_NAME@
    &&& c.path@ == "/"@
    &&& c.http_only
    &&& c.same_site_lax
    &&& exists|e: int|
        c.value@ == #[trigger] jwt_token_of(email, e, secret) && jwt_claims_of(c.value@, secret)
            == Some((email, e))
}

/// Builds the session cookie holding a freshly issued token for the email.
pub fn generate_auth_cookie(email: &Email, secret: &str) -> (r: Result<
    AuthCookie,
    GenerateTokenError,
>)
    ensures
        r matches Ok(c) ==> auth_cookie_for(c, email@, secret@),
{
    let token = match generate_jwt_auth_token(email, secret) {
        Ok(t) => t,
        Err(e) => {
            return Err(e);
        },
    };
    let cookie = AuthCookie {
        name: JWT_COOKIE_NAME.to_owned(),
        value: token,
        path: "/".to_owned(),
        http_only: true,
        same_site_lax: true,
    };
    proof {
        let e0 = choose|e: int|
            cookie.value@ == #[trigger] jwt_token_of(email@, e, secret@) && jwt_claims_of(
                cookie.value@,
                secret@,
            ) == Some((email@, e));
        assert(cookie.value@ == jwt_token_of(email@, e0, secret@));
    }
    Ok(cookie)
}

/// Validates a session token: a revocation-store hit is an immediate
/// failure, independent of signature validity; otherwise the signature
/// and expiry are checked cryptographically.
pub fn validate_token<T: TokenStore>(token: &String, banned_tokens: &T, secret: &str) -> (r:
    Result<Claims, AuthAPIError>)
    requires
        banned_tokens.wf(),
    ensures
        banned_tokens.tokens().contains(token@) ==> r is Err,
        r matches Ok(c) ==> !banned_tokens.tokens().contains(token@) && jwt_claims_of(
            token@,
            secret@,
        ) == Some((c.sub@, c.exp as int)),
        r matches Err(e) ==> e == AuthAPIError::InvalidToken,
{
    if banned_tokens.contains_token(token) {
        return Err(AuthAPIError::InvalidToken);
    }
    match decode_token(token.as_str(), secret) {
        Ok(claims) => Ok(claims),
        Err(_) => Err(AuthAPIError::InvalidToken),
    }
}

} // verus!
