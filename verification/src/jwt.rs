//! Signed, time-bound identity tokens: issuing them, and admitting the
//! requests that present one.

use vstd::prelude::*;
use vstd::string::*;
use crate::clock::Timestamp;
use crate::error::{ApiError, ApiErrorType, ApiResult};
use crate::text::{has_prefix, strip_prefix};

verus! {

/// The error of `jsonwebtoken`, carried from the signer to the place where
/// it is reported, without a look inside.
#[verifier::external_type_specification]
#[verifier::external_body]
pub struct ExTokenError(jsonwebtoken::errors::Error);

/// Seconds in an hour.
pub const HOUR: u64 = 3600;

/// What the bearer of a token claims: who they are, when the token was
/// issued and when it stops being valid, in seconds since the Unix epoch.
#[derive(Debug, Clone)]
pub struct Claims {
    pub username: String,
    pub iat: u64,
    pub exp: u64,
}

pub struct ClaimsView {
    pub username: Seq<char>,
    pub iat: u64,
    pub exp: u64,
}

impl View for Claims {
    type V = ClaimsView;

    open spec fn view(&self) -> ClaimsView {
        ClaimsView { username: self.username@, iat: self.iat, exp: self.exp }
    }
}

impl ClaimsView {
    /// Claims expire after they were issued.
    pub open spec fn well_formed(self) -> bool {
        self.exp > self.iat
    }

    /// The claims hold at the time `now`: it lies before their expiry.
    pub open spec fn valid_at(self, now: u64) -> bool {
        now < self.exp
    }
}

/// The token that signing these claims with `secret` gives, or `None` where
/// the signer fails.
pub uninterp spec fn signed_token(username: Seq<char>, iat: u64, exp: u64, secret: Seq<char>) -> Option<
    Seq<char>,
>;

/// The claims (username, issued-at, expiry) that `token` carries, if its
/// signature is valid under `secret` and it holds all three; else `None`.
pub uninterp spec fn verified_claims(token: Seq<char>, secret: Seq<char>) -> Option<
    (Seq<char>, u64, u64),
>;

/// The claims of a token issued at `iat` for `exp_hours` hours, where the
/// lifetime is positive and the expiry fits.
pub open spec fn claims_at(username: Seq<char>, iat: u64, exp_hours: u64) -> Option<ClaimsView> {
    if exp_hours > 0 && iat + exp_hours * HOUR <= u64::MAX {
        Some(ClaimsView { username, iat, exp: (iat + exp_hours * HOUR) as u64 })
    } else {
        None
    }
}

/// The claims a token carries: `verified_claims` as a record.
pub open spec fn token_claims(token: Seq<char>, secret: Seq<char>) -> Option<ClaimsView> {
    match verified_claims(token, secret) {
        Some((username, iat, exp)) => Some(ClaimsView { username, iat, exp }),
        None => None,
    }
}

/// The identity that `token` proves at the time `now`: that of its claims, if
/// it is signed with `secret` and `now` lies before its expiry.
pub open spec fn authenticated(token: Seq<char>, secret: Seq<char>, now: u64) -> Option<Seq<char>> {
    match token_claims(token, secret) {
        Some(c) => if c.valid_at(now) {
            Some(c.username)
        } else {
            None
        },
        None => None,
    }
}

/// The clock's seconds as a token time: `None` before the epoch.
pub open spec fn token_time(now: Timestamp) -> Option<u64> {
    if now.secs >= 0 {
        Some(now.secs as u64)
    } else {
        None
    }
}

/// The clock's seconds as a token time.
pub fn seconds_of(now: &Timestamp) -> (r: Option<u64>)
    ensures
        r == token_time(*now),
{
    if now.secs >= 0 {
        Some(now.secs as u64)
    } else {
        None
    }
}

/// Signs with `jsonwebtoken::encode` under the default header (HS256) and the
/// key `EncodingKey::from_secret`. The claims travel as a JSON object with the
/// members `username`, `iat` and `exp`. The token depends on claims and secret
/// alone and is named `signed_token`; decoding it with the same secret gives
/// the claims back, which is the round trip the crate documents.
#[verifier::external_body]
fn sign(claims: &Claims, secret: &str) -> (r: Result<String, jsonwebtoken::errors::Error>)
    ensures
        r is Err <==> signed_token(claims.username@, claims.iat, claims.exp, secret@) is None,
        r matches Ok(t) ==> signed_token(claims.username@, claims.iat, claims.exp, secret@) == Some(
            t@,
        ) && verified_claims(t@, secret@) == Some((claims.username@, claims.iat, claims.exp)),
{
    let mut payload = serde_json::Map::new();
    payload.insert("username".to_string(), serde_json::Value::from(claims.username.as_str()));
    payload.insert("iat".to_string(), serde_json::Value::from(claims.iat));
    payload.insert("exp".to_string(), serde_json::Value::from(claims.exp));
    let key = jsonwebtoken::EncodingKey::from_secret(secret.as_bytes());
    jsonwebtoken::encode(&jsonwebtoken::Header::default(), &payload, &key)
}

/// Checks the signature with `jsonwebtoken::decode` under the default
/// validation (HS256) with its own expiry test switched off, so that the
/// outcome depends on token and secret alone; it is named `verified_claims`.
/// A token that fails, or lacks one of the three claims, gives `None`.
#[verifier::external_body]
fn verify(token: &str, secret: &str) -> (r: Option<Claims>)
    ensures
        r is None <==> verified_claims(token@, secret@) is None,
        r matches Some(c) ==> verified_claims(token@, secret@) == Some((c.username@, c.iat, c.exp)),
{
    let mut rules = jsonwebtoken::Validation::default();
    rules.validate_exp = false;
    let key = jsonwebtoken::DecodingKey::from_secret(secret.as_bytes());
    let data = jsonwebtoken::decode::<serde_json::Value>(token, &key, &rules).ok()?;
    Some(Claims {
        username: data.claims.get("username")?.as_str()?.to_string(),
        iat: data.claims.get("iat")?.as_u64()?,
        exp: data.claims.get("exp")?.as_u64()?,
    })
}

/// `token` is the token issued to `username` at `now` for `exp_hours` hours:
/// it is the signed form of those claims, carries them, and at any time it
/// is accepted for that user exactly while less than the lifetime has passed
/// since `now`.
pub open spec fn issued(
    token: Seq<char>,
    username: Seq<char>,
    exp_hours: u64,
    secret: Seq<char>,
    now: u64,
) -> bool {
    &&& claims_at(username, now, exp_hours) matches Some(c)
    &&& signed_token(c.username, c.iat, c.exp, secret) == Some(token)
    &&& token_claims(token, secret) == Some(c)
    &&& forall|at: u64|
        #![trigger authenticated(token, secret, at)]
        authenticated(token, secret, at) == if at < now + exp_hours * HOUR {
            Some(username)
        } else {
            None
        }
}

/// The token that is issued to `username` at `now` for `exp_hours` hours, or
/// `None` where there are no such claims or the signer fails.
pub open spec fn token_at(username: Seq<char>, exp_hours: u64, secret: Seq<char>, now: u64) -> Option<
    Seq<char>,
> {
    match claims_at(username, now, exp_hours) {
        Some(c) => signed_token(c.username, c.iat, c.exp, secret),
        None => None,
    }
}

/// An internal error with the message "Failed to create token".
pub open spec fn token_failure(e: ApiError) -> bool {
    e.is(ApiErrorType::Internal, "Failed to create token"@)
}

impl Claims {
    /// Claims issued at `iat` that expire `exp_hours` hours later. There are
    /// none where the lifetime is zero or the expiry does not fit.
    pub fn new_at(username: String, iat: u64, exp_hours: u64) -> (r: Option<Claims>)
        ensures
            r is Some <==> claims_at(username@, iat, exp_hours) is Some,
            r matches Some(c) ==> Some(c@) == claims_at(username@, iat, exp_hours),
            r matches Some(c) ==> c@.well_formed(),
    {
        if exp_hours == 0 {
            return None;
        }
        match exp_hours.checked_mul(HOUR) {
            None => {
                assert(exp_hours * HOUR > u64::MAX);
                None
            },
            Some(lifetime) => match iat.checked_add(lifetime) {
                None => None,
                Some(exp) => Some(Claims { username, iat, exp }),
            },
        }
    }

    /// Claims issued now that expire `exp_hours` hours later. Whatever the
    /// clock says, they are the claims of some time of issue.
    pub fn new(username: String, exp_hours: u64) -> (r: Option<Claims>)
        ensures
            r matches Some(c) ==> c@.well_formed() && exists|iat: u64| #[trigger]
                claims_at(username@, iat, exp_hours) == Some(c@),
    {
        match seconds_of(&Timestamp::now()) {
            Some(iat) => Claims::new_at(username, iat, exp_hours),
            None => None,
        }
    }

    /// A token for `username`, issued at `now` and valid for `exp_hours`
    /// hours. At any time it is accepted exactly while less than that
    /// lifetime has passed since `now`.
    pub fn create_jwt_at(username: String, exp_hours: u64, secret: &str, now: u64) -> (r: ApiResult<
        String,
    >)
        ensures
            match token_at(username@, exp_hours, secret@, now) {
                Some(token) => r matches Ok(t) && t@ == token && issued(
                    token,
                    username@,
                    exp_hours,
                    secret@,
                    now,
                ),
                None => r matches Err(e) && token_failure(e),
            },
    {
        match Claims::new_at(username, now, exp_hours) {
            None => Err(ApiError::new(ApiErrorType::Internal, "Failed to create token".to_string())),
            Some(claims) => match sign(&claims, secret) {
                Ok(token) => Ok(token),
                Err(_) => Err(
                    ApiError::new(ApiErrorType::Internal, "Failed to create token".to_string()),
                ),
            },
        }
    }

    /// A token for `username`, issued now and valid for `exp_hours` hours.
    /// Whatever the clock says, a token handed out is the one issued at some
    /// time, and a failure is the internal error of token creation.
    pub fn create_jwt(username: String, exp_hours: u64, secret: &str) -> (r: ApiResult<String>)
        ensures
            r matches Ok(t) ==> exists|now: u64| #[trigger]
                issued(t@, username@, exp_hours, secret@, now),
            r matches Err(e) ==> token_failure(e),
    {
        match seconds_of(&Timestamp::now()) {
            Some(now) => Claims::create_jwt_at(username, exp_hours, secret, now),
            None => Err(ApiError::new(ApiErrorType::Internal, "Failed to create token".to_string())),
        }
    }
}

/// Why a request was not authenticated.
#[derive(Debug, Clone, Copy, PartialEq, Eq, Structural)]
pub enum AuthError {
    /// No `Authorization: Bearer` header came with the request.
    MissingToken,
    /// The token is malformed, not signed with the server's secret, or expired.
    InvalidToken,
}

impl AuthError {
    pub open spec fn spec_message(self) -> Seq<char> {
        match self {
            AuthError::MissingToken => "Missing token"@,
            AuthError::InvalidToken => "Invalid token"@,
        }
    }

    pub fn message(&self) -> (m: &'static str)
        ensures
            m@ == self.spec_message(),
    {
        match self {
            AuthError::MissingToken => "Missing token",
            AuthError::InvalidToken => "Invalid token",
        }
    }

    /// HTTP status of an unauthenticated request.
    pub fn status_code(&self) -> (s: u16)
        ensures
            s == 401,
    {
        401
    }
}

/// The acting identity of an authenticated request.
#[derive(Debug, Clone)]
pub struct ClaimsValidator {
    pub username: String,
}

/// The characters of a header value that may be absent.
pub open spec fn header_text(header: Option<&str>) -> Option<Seq<char>> {
    match header {
        Some(h) => Some(h@),
        None => None,
    }
}

/// The token that an `Authorization` header carries after "Bearer ".
pub open spec fn bearer(header: Option<Seq<char>>) -> Option<Seq<char>> {
    match header {
        Some(h) => if has_prefix(h, "Bearer "@) {
            Some(h.subrange("Bearer "@.len() as int, h.len() as int))
        } else {
            None
        },
        None => None,
    }
}

/// Who a request with this `Authorization` header is admitted as at the time
/// `now`, or why it is turned away.
pub open spec fn admission(header: Option<Seq<char>>, secret: Seq<char>, now: u64) -> Result<
    Seq<char>,
    AuthError,
> {
    match bearer(header) {
        None => Err(AuthError::MissingToken),
        Some(token) => match authenticated(token, secret, now) {
            Some(username) => Ok(username),
            None => Err(AuthError::InvalidToken),
        },
    }
}

impl ClaimsValidator {
    /// Accepts the bearer of verified claims at the time `now`: there must be
    /// claims, and `now` must lie before their expiry.
    pub fn accept(claims: Option<Claims>, now: u64) -> (r: Result<ClaimsValidator, AuthError>)
        ensures
            match claims {
                Some(c) => if c@.valid_at(now) {
                    r matches Ok(v) && v.username@ == c.username@
                } else {
                    r == Err::<ClaimsValidator, AuthError>(AuthError::InvalidToken)
                },
                None => r == Err::<ClaimsValidator, AuthError>(AuthError::InvalidToken),
            },
    {
        match claims {
            Some(c) => if now < c.exp {
                Ok(ClaimsValidator { username: c.username })
            } else {
                Err(AuthError::InvalidToken)
            },
            None => Err(AuthError::InvalidToken),
        }
    }

    /// Authenticates a token at the time `now`: it must be signed with
    /// `secret` and `now` must lie before its expiry.
    pub fn authenticate_at(token: &str, secret: &str, now: u64) -> (r: Result<
        ClaimsValidator,
        AuthError,
    >)
        ensures
            r is Ok <==> authenticated(token@, secret@, now) is Some,
            r matches Ok(v) ==> Some(v.username@) == authenticated(token@, secret@, now),
            r matches Err(e) ==> e == AuthError::InvalidToken,
    {
        ClaimsValidator::accept(verify(token, secret), now)
    }

    /// Admits a protected request at the time `now`, on the value of its
    /// `Authorization` header.
    pub fn from_request_at(header: Option<&str>, secret: &str, now: u64) -> (r: Result<
        ClaimsValidator,
        AuthError,
    >)
        ensures
            match admission(header_text(header), secret@, now) {
                Ok(username) => r matches Ok(v) && v.username@ == username,
                Err(e) => r == Err::<ClaimsValidator, AuthError>(e),
            },
    {
        match header {
            None => Err(AuthError::MissingToken),
            Some(h) => match strip_prefix(h, "Bearer ") {
                None => Err(AuthError::MissingToken),
                Some(token) => ClaimsValidator::authenticate_at(token, secret, now),
            },
        }
    }

    /// Admits a protected request at the current time. Whatever the
    /// clock says, a request without a bearer token is told so, and an
    /// identity is only granted to a token that carries it under `secret`.
    pub fn from_request(header: Option<&str>, secret: &str) -> (r: Result<ClaimsValidator, AuthError>)
        ensures
            bearer(header_text(header)) is None <==> r == Err::<ClaimsValidator, AuthError>(
                AuthError::MissingToken,
            ),
            r matches Ok(v) ==> exists|now: u64| #[trigger]
                admission(header_text(header), secret@, now) == Ok::<Seq<char>, AuthError>(
                    v.username@,
                ),
    {
        match seconds_of(&Timestamp::now()) {
            Some(now) => ClaimsValidator::from_request_at(header, secret, now),
            None => match header {
                None => Err(AuthError::MissingToken),
                Some(h) => match strip_prefix(h, "Bearer ") {
                    None => Err(AuthError::MissingToken),
                    Some(_) => Err(AuthError::InvalidToken),
                },
            },
        }
    }
}

} // verus!
