//! Login: a correct password is answered with a token valid for 12 hours.

use vstd::prelude::*;
use vstd::string::*;
use crate::clock::Timestamp;
use crate::db::{Store, position_by_username};
use crate::error::{ApiError, ApiErrorType, ApiResult};
use crate::jwt::{Claims, issued, seconds_of, token_at, token_failure};
use crate::model::{Account, AccountView, by_username};
use crate::password::{hasher_error, password_check, password_verdict, verify_password};
use crate::seqs::{find_one, views};

verus! {

#[derive(Debug, Clone)]
pub struct LoginRequest {
    pub username: String,
    pub password: String,
}

#[derive(Debug, Clone)]
pub struct LoginResponse {
    pub token: String,
}

/// Hours a login token stays valid.
pub const LOGIN_HOURS: u64 = 12;

/// Why a username and password are not accepted.
pub enum Refusal {
    /// No account has the username.
    UnknownUser,
    /// The stored password hash cannot be read.
    UnreadableHash,
    /// The password does not match the stored hash.
    WrongPassword,
}

/// Why `password` is not accepted for `username` among `accounts`, if it is
/// not: the first account of that name decides.
pub open spec fn refusal(accounts: Seq<AccountView>, username: Seq<char>, password: Seq<char>) -> Option<
    Refusal,
> {
    match find_one(accounts, by_username(username)) {
        None => Some(Refusal::UnknownUser),
        Some(account) => match password_check(password, account.password) {
            None => Some(Refusal::UnreadableHash),
            Some(false) => Some(Refusal::WrongPassword),
            Some(true) => None,
        },
    }
}

/// The error `e` reports the refusal `why`, with the given messages for an
/// unknown user and for a wrong password.
pub open spec fn reports(e: ApiError, why: Refusal, unknown: Seq<char>, mismatch: Seq<char>) -> bool {
    match why {
        Refusal::UnknownUser => e.is(ApiErrorType::InvalidRequest, unknown),
        Refusal::UnreadableHash => hasher_error(e),
        Refusal::WrongPassword => e.is(ApiErrorType::InvalidRequest, mismatch),
    }
}

/// Checks a username and password against a collection of accounts.
pub fn check_credentials(
    accounts: &Vec<Account>,
    username: &str,
    password: &str,
    unknown: &str,
    mismatch: &str,
) -> (r: ApiResult<()>)
    ensures
        match refusal(views(accounts@), username@, password@) {
            Some(why) => r matches Err(e) && reports(e, why, unknown@, mismatch@),
            None => r is Ok,
        },
{
    let i = position_by_username(accounts, &username.to_string());
    if i >= accounts.len() {
        return Err(ApiError::new(ApiErrorType::InvalidRequest, unknown.to_string()));
    }
    password_verdict(verify_password(password, accounts[i].password.as_str()), mismatch)
}

/// What a login of accepted credentials at the time `now` is answered
/// with: the token issued to the user at `now` for 12 hours, or the internal
/// error of token creation.
pub open spec fn token_answer(
    r: ApiResult<LoginResponse>,
    username: Seq<char>,
    secret: Seq<char>,
    now: u64,
) -> bool {
    match token_at(username, LOGIN_HOURS, secret, now) {
        Some(token) => r matches Ok(out) && out.token@ == token && issued(
            token,
            username,
            LOGIN_HOURS,
            secret,
            now,
        ),
        None => r matches Err(e) && token_failure(e),
    }
}

fn login_in(
    accounts: &Vec<Account>,
    req: &LoginRequest,
    secret: &str,
    now: u64,
    unknown: &str,
    mismatch: &str,
) -> (r: ApiResult<LoginResponse>)
    ensures
        match refusal(views(accounts@), req.username@, req.password@) {
            Some(why) => r matches Err(e) && reports(e, why, unknown@, mismatch@),
            None => token_answer(r, req.username@, secret@, now),
        },
{
    match check_credentials(accounts, req.username.as_str(), req.password.as_str(), unknown, mismatch) {
        Err(e) => {
            return Err(e);
        },
        Ok(()) => {},
    }
    match Claims::create_jwt_at(req.username.clone(), LOGIN_HOURS, secret, now) {
        Ok(token) => Ok(LoginResponse { token }),
        Err(e) => Err(e),
    }
}

fn login_before_the_epoch(accounts: &Vec<Account>, req: &LoginRequest, unknown: &str, mismatch: &str) -> (r:
    ApiResult<LoginResponse>)
    ensures
        match refusal(views(accounts@), req.username@, req.password@) {
            Some(why) => r matches Err(e) && reports(e, why, unknown@, mismatch@),
            None => r matches Err(e) && token_failure(e),
        },
{
    match check_credentials(accounts, req.username.as_str(), req.password.as_str(), unknown, mismatch) {
        Err(e) => Err(e),
        Ok(()) => Err(ApiError::new(ApiErrorType::Internal, "Failed to create token".to_string())),
    }
}

/// Login of a user at the time `now` (seconds since the epoch). The token
/// handed out is accepted for that user at any time before `now` plus 12
/// hours, and at no time from then on.
pub fn login_at(db: &Store, req: &LoginRequest, secret: &str, now: u64) -> (r: ApiResult<LoginResponse>)
    ensures
        match refusal(db@.users, req.username@, req.password@) {
            Some(why) => r matches Err(e) && reports(e, why, "User not found"@, "Invalid password"@),
            None => token_answer(r, req.username@, secret@, now),
        },
{
    login_in(&db.users, req, secret, now, "User not found", "Invalid password")
}

/// Login of an administrator at the time `now`. An unknown name and a wrong
/// password are answered with the same error.
pub fn admin_login_at(db: &Store, req: &LoginRequest, secret: &str, now: u64) -> (r: ApiResult<
    LoginResponse,
>)
    ensures
        match refusal(db@.admins, req.username@, req.password@) {
            Some(why) => r matches Err(e) && reports(e, why, "Error"@, "Error"@),
            None => token_answer(r, req.username@, secret@, now),
        },
{
    login_in(&db.admins, req, secret, now, "Error", "Error")
}

/// Login of a user now. Whatever the clock says, a refusal is reported as
/// in `login_at`, a token handed out is the one issued at some time for 12
/// hours, and a failure is the internal error of token creation.
pub fn login(db: &Store, req: &LoginRequest, secret: &str) -> (r: ApiResult<LoginResponse>)
    ensures
        match refusal(db@.users, req.username@, req.password@) {
            Some(why) => r matches Err(e) && reports(e, why, "User not found"@, "Invalid password"@),
            None => match r {
                Ok(out) => exists|now: u64| #[trigger]
                    issued(out.token@, req.username@, LOGIN_HOURS, secret@, now),
                Err(e) => token_failure(e),
            },
        },
{
    match seconds_of(&Timestamp::now()) {
        Some(now) => login_at(db, req, secret, now),
        None => login_before_the_epoch(&db.users, req, "User not found", "Invalid password"),
    }
}

/// Login of an administrator now.
pub fn admin_login(db: &Store, req: &LoginRequest, secret: &str) -> (r: ApiResult<LoginResponse>)
    ensures
        match refusal(db@.admins, req.username@, req.password@) {
            Some(why) => r matches Err(e) && reports(e, why, "Error"@, "Error"@),
            None => match r {
                Ok(out) => exists|now: u64| #[trigger]
                    issued(out.token@, req.username@, LOGIN_HOURS, secret@, now),
                Err(e) => token_failure(e),
            },
        },
{
    match seconds_of(&Timestamp::now()) {
        Some(now) => admin_login_at(db, req, secret, now),
        None => login_before_the_epoch(&db.admins, req, "Error", "Error"),
    }
}

} // verus!
