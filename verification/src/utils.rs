//! Shape rules for usernames, email addresses and passwords.

use vstd::prelude::*;
use vstd::string::*;
use crate::error::{ApiError, ApiErrorType, ApiResult};
use crate::text::{ends_with, has_suffix};

verus! {

pub const MAX_USERNAME: usize = 32;

pub const MAX_EMAIL: usize = 64;

pub const MAX_PASSWORD: usize = 64;

pub const MIN_PASSWORD: usize = 8;

/// What `fast_chemail::is_valid_email` answers for an address.
pub uninterp spec fn email_syntax_ok(address: Seq<char>) -> bool;

/// A username has between 1 and 32 characters.
pub open spec fn valid_username(username: Seq<char>) -> bool {
    1 <= username.len() <= MAX_USERNAME
}

/// A password has between 8 and 64 characters.
pub open spec fn valid_password(password: Seq<char>) -> bool {
    MIN_PASSWORD <= password.len() <= MAX_PASSWORD
}

/// An address of 1 to 64 characters for which the syntax check answered `syntax_ok`.
pub open spec fn valid_email_given(email: Seq<char>, syntax_ok: bool) -> bool {
    1 <= email.len() <= MAX_EMAIL && syntax_ok
}

/// An address of 1 to 64 characters that passes the syntax check.
pub open spec fn valid_email(email: Seq<char>) -> bool {
    valid_email_given(email, email_syntax_ok(email))
}

/// The address lies in one of the two institutional domains.
pub open spec fn institutional(email: Seq<char>) -> bool {
    has_suffix(email, "@mails.tsinghua.edu.cn"@) || has_suffix(email, "@tsinghua.edu.cn"@)
}

/// An address accepted for self-service registration.
pub open spec fn valid_email_tsinghua(email: Seq<char>) -> bool {
    valid_email(email) && institutional(email)
}

/// Calls `fast_chemail::is_valid_email`, which parses the address by the rules
/// of the HTML specification and does nothing else; the answer is a function
/// of the address alone and is named `email_syntax_ok`.
#[verifier::external_body]
fn is_valid_email(address: &str) -> (ok: bool)
    ensures
        ok == email_syntax_ok(address@),
{
    fast_chemail::is_valid_email(address)
}

pub fn check_username(username: &str) -> (r: ApiResult<()>)
    ensures
        r is Ok <==> valid_username(username@),
        r matches Err(e) ==> e.is(ApiErrorType::InvalidRequest, "Invalid username"@),
{
    let n: usize = username.unicode_len();
    if n > MAX_USERNAME || n == 0 {
        return Err(ApiError::new(ApiErrorType::InvalidRequest, "Invalid username".to_string()));
    }
    Ok(())
}

/// The email rule, given the answer of the syntax check for `email`.
pub fn check_email_with(email: &str, syntax_ok: bool) -> (r: ApiResult<()>)
    ensures
        r is Ok <==> valid_email_given(email@, syntax_ok),
        r matches Err(e) ==> e.is(ApiErrorType::InvalidRequest, "Invalid email"@),
{
    let n: usize = email.unicode_len();
    if n > MAX_EMAIL || n == 0 {
        return Err(ApiError::new(ApiErrorType::InvalidRequest, "Invalid email".to_string()));
    }
    if !syntax_ok {
        return Err(ApiError::new(ApiErrorType::InvalidRequest, "Invalid email".to_string()));
    }
    Ok(())
}

pub fn check_email(email: &str) -> (r: ApiResult<()>)
    ensures
        r is Ok <==> valid_email(email@),
        r matches Err(e) ==> e.is(ApiErrorType::InvalidRequest, "Invalid email"@),
{
    check_email_with(email, is_valid_email(email))
}

/// The domain rule of self-service registration.
pub fn check_institutional(email: &str) -> (r: ApiResult<()>)
    ensures
        r is Ok <==> institutional(email@),
        r matches Err(e) ==> e.is(ApiErrorType::InvalidRequest, "Invalid email"@),
{
    if !ends_with(email, "@mails.tsinghua.edu.cn") && !ends_with(email, "@tsinghua.edu.cn") {
        return Err(ApiError::new(ApiErrorType::InvalidRequest, "Invalid email".to_string()));
    }
    Ok(())
}

pub fn check_email_tsinghua(email: &str) -> (r: ApiResult<()>)
    ensures
        r is Ok <==> valid_email_tsinghua(email@),
        r matches Err(e) ==> e.is(ApiErrorType::InvalidRequest, "Invalid email"@),
{
    match check_email(email) {
        Err(e) => Err(e),
        Ok(()) => check_institutional(email),
    }
}

pub fn check_password(password: &str) -> (r: ApiResult<()>)
    ensures
        r is Ok <==> valid_password(password@),
        r matches Err(e) ==> e.is(ApiErrorType::InvalidRequest, "Invalid password"@),
{
    let n: usize = password.unicode_len();
    if n > MAX_PASSWORD || n < MIN_PASSWORD {
        return Err(ApiError::new(ApiErrorType::InvalidRequest, "Invalid password".to_string()));
    }
    Ok(())
}

} // verus!
