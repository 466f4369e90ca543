//! Salted one-way password hashes, computed and checked by Argon2.

use vstd::prelude::*;
use vstd::string::*;
use argon2::password_hash::{PasswordHasher, PasswordVerifier};
use crate::error::{ApiError, ApiErrorType, ApiResult};
use crate::text::has_prefix;

verus! {

/// The error of the `password_hash` traits that Argon2 implements, carried
/// from the hasher to the place where it is reported, without a look inside.
#[verifier::external_type_specification]
#[verifier::external_body]
pub struct ExPasswordHashError(argon2::password_hash::Error);

/// What Argon2 answers when `password` is checked against the stored hash
/// `hash`: `None` where the hash is no PHC string, else whether they match.
pub uninterp spec fn password_check(password: Seq<char>, hash: Seq<char>) -> Option<bool>;

/// Hashes with `Argon2::default().hash_password` under a fresh random salt
/// (`SaltString::generate`). The hash differs from call to call; what holds of
/// every hash that comes back is that the same password verifies against it.
#[verifier::external_body]
fn hash(password: &str) -> (r: Result<String, argon2::password_hash::Error>)
    ensures
        r matches Ok(h) ==> password_check(password@, h@) == Some(true),
{
    let salt = argon2::password_hash::SaltString::generate(&mut argon2::password_hash::rand_core::OsRng);
    Ok(argon2::Argon2::default().hash_password(password.as_bytes(), &salt)?.to_string())
}

/// Parses the stored hash with `PasswordHash::new` and checks the password
/// with `Argon2::default().verify_password`. Both depend on the two strings
/// alone; the outcome is named `password_check`. An error means that the
/// stored hash did not parse.
#[verifier::external_body]
fn verify(password: &str, hash: &str) -> (r: Result<bool, argon2::password_hash::Error>)
    ensures
        r is Err <==> password_check(password@, hash@) is None,
        r matches Ok(b) ==> password_check(password@, hash@) == Some(b),
{
    let parsed = argon2::password_hash::PasswordHash::new(hash)?;
    Ok(argon2::Argon2::default().verify_password(password.as_bytes(), &parsed).is_ok())
}

/// The text of an Argon2 error, as its `Display` gives it.
#[verifier::external_body]
fn describe(error: &argon2::password_hash::Error) -> String {
    format!("{}", error)
}

/// The internal error that reports a failure of the hasher.
fn hasher_failure(error: &argon2::password_hash::Error) -> (e: ApiError)
    ensures
        hasher_error(e),
{
    let detail = describe(error);
    let message = "Argon2 error: ".to_string().concat(detail.as_str());
    assert(message@.subrange(0, "Argon2 error: "@.len() as int) =~= "Argon2 error: "@);
    ApiError::new(ApiErrorType::Internal, message)
}

/// An internal error whose message starts with "Argon2 error: ".
pub open spec fn hasher_error(e: ApiError) -> bool {
    e.error_type == ApiErrorType::Internal && has_prefix(e.message@, "Argon2 error: "@)
}

/// A fresh salted hash of `password`, or the internal error of the hasher.
pub fn hash_password(password: &str) -> (r: ApiResult<String>)
    ensures
        r matches Ok(h) ==> password_check(password@, h@) == Some(true),
        r matches Err(e) ==> hasher_error(e),
{
    match hash(password) {
        Ok(h) => Ok(h),
        Err(e) => Err(hasher_failure(&e)),
    }
}

/// Whether `password` matches the stored hash; an internal error where the
/// stored hash cannot be read.
pub fn verify_password(password: &str, hash: &str) -> (r: ApiResult<bool>)
    ensures
        r matches Ok(b) ==> password_check(password@, hash@) == Some(b),
        r matches Err(e) ==> password_check(password@, hash@) is None && hasher_error(e),
{
    match verify(password, hash) {
        Ok(b) => Ok(b),
        Err(e) => Err(hasher_failure(&e)),
    }
}

/// What a password check means for a request: a match lets it pass, a
/// mismatch is an invalid request with the message `mismatch`, and an
/// unreadable stored hash is the internal error `unreadable`.
pub fn password_verdict(check: ApiResult<bool>, mismatch: &str) -> (r: ApiResult<()>)
    ensures
        match check {
            Ok(true) => r is Ok,
            Ok(false) => r matches Err(e) && e.is(ApiErrorType::InvalidRequest, mismatch@),
            Err(unreadable) => r == Err::<(), ApiError>(unreadable),
        },
{
    match check {
        Ok(true) => Ok(()),
        Ok(false) => Err(ApiError::new(ApiErrorType::InvalidRequest, mismatch.to_string())),
        Err(e) => Err(e),
    }
}

} // verus!
