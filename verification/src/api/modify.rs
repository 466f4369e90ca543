//! Changes an active user makes to the own account: a new name, a new
//! password, or its removal.

use vstd::prelude::*;
use vstd::string::*;
use crate::api::login::{check_credentials, refusal, reports};
use crate::db::{Store, Write, WriteView, check_admin_exists, check_user_exists};
use crate::error::{ApiError, ApiErrorType, ApiResult};
use crate::jwt::ClaimsValidator;
use crate::password::{hash_password, password_check};
use crate::seqs::{find_one, update_one};
use crate::utils::{check_password, check_username, valid_password, valid_username};

verus! {

#[derive(Debug, Clone)]
pub struct ModifyUsernameRequest {
    pub new_username: String,
    pub password: String,
}

#[derive(Debug, Clone)]
pub struct ModifyPasswordRequest {
    pub current_password: String,
    pub new_password: String,
}

#[derive(Debug, Clone)]
pub struct ModifyResponse {
    pub status: String,
}

fn success() -> (r: ModifyResponse)
    ensures
        r.status@ == "success"@,
{
    ModifyResponse { status: "success".to_string() }
}

/// The user `user` takes the name `req.new_username`. The new name must
/// have a valid shape and be free among users and administrators, and the
/// password must match; a refusal changes nothing.
pub fn modify_username(db: &mut Store, user: &ClaimsValidator, req: &ModifyUsernameRequest) -> (r:
    ApiResult<ModifyResponse>)
    ensures
        r is Err ==> final(db)@ == old(db)@,
        if !valid_username(req.new_username@) {
            r matches Err(e) && e.is(ApiErrorType::InvalidRequest, "Invalid username"@)
        } else if old(db)@.username_taken(req.new_username@) {
            r matches Err(e) && e.is(ApiErrorType::InvalidRequest, "Username already exists"@)
        } else {
            match refusal(old(db)@.users, user.username@, req.password@) {
                Some(why) => r matches Err(e) && reports(
                    e,
                    why,
                    "User not found"@,
                    "Invalid password"@,
                ),
                None => {
                    &&& r matches Ok(out)
                    &&& out.status@ == "success"@
                    &&& final(db)@ == old(db)@.apply(
                        WriteView::RenameUser {
                            username: user.username@,
                            new_username: req.new_username@,
                        },
                    )
                },
            }
        },
{
    match check_username(req.new_username.as_str()) {
        Err(e) => {
            return Err(e);
        },
        Ok(()) => {},
    }
    if check_user_exists(db, req.new_username.as_str()) || check_admin_exists(
        db,
        req.new_username.as_str(),
    ) {
        return Err(
            ApiError::new(ApiErrorType::InvalidRequest, "Username already exists".to_string()),
        );
    }
    match check_credentials(
        &db.users,
        user.username.as_str(),
        req.password.as_str(),
        "User not found",
        "Invalid password",
    ) {
        Err(e) => {
            return Err(e);
        },
        Ok(()) => {},
    }
    db.apply(
        Write::RenameUser { username: user.username.clone(), new_username: req.new_username.clone() },
    );
    Ok(success())
}

fn modify_password_check(db: &Store, user: &ClaimsValidator, req: &ModifyPasswordRequest) -> (r:
    ApiResult<()>)
    ensures
        if !valid_password(req.new_password@) {
            r matches Err(e) && e.is(ApiErrorType::InvalidRequest, "Invalid password"@)
        } else {
            match refusal(db@.users, user.username@, req.current_password@) {
                Some(why) => r matches Err(e) && reports(
                    e,
                    why,
                    "User not found"@,
                    "Invalid current password"@,
                ),
                None => r is Ok,
            }
        },
{
    match check_password(req.new_password.as_str()) {
        Err(e) => {
            return Err(e);
        },
        Ok(()) => {},
    }
    check_credentials(
        &db.users,
        user.username.as_str(),
        req.current_password.as_str(),
        "User not found",
        "Invalid current password",
    )
}

/// The user `user` replaces the own password, `password_hash` being the
/// hash to store for the new one. The new password must have a valid shape
/// and the current one must match; a refusal changes nothing.
pub fn modify_password_with(
    db: &mut Store,
    user: &ClaimsValidator,
    req: &ModifyPasswordRequest,
    password_hash: &str,
) -> (r: ApiResult<ModifyResponse>)
    ensures
        r is Err ==> final(db)@ == old(db)@,
        if !valid_password(req.new_password@) {
            r matches Err(e) && e.is(ApiErrorType::InvalidRequest, "Invalid password"@)
        } else {
            match refusal(old(db)@.users, user.username@, req.current_password@) {
                Some(why) => r matches Err(e) && reports(
                    e,
                    why,
                    "User not found"@,
                    "Invalid current password"@,
                ),
                None => {
                    &&& r matches Ok(out)
                    &&& out.status@ == "success"@
                    &&& final(db)@ == old(db)@.apply(
                        WriteView::SetPassword {
                            username: user.username@,
                            password: password_hash@,
                        },
                    )
                },
            }
        },
{
    match modify_password_check(db, user, req) {
        Err(e) => {
            return Err(e);
        },
        Ok(()) => {},
    }
    db.apply(
        Write::SetPassword { username: user.username.clone(), password: password_hash.to_string() },
    );
    Ok(success())
}

/// The user `user` replaces the own password; the new one is hashed under a
/// fresh salt. A refusal is reported as in `modify_password_with`; a failure
/// of the hasher is an internal error; both change nothing. On success the
/// stored hash is one that the new password verifies against.
pub fn modify_password(db: &mut Store, user: &ClaimsValidator, req: &ModifyPasswordRequest) -> (r:
    ApiResult<ModifyResponse>)
    ensures
        r is Err ==> final(db)@ == old(db)@,
        if !valid_password(req.new_password@) {
            r matches Err(e) && e.is(ApiErrorType::InvalidRequest, "Invalid password"@)
        } else {
            match refusal(old(db)@.users, user.username@, req.current_password@) {
                Some(why) => r matches Err(e) && reports(
                    e,
                    why,
                    "User not found"@,
                    "Invalid current password"@,
                ),
                None => match r {
                    Err(e) => e.error_type == ApiErrorType::Internal,
                    Ok(out) => {
                        &&& out.status@ == "success"@
                        &&& exists|hash: Seq<char>|
                            #![trigger password_check(req.new_password@, hash)]
                            password_check(req.new_password@, hash) == Some(true) && final(db)@
                                == old(db)@.apply(
                                WriteView::SetPassword { username: user.username@, password: hash },
                            )
                    },
                },
            }
        },
{
    match modify_password_check(db, user, req) {
        Err(e) => {
            return Err(e);
        },
        Ok(()) => {},
    }
    let password_hash = match hash_password(req.new_password.as_str()) {
        Ok(h) => h,
        Err(e) => {
            return Err(e);
        },
    };
    db.apply(Write::SetPassword { username: user.username.clone(), password: password_hash });
    Ok(success())
}

/// The user `user` removes the own account. The statistics of the user stay.
pub fn delete_account(db: &mut Store, user: &ClaimsValidator) -> (r: ModifyResponse)
    ensures
        r.status@ == "success"@,
        final(db)@ == old(db)@.apply(WriteView::DeleteUser { username: user.username@ }),
{
    db.apply(Write::DeleteUser { username: user.username.clone() });
    success()
}

} // verus!
