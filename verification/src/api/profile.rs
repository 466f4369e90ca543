//! The profile of the acting account.

use vstd::prelude::*;
use vstd::string::*;
use crate::db::{Store, StoreView};
use crate::error::{ApiError, ApiErrorType, ApiResult};
use crate::jwt::ClaimsValidator;
use crate::model::{AccountView, by_username};
use crate::seqs::find_one;

verus! {

#[derive(Debug, Clone)]
pub struct ProfileResponse {
    pub username: String,
    pub email: String,
    pub created_at: String,
}

/// The account that answers for `username`: the active user of that name,
/// or else the administrator of that name.
pub open spec fn account_of(s: StoreView, username: Seq<char>) -> Option<AccountView> {
    match find_one(s.users, by_username(username)) {
        Some(a) => Some(a),
        None => find_one(s.admins, by_username(username)),
    }
}

/// Name, email address and creation time of the acting account.
pub fn profile(db: &Store, user: &ClaimsValidator) -> (r: ApiResult<ProfileResponse>)
    ensures
        match account_of(db@, user.username@) {
            Some(a) => {
                &&& r matches Ok(out)
                &&& out.username@ == user.username@
                &&& out.email@ == a.email
                &&& out.created_at@ == a.created_at
            },
            None => r matches Err(e) && e.is(ApiErrorType::InvalidRequest, "User not found"@),
        },
{
    let account = match db.find_user(user.username.as_str()) {
        Some(a) => a,
        None => match db.find_admin(user.username.as_str()) {
            Some(a) => a,
            None => {
                return Err(ApiError::new(ApiErrorType::InvalidRequest, "User not found".to_string()));
            },
        },
    };
    Ok(
        ProfileResponse {
            username: user.username.clone(),
            email: account.email.clone(),
            created_at: account.created_at.clone(),
        },
    )
}

} // verus!
