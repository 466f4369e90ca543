//! What administrators do with user accounts: list them, remove one, and
//! read one user's statistics.

use vstd::prelude::*;
use vstd::string::*;
use crate::api::stats::{StatsResponse, response_of, shows};
use crate::db::{Store, StoreView, Write, WriteView, check_admin_exists, check_user_exists};
use crate::error::{ApiError, ApiErrorType, ApiResult};
use crate::jwt::ClaimsValidator;
use crate::model::{AccountView, stats_of};
use crate::seqs::{find_one, views};

verus! {

#[derive(Debug, Clone)]
pub struct GetUserListResponse {
    pub usernames: Vec<String>,
    pub emails: Vec<String>,
    pub created_at: Vec<String>,
}

#[derive(Debug, Clone)]
pub struct DeleteUserRequest {
    pub username: String,
}

#[derive(Debug, Clone)]
pub struct GetUserStatsRequest {
    pub username: String,
}

/// The error that turns away a caller who is no administrator.
pub open spec fn admin_required(e: ApiError) -> bool {
    e.is(ApiErrorType::InvalidRequest, "Admin access required"@)
}

/// The response lists the accounts: names, addresses and creation times,
/// each in the order of the accounts.
pub open spec fn lists(out: GetUserListResponse, users: Seq<AccountView>) -> bool {
    &&& views(out.usernames@) == names_of(users)
    &&& views(out.emails@) == addresses_of(users)
    &&& views(out.created_at@) == creation_times_of(users)
}

/// The names of the accounts, in order.
pub open spec fn names_of(users: Seq<AccountView>) -> Seq<Seq<char>> {
    users.map_values(|a: AccountView| a.username)
}

/// The email addresses of the accounts, in order.
pub open spec fn addresses_of(users: Seq<AccountView>) -> Seq<Seq<char>> {
    users.map_values(|a: AccountView| a.email)
}

/// The creation times of the accounts, in order.
pub open spec fn creation_times_of(users: Seq<AccountView>) -> Seq<Seq<char>> {
    users.map_values(|a: AccountView| a.created_at)
}

/// All active users, for an administrator.
pub fn get_user_list(db: &Store, user: &ClaimsValidator) -> (r: ApiResult<GetUserListResponse>)
    ensures
        if db@.admin_exists(user.username@) {
            r matches Ok(out) && lists(out, db@.users)
        } else {
            r matches Err(e) && admin_required(e)
        },
{
    if !check_admin_exists(db, user.username.as_str()) {
        return Err(ApiError::new(ApiErrorType::InvalidRequest, "Admin access required".to_string()));
    }
    let mut usernames: Vec<String> = Vec::new();
    let mut emails: Vec<String> = Vec::new();
    let mut created_at: Vec<String> = Vec::new();
    let mut i: usize = 0;
    while i < db.users.len()
        invariant
            i <= db.users.len(),
            views(usernames@) == names_of(db@.users.take(i as int)),
            views(emails@) == addresses_of(db@.users.take(i as int)),
            views(created_at@) == creation_times_of(db@.users.take(i as int)),
        decreases db.users.len() - i,
    {
        let ghost before = (usernames@, emails@, created_at@);
        let account = &db.users[i];
        assert(account@ == db@.users[i as int]);
        usernames.push(account.username.clone());
        emails.push(account.email.clone());
        created_at.push(account.created_at.clone());
        assert(views(usernames@) =~= views(before.0).push(account.username@));
        assert(views(emails@) =~= views(before.1).push(account.email@));
        assert(views(created_at@) =~= views(before.2).push(account.created_at@));
        assert(views(usernames@) =~= names_of(db@.users.take(i + 1)));
        assert(views(emails@) =~= addresses_of(db@.users.take(i + 1)));
        assert(views(created_at@) =~= creation_times_of(db@.users.take(i + 1)));
        i += 1;
    }
    assert(db@.users.take(i as int) =~= db@.users);
    Ok(GetUserListResponse { usernames, emails, created_at })
}

/// The store after the user `username` was removed with the statistics.
pub open spec fn user_deleted(s: StoreView, username: Seq<char>) -> StoreView {
    s.apply(WriteView::DeleteUser { username }).apply(WriteView::DeleteStats { username })
}

/// An administrator removes a user and the user's statistics.
pub fn delete_user(db: &mut Store, user: &ClaimsValidator, req: &DeleteUserRequest) -> (r: ApiResult<
    (),
>)
    ensures
        r is Err ==> final(db)@ == old(db)@,
        if !old(db)@.admin_exists(user.username@) {
            r matches Err(e) && admin_required(e)
        } else if !old(db)@.user_exists(req.username@) {
            r matches Err(e) && e.is(ApiErrorType::NotFound, "Resource not found"@)
        } else {
            r is Ok && final(db)@ == user_deleted(old(db)@, req.username@)
        },
{
    if !check_admin_exists(db, user.username.as_str()) {
        return Err(ApiError::new(ApiErrorType::InvalidRequest, "Admin access required".to_string()));
    }
    if !check_user_exists(db, req.username.as_str()) {
        return Err(ApiError::new_not_found());
    }
    db.apply(Write::DeleteUser { username: req.username.clone() });
    db.apply(Write::DeleteStats { username: req.username.clone() });
    Ok(())
}

/// The statistics of one user, for an administrator.
pub fn get_user_stats(db: &Store, user: &ClaimsValidator, req: &GetUserStatsRequest) -> (r:
    ApiResult<StatsResponse>)
    ensures
        if !db@.admin_exists(user.username@) {
            r matches Err(e) && admin_required(e)
        } else if !db@.user_exists(req.username@) {
            r matches Err(e) && e.is(ApiErrorType::NotFound, "Resource not found"@)
        } else {
            match find_one(db@.stats, stats_of(req.username@)) {
                Some(record) => r matches Ok(out) && shows(out, record),
                None => r matches Err(e) && e.is(ApiErrorType::NotFound, "Resource not found"@),
            }
        },
{
    if !check_admin_exists(db, user.username.as_str()) {
        return Err(ApiError::new(ApiErrorType::InvalidRequest, "Admin access required".to_string()));
    }
    if !check_user_exists(db, req.username.as_str()) {
        return Err(ApiError::new_not_found());
    }
    match db.find_stats(req.username.as_str()) {
        Some(record) => Ok(response_of(record)),
        None => Err(ApiError::new_not_found()),
    }
}

} // verus!
