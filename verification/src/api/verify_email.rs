//! Activation: a pending account becomes active when its one-time code is
//! presented before the code expires.

use vstd::prelude::*;
use vstd::string::*;
use crate::clock::{Timestamp, stored_instant};
use crate::db::{Store, StoreView, Write, WriteView, activate_user, activated};
use crate::error::{ApiError, ApiErrorType, ApiResult};
use crate::model::code_of;
use crate::seqs::find_one;

verus! {

#[derive(Debug, Clone)]
pub struct ActivationRequest {
    pub code: String,
}

/// What presenting `code` for `username` at the time `now` leads to: the
/// store after a successful activation, or the kind and message of the
/// refusal. The code must be stored for this username, its expiry must be
/// readable, and `now` must not lie after it.
pub open spec fn verification(s: StoreView, username: Seq<char>, code: Seq<char>, now: Timestamp) -> Result<
    StoreView,
    (ApiErrorType, Seq<char>),
> {
    match find_one(s.activation_codes, code_of(username, code)) {
        None => Err((ApiErrorType::InvalidRequest, "Invalid activation code"@)),
        Some(stored) => match stored_instant(stored.expires_at) {
            None => Err((ApiErrorType::Internal, "Failed to parse expiration date"@)),
            Some(expires_at) => if now.later_than(expires_at) {
                Err((ApiErrorType::InvalidRequest, "Activation code has expired"@))
            } else {
                Ok(activated(s, username).apply(WriteView::DeleteCode { username, code }))
            },
        },
    }
}

/// The request was answered as `expected` says: on success the store is the
/// expected one; a refusal has the expected kind and message and leaves the
/// store as it was.
pub open spec fn answered(
    r: ApiResult<()>,
    before: StoreView,
    after: StoreView,
    expected: Result<StoreView, (ApiErrorType, Seq<char>)>,
) -> bool {
    match expected {
        Ok(store) => r is Ok && after == store,
        Err((kind, message)) => r matches Err(e) && e.is(kind, message) && after == before,
    }
}

/// What a stored expiry means at the time `now`: an expiry that cannot be
/// read is an internal error, one that `now` lies after is an invalid
/// request, and any other lets the activation pass.
pub fn expiry_verdict(expires_at: Option<Timestamp>, now: Timestamp) -> (r: ApiResult<()>)
    ensures
        match expires_at {
            None => r matches Err(e) && e.is(
                ApiErrorType::Internal,
                "Failed to parse expiration date"@,
            ),
            Some(t) => if now.later_than(t) {
                r matches Err(e) && e.is(ApiErrorType::InvalidRequest, "Activation code has expired"@)
            } else {
                r is Ok
            },
        },
{
    match expires_at {
        None => Err(
            ApiError::new(ApiErrorType::Internal, "Failed to parse expiration date".to_string()),
        ),
        Some(t) => if now.is_later_than(&t) {
            Err(
                ApiError::new(
                    ApiErrorType::InvalidRequest,
                    "Activation code has expired".to_string(),
                ),
            )
        } else {
            Ok(())
        },
    }
}

/// Presents an activation code at the time `now`. On success the pending
/// account is promoted and the code is removed; a refusal changes nothing.
pub fn verify_email_at(db: &mut Store, username: &str, query: &ActivationRequest, now: Timestamp) -> (r:
    ApiResult<()>)
    ensures
        answered(r, old(db)@, final(db)@, verification(old(db)@, username@, query.code@, now)),
{
    let expires_at = match db.find_code(username, query.code.as_str()) {
        None => {
            return Err(
                ApiError::new(ApiErrorType::InvalidRequest, "Invalid activation code".to_string()),
            );
        },
        Some(stored) => Timestamp::from_text(stored.expires_at.as_str()),
    };
    match expiry_verdict(expires_at, now) {
        Err(e) => {
            return Err(e);
        },
        Ok(()) => {},
    }
    activate_user(db, username);
    db.apply(Write::DeleteCode { username: username.to_string(), code: query.code.clone() });
    Ok(())
}

/// Presents an activation code now: the request is answered as at some
/// time, whatever the clock says.
pub fn verify_email(db: &mut Store, username: &str, query: &ActivationRequest) -> (r: ApiResult<()>)
    ensures
        exists|now: Timestamp| #[trigger]
            answered(
                r,
                old(db)@,
                final(db)@,
                verification(old(db)@, username@, query.code@, now),
            ),
{
    let now = Timestamp::now();
    let r = verify_email_at(db, username, query, now);
    assert(answered(r, old(db)@, db@, verification(old(db)@, username@, query.code@, now)));
    r
}

} // verus!
