//! What the service does before it takes requests.

use vstd::prelude::*;
use vstd::string::*;
use crate::config::Config;
use crate::db::{AdminType, Store, WriteView, create_user_with};
use crate::error::{ApiErrorType, ApiResult};
use crate::model::AccountView;
use crate::password::{hash_password, hasher_error, password_check};

verus! {

/// The first administrator, as the configuration names it.
pub open spec fn first_admin(
    username: Seq<char>,
    email: Seq<char>,
    password_hash: Seq<char>,
    created_at: Seq<char>,
) -> WriteView {
    WriteView::InsertAdmin(AccountView { username, email, password: password_hash, created_at })
}

/// Creates the configured administrator where the store has none, with
/// the password hash to store. Tells whether it did.
pub fn ensure_admin_with(db: &mut Store, config: &Config, password_hash: &str, created_at: &str) -> (created:
    bool)
    ensures
        created == (old(db)@.admins.len() == 0),
        final(db)@ == if created {
            old(db)@.apply(first_admin(
                config.admin_username@,
                config.admin_email@,
                password_hash@,
                created_at@,
            ))
        } else {
            old(db)@
        },
{
    if db.admins.len() == 0 {
        create_user_with::<AdminType>(
            db,
            config.admin_username.as_str(),
            config.admin_email.as_str(),
            password_hash,
            created_at,
        );
        true
    } else {
        false
    }
}

/// Creates the configured administrator where the store has none, the
/// password hashed under a fresh salt. Where there is an administrator
/// nothing changes; where the hasher fails nothing changes either.
pub fn ensure_admin(db: &mut Store, config: &Config, password: &str, created_at: &str) -> (r:
    ApiResult<bool>)
    ensures
        old(db)@.admins.len() > 0 ==> r == Ok::<bool, crate::error::ApiError>(false) && final(db)@
            == old(db)@,
        old(db)@.admins.len() == 0 ==> match r {
            Ok(created) => {
                &&& created
                &&& final(db)@.admins.len() == 1
                &&& password_check(password@, final(db)@.admins[0].password) == Some(true)
                &&& final(db)@ == old(db)@.apply(
                    first_admin(
                        config.admin_username@,
                        config.admin_email@,
                        final(db)@.admins[0].password,
                        created_at@,
                    ),
                )
            },
            Err(e) => hasher_error(e) && final(db)@ == old(db)@,
        },
{
    if db.admins.len() > 0 {
        return Ok(false);
    }
    match hash_password(password) {
        Ok(hash) => Ok(ensure_admin_with(db, config, hash.as_str(), created_at)),
        Err(e) => Err(e),
    }
}

} // verus!
