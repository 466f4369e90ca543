//! What holds across requests: laws of registration, activation, statistics
//! and login, proved from the definitions the handlers are specified with.

use vstd::prelude::*;
use crate::api::login::{Refusal, reports};
use crate::api::register::{
    RegisterRequestView, admin_register_refusal, admin_registered, register_refusal, registered,
};
use crate::api::users::user_deleted;
use crate::api::verify_email::verification;
use crate::clock::{Timestamp, stored_instant};
use crate::db::{StoreView, WriteView, activated, cleared, fresh_stats, with_tags};
use crate::error::{ApiError, ApiErrorType};
use crate::jwt::{HOUR, authenticated, issued};
use crate::model::{by_username, code_of, stats_of};
use crate::seqs::{
    any, at_most_one, delete_one, find_one, first_index, lemma_any_push, lemma_any_witness,
    lemma_delete_one_removes, lemma_first_index, lemma_update_one_keeps_first,
};
use crate::tags::{
    count_of, lemma_bump_all_counts, lemma_bump_all_keeps_well_formed, occurrences,
};

verus! {

/// A name that an active user or an administrator has is refused to every
/// registration, self-service or by an administrator.
pub proof fn law_taken_name_is_refused(s: StoreView, caller: Seq<char>, req: RegisterRequestView)
    requires
        s.username_taken(req.username),
    ensures
        register_refusal(s, req) is Some,
        admin_register_refusal(s, caller, req) is Some,
{
}

/// Registering a name twice fails the second time, whatever the role: once
/// an administrator was registered under a name, every later registration
/// under that name is refused.
pub proof fn law_second_registration_after_admin(
    s: StoreView,
    first: RegisterRequestView,
    created_at: Seq<char>,
    password_hash: Seq<char>,
    caller: Seq<char>,
    second: RegisterRequestView,
)
    requires
        second.username == first.username,
    ensures
        register_refusal(admin_registered(s, first, created_at, password_hash), second) is Some,
        admin_register_refusal(
            admin_registered(s, first, created_at, password_hash),
            caller,
            second,
        ) is Some,
{
    let after = admin_registered(s, first, created_at, password_hash);
    lemma_any_push(s.admins, by_username(first.username), after.admins.last());
    assert(after.admins =~= s.admins.push(after.admins.last()));
}

/// Registering a name twice fails the second time, whatever the role: once
/// a self-registered user was activated, every later registration under
/// that name is refused.
pub proof fn law_second_registration_after_activation(
    s: StoreView,
    first: RegisterRequestView,
    window: (Seq<char>, Seq<char>),
    password_hash: Seq<char>,
    code: Seq<char>,
    now: Timestamp,
    caller: Seq<char>,
    second: RegisterRequestView,
)
    requires
        second.username == first.username,
        verification(
            registered(s, first, window, password_hash, code),
            first.username,
            code,
            now,
        ) is Ok,
    ensures
        ({
            let after = verification(
                registered(s, first, window, password_hash, code),
                first.username,
                code,
                now,
            )->Ok_0;
            &&& after.user_exists(first.username)
            &&& register_refusal(after, second) is Some
            &&& admin_register_refusal(after, caller, second) is Some
        }),
{
    let name = first.username;
    let pending = registered(s, first, window, password_hash, code);
    let after = verification(pending, name, code, now)->Ok_0;
    assert(pending.tmp_users =~= s.tmp_users.push(pending.tmp_users.last()));
    lemma_any_push(s.tmp_users, by_username(name), pending.tmp_users.last());
    let promoted = activated(pending, name);
    assert(promoted.users =~= pending.users.push(promoted.users.last()));
    lemma_any_push(pending.users, by_username(name), promoted.users.last());
    assert(after.users == promoted.users);
}

/// An activation code works once: where the store holds the pair of
/// username and code at most once, a successful activation leaves none, and
/// presenting the code again is refused as an invalid code at any time.
pub proof fn law_activation_code_works_once(
    s: StoreView,
    username: Seq<char>,
    code: Seq<char>,
    now: Timestamp,
    later: Timestamp,
)
    requires
        at_most_one(s.activation_codes, code_of(username, code)),
        verification(s, username, code, now) is Ok,
    ensures
        verification(verification(s, username, code, now)->Ok_0, username, code, later) == Err::<
            StoreView,
            (ApiErrorType, Seq<char>),
        >((ApiErrorType::InvalidRequest, "Invalid activation code"@)),
{
    let after = verification(s, username, code, now)->Ok_0;
    assert(activated(s, username).activation_codes == s.activation_codes);
    assert(after.activation_codes == delete_one(s.activation_codes, code_of(username, code)));
    lemma_delete_one_removes(s.activation_codes, code_of(username, code));
}

/// After all statistics were cleared, the statistics of any user show no
/// conversation and no tag; and a user has statistics afterwards exactly if
/// the user had them before.
pub proof fn law_cleared_statistics_are_fresh(s: StoreView, username: Seq<char>)
    ensures
        match find_one(s.apply(WriteView::ClearStats).stats, stats_of(username)) {
            Some(record) => record == fresh_stats(username) && find_one(
                s.stats,
                stats_of(username),
            ) is Some,
            None => find_one(s.stats, stats_of(username)) is None,
        },
{
    let p = stats_of(username);
    let after = s.apply(WriteView::ClearStats).stats;
    assert(after == s.stats.map_values(cleared()));
    lemma_first_index(after, p);
    lemma_first_index(s.stats, p);
    let i = first_index(s.stats, p);
    let k = first_index(after, p);
    if k < after.len() {
        assert(p(s.stats[k]));
        lemma_any_witness(s.stats, p, k);
    }
    if i < s.stats.len() {
        assert(p(after[i]));
        lemma_any_witness(after, p, i);
    }
}

/// The removal of a user by an administrator leaves no such user, where the
/// name belonged to at most one user; a later request for that user's
/// statistics finds nothing.
pub proof fn law_deleted_user_is_gone(s: StoreView, username: Seq<char>)
    requires
        at_most_one(s.users, by_username(username)),
    ensures
        !user_deleted(s, username).user_exists(username),
{
    lemma_delete_one_removes(s.users, by_username(username));
}

/// The removal of a user by an administrator takes the user's statistics
/// along, where the user had at most one statistics record.
pub proof fn law_deleted_user_has_no_statistics(s: StoreView, username: Seq<char>)
    requires
        at_most_one(s.stats, stats_of(username)),
    ensures
        find_one(user_deleted(s, username).stats, stats_of(username)) is None,
{
    lemma_delete_one_removes(s.stats, stats_of(username));
}

/// The login of an administrator answers an unknown name and a wrong
/// password with the same error, so the answer does not tell whether the
/// name exists.
pub proof fn law_admin_login_hides_names(e: ApiError)
    ensures
        reports(e, Refusal::UnknownUser, "Error"@, "Error"@) <==> reports(
            e,
            Refusal::WrongPassword,
            "Error"@,
            "Error"@,
        ),
{
}

/// The login of a user answers an unknown name and a wrong password with
/// the same kind of error, an invalid request.
pub proof fn law_login_refusals_are_invalid_requests(e: ApiError, unknown: Seq<char>, mismatch: Seq<char>)
    ensures
        reports(e, Refusal::UnknownUser, unknown, mismatch) ==> e.error_type
            == ApiErrorType::InvalidRequest,
        reports(e, Refusal::WrongPassword, unknown, mismatch) ==> e.error_type
            == ApiErrorType::InvalidRequest,
{
}

/// Activation succeeds exactly if the pair of username and code is stored,
/// the expiry stored with it can be read, and the time is not after it.
pub proof fn law_activation_condition(s: StoreView, username: Seq<char>, code: Seq<char>, now: Timestamp)
    ensures
        verification(s, username, code, now) is Ok <==> (find_one(
            s.activation_codes,
            code_of(username, code),
        ) matches Some(stored) && stored_instant(stored.expires_at) matches Some(expires_at)
            && !now.later_than(expires_at)),
{
}

/// Counting the tags of a request adds to each tag's count the number of
/// times the request names it: a tag named twice is counted twice.
pub proof fn law_tags_count_once_per_occurrence(
    s: StoreView,
    username: Seq<char>,
    tags: Seq<Seq<char>>,
    name: Seq<char>,
)
    requires
        find_one(s.stats, stats_of(username)) is Some,
        s.accepts(WriteView::IncTags { username, tags }),
    ensures
        ({
            let before = find_one(s.stats, stats_of(username))->Some_0;
            let after = find_one(
                s.apply(WriteView::IncTags { username, tags }).stats,
                stats_of(username),
            );
            &&& after matches Some(record)
            &&& record.conversation == before.conversation
            &&& count_of(record.tags, name) == count_of(before.tags, name) + occurrences(tags, name)
        }),
{
    let p = stats_of(username);
    lemma_first_index(s.stats, p);
    lemma_update_one_keeps_first(s.stats, p, with_tags(tags));
    let before = find_one(s.stats, p)->Some_0;
    lemma_bump_all_counts(before.tags, tags, name);
}

/// A token issued at `now` for `exp_hours` hours is accepted at a time
/// exactly if less than that lifetime has passed since `now`; from its
/// expiry on it is rejected.
pub proof fn law_token_lifetime(
    token: Seq<char>,
    username: Seq<char>,
    exp_hours: u64,
    secret: Seq<char>,
    now: u64,
    at: u64,
)
    requires
        issued(token, username, exp_hours, secret, now),
    ensures
        authenticated(token, secret, at) is Some <==> at < now + exp_hours * HOUR,
        authenticated(token, secret, at) is Some ==> authenticated(token, secret, at) == Some(
            username,
        ),
{
}

/// Every statistics record of the store is well formed.
pub open spec fn statistics_well_formed(s: StoreView) -> bool {
    forall|i: int| 0 <= i < s.stats.len() ==> (#[trigger] s.stats[i]).well_formed()
}

/// Statistics stay well formed: no write that the store accepts makes a
/// counter negative or gives a tag a second counter.
pub proof fn law_statistics_stay_well_formed(s: StoreView, w: WriteView)
    requires
        statistics_well_formed(s),
        s.accepts(w),
    ensures
        statistics_well_formed(s.apply(w)),
{
    let after = s.apply(w).stats;
    match w {
        WriteView::InsertStats { username } => {
            assert forall|i: int| 0 <= i < after.len() implies (#[trigger] after[i]).well_formed() by {
                if i < s.stats.len() {
                    assert(after[i] == s.stats[i]);
                }
            }
        },
        WriteView::DeleteStats { username } => {
            let p = stats_of(username);
            lemma_first_index(s.stats, p);
            let k = first_index(s.stats, p);
            assert forall|i: int| 0 <= i < after.len() implies (#[trigger] after[i]).well_formed() by {
                if k < s.stats.len() {
                    if i < k {
                        assert(after[i] == s.stats[i]);
                    } else {
                        assert(after[i] == s.stats[i + 1]);
                    }
                }
            }
        },
        WriteView::IncTags { username, tags } => {
            let p = stats_of(username);
            lemma_first_index(s.stats, p);
            let k = first_index(s.stats, p);
            if k < s.stats.len() {
                lemma_bump_all_keeps_well_formed(s.stats[k].tags, tags);
            }
            assert forall|i: int| 0 <= i < after.len() implies (#[trigger] after[i]).well_formed() by {
                if i != k {
                    assert(after[i] == s.stats[i]);
                }
            }
        },
        WriteView::IncConversation { username } => {
            let p = stats_of(username);
            lemma_first_index(s.stats, p);
            let k = first_index(s.stats, p);
            assert forall|i: int| 0 <= i < after.len() implies (#[trigger] after[i]).well_formed() by {
                if i != k {
                    assert(after[i] == s.stats[i]);
                }
            }
        },
        WriteView::ClearStats => {
            assert forall|i: int| 0 <= i < after.len() implies (#[trigger] after[i]).well_formed() by {
                assert(after[i] == fresh_stats(s.stats[i].username));
            }
        },
        _ => {
            assert(after == s.stats);
        },
    }
}

/// Where a user name stands on the way from registration to an active
/// account.
pub enum Standing {
    /// No user account has the name, pending or active.
    Unregistered,
    /// An account of the name awaits activation, and none is active.
    Pending,
    /// An active user has the name.
    Active,
}

/// Where the name `username` stands in the store.
pub open spec fn standing(s: StoreView, username: Seq<char>) -> Standing {
    if s.user_exists(username) {
        Standing::Active
    } else if any(s.tmp_users, by_username(username)) {
        Standing::Pending
    } else {
        Standing::Unregistered
    }
}

/// A self-service registration that is not refused leaves the name pending.
pub proof fn law_registration_leaves_pending(
    s: StoreView,
    req: RegisterRequestView,
    window: (Seq<char>, Seq<char>),
    password_hash: Seq<char>,
    code: Seq<char>,
)
    requires
        register_refusal(s, req) is None,
    ensures
        standing(registered(s, req, window, password_hash, code), req.username) == Standing::Pending,
{
    let after = registered(s, req, window, password_hash, code);
    assert(after.users == s.users);
    assert(after.tmp_users =~= s.tmp_users.push(after.tmp_users.last()));
    lemma_any_push(s.tmp_users, by_username(req.username), after.tmp_users.last());
}

/// A successful activation makes a pending name active.
pub proof fn law_activation_makes_active(
    s: StoreView,
    username: Seq<char>,
    code: Seq<char>,
    now: Timestamp,
)
    requires
        standing(s, username) == Standing::Pending,
        verification(s, username, code, now) is Ok,
    ensures
        standing(verification(s, username, code, now)->Ok_0, username) == Standing::Active,
{
    let promoted = activated(s, username);
    assert(promoted.users =~= s.users.push(promoted.users.last()));
    lemma_any_push(s.users, by_username(username), promoted.users.last());
    assert(verification(s, username, code, now)->Ok_0.users == promoted.users);
}

/// The removal of a user by an administrator makes the name unregistered,
/// where it belonged to one active user and to no pending one.
pub proof fn law_deletion_makes_unregistered(s: StoreView, username: Seq<char>)
    requires
        at_most_one(s.users, by_username(username)),
        !any(s.tmp_users, by_username(username)),
    ensures
        standing(user_deleted(s, username), username) == Standing::Unregistered,
{
    lemma_delete_one_removes(s.users, by_username(username));
}

} // verus!
