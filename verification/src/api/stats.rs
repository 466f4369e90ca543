//! Interaction statistics: conversation counts and tag counters.

use vstd::prelude::*;
use vstd::string::*;
use crate::db::{Store, Write, WriteView, check_admin_exists, copy_strings};
use crate::error::{ApiError, ApiErrorType, ApiResult};
use crate::jwt::ClaimsValidator;
use crate::model::{StatsRecord, StatsView, stats_of};
use crate::seqs::{find_one, views};
use crate::tags::copy_tags;

verus! {

#[derive(Debug, Clone)]
pub struct StatsRequest {
    pub tag: Vec<String>,
}

#[derive(Debug, Clone)]
pub struct StatsResponse {
    pub conversation: i32,
    pub tags: Vec<(String, i32)>,
}

/// The response shows the record: its conversation count and its tag
/// counters in their stored order.
pub open spec fn shows(out: StatsResponse, record: StatsView) -> bool {
    out.conversation == record.conversation && views(out.tags@) == record.tags
}

/// The response that shows a statistics record.
pub fn response_of(record: &StatsRecord) -> (out: StatsResponse)
    ensures
        shows(out, record@),
{
    StatsResponse { conversation: record.conversation, tags: copy_tags(&record.tags) }
}

/// Applies a counting write, or reports that a counter is at its limit.
fn count(db: &mut Store, w: Write) -> (r: ApiResult<()>)
    ensures
        if old(db)@.accepts(w@) {
            r is Ok && final(db)@ == old(db)@.apply(w@)
        } else {
            r matches Err(e) && e.is(ApiErrorType::Internal, "Counter overflow"@) && final(db)@
                == old(db)@
        },
{
    if db.accepts(&w) {
        db.apply(w);
        Ok(())
    } else {
        Err(ApiError::new(ApiErrorType::Internal, "Counter overflow".to_string()))
    }
}

/// Counts one occurrence of each tag of the request for the acting user; a
/// tag named twice is counted twice. Without statistics for the user nothing
/// changes. Where a counter would pass its limit, no tag is counted and the
/// request fails.
pub fn post_stats(db: &mut Store, user: &ClaimsValidator, req: &StatsRequest) -> (r: ApiResult<()>)
    ensures
        ({
            let w = WriteView::IncTags { username: user.username@, tags: views(req.tag@) };
            if old(db)@.accepts(w) {
                r is Ok && final(db)@ == old(db)@.apply(w)
            } else {
                r matches Err(e) && e.is(ApiErrorType::Internal, "Counter overflow"@) && final(db)@
                    == old(db)@
            }
        }),
{
    count(db, Write::IncTags { username: user.username.clone(), tags: copy_strings(&req.tag) })
}

/// Counts one more conversation for the acting user. Without statistics for
/// the user nothing changes. Where the counter is at its limit, the request
/// fails.
pub fn post_conv_stats(db: &mut Store, user: &ClaimsValidator) -> (r: ApiResult<()>)
    ensures
        ({
            let w = WriteView::IncConversation { username: user.username@ };
            if old(db)@.accepts(w) {
                r is Ok && final(db)@ == old(db)@.apply(w)
            } else {
                r matches Err(e) && e.is(ApiErrorType::Internal, "Counter overflow"@) && final(db)@
                    == old(db)@
            }
        }),
{
    count(db, Write::IncConversation { username: user.username.clone() })
}

/// The statistics of the acting user.
pub fn get_stats(db: &Store, user: &ClaimsValidator) -> (r: ApiResult<StatsResponse>)
    ensures
        match find_one(db@.stats, stats_of(user.username@)) {
            Some(record) => r matches Ok(out) && shows(out, record),
            None => r matches Err(e) && e.is(ApiErrorType::InvalidRequest, "User not found"@),
        },
{
    match db.find_stats(user.username.as_str()) {
        Some(record) => Ok(response_of(record)),
        None => Err(ApiError::new(ApiErrorType::InvalidRequest, "User not found".to_string())),
    }
}

/// Resets the statistics of every user; only an administrator may.
pub fn clear_stats(db: &mut Store, user: &ClaimsValidator) -> (r: ApiResult<()>)
    ensures
        if old(db)@.admin_exists(user.username@) {
            r is Ok && final(db)@ == old(db)@.apply(WriteView::ClearStats)
        } else {
            r matches Err(e) && e.is(ApiErrorType::InvalidRequest, "Admin access required"@)
                && final(db)@ == old(db)@
        },
{
    if !check_admin_exists(db, user.username.as_str()) {
        return Err(ApiError::new(ApiErrorType::InvalidRequest, "Admin access required".to_string()));
    }
    db.apply(Write::ClearStats);
    Ok(())
}

} // verus!
