//! Mail from administrators: the weekly report to every user, and a single
//! mail to one user. The handlers compose the mails; a mailer outside sends
//! them one by one and asks `next_delivery` what to do after each.

use vstd::prelude::*;
use vstd::string::*;
use crate::api::users::admin_required;
use crate::config::Config;
use crate::db::{Store, check_admin_exists, stats_position};
use crate::email::{OutgoingMail, OutgoingMailView, compose_direct, compose_report, direct_mail, report_mail};
use crate::error::{ApiError, ApiErrorType, ApiResult};
use crate::jwt::ClaimsValidator;
use crate::model::{AccountView, StatsView, by_username, stats_of};
use crate::seqs::{find_one, views};

verus! {

#[derive(Debug, Clone)]
pub struct SendSingleEmailRequest {
    pub username: String,
    pub title: String,
    pub content: String,
}

/// The names of the tag counters, in order.
pub open spec fn tag_names(tags: Seq<(Seq<char>, i32)>) -> Seq<Seq<char>> {
    tags.map_values(|t: (Seq<char>, i32)| t.0)
}

/// The weekly reports: one for each user that has statistics, in the order
/// of the users.
pub open spec fn reports(users: Seq<AccountView>, stats: Seq<StatsView>, smtp_username: Seq<char>) -> Seq<
    OutgoingMailView,
>
    decreases users.len(),
{
    if users.len() == 0 {
        Seq::empty()
    } else {
        let earlier = reports(users.drop_last(), stats, smtp_username);
        let user = users.last();
        match find_one(stats, stats_of(user.username)) {
            Some(record) => earlier.push(
                report_mail(
                    smtp_username,
                    user.username,
                    user.email,
                    record.conversation as int,
                    tag_names(record.tags),
                ),
            ),
            None => earlier,
        }
    }
}

fn names_of_tags(tags: &Vec<(String, i32)>) -> (names: Vec<String>)
    ensures
        views(names@) == tag_names(views(tags@)),
{
    let mut names: Vec<String> = Vec::new();
    let mut i: usize = 0;
    while i < tags.len()
        invariant
            i <= tags.len(),
            views(names@) == tag_names(views(tags@).take(i as int)),
        decreases tags.len() - i,
    {
        let ghost before = names@;
        names.push(tags[i].0.clone());
        assert(views(names@) =~= views(before).push(tags[i as int].0@));
        assert(views(names@) =~= tag_names(views(tags@).take(i + 1)));
        i += 1;
    }
    assert(views(tags@).take(i as int) =~= views(tags@));
    names
}

/// The weekly reports an administrator broadcasts.
pub fn send_email(db: &Store, user: &ClaimsValidator, config: &Config) -> (r: ApiResult<
    Vec<OutgoingMail>,
>)
    ensures
        if db@.admin_exists(user.username@) {
            r matches Ok(mails) && views(mails@) == reports(
                db@.users,
                db@.stats,
                config.smtp_username@,
            )
        } else {
            r matches Err(e) && admin_required(e)
        },
{
    if !check_admin_exists(db, user.username.as_str()) {
        return Err(ApiError::new(ApiErrorType::InvalidRequest, "Admin access required".to_string()));
    }
    let mut mails: Vec<OutgoingMail> = Vec::new();
    let mut i: usize = 0;
    while i < db.users.len()
        invariant
            i <= db.users.len(),
            views(mails@) == reports(db@.users.take(i as int), db@.stats, config.smtp_username@),
        decreases db.users.len() - i,
    {
        let ghost before = mails@;
        let account = &db.users[i];
        proof {
            let all = db@.users;
            assert(all.take(i + 1).drop_last() =~= all.take(i as int));
            assert(all.take(i + 1).last() == account@);
        }
        let k = stats_position(&db.stats, &account.username);
        if k < db.stats.len() {
            let record = &db.stats[k];
            assert(record@ == db@.stats[k as int]);
            let names = names_of_tags(&record.tags);
            let mail = compose_report(
                config.smtp_username.as_str(),
                account.username.as_str(),
                account.email.as_str(),
                record.conversation,
                &names,
            );
            mails.push(mail);
            assert(views(mails@) =~= views(before).push(mail@));
        }
        i += 1;
    }
    assert(db@.users.take(i as int) =~= db@.users);
    Ok(mails)
}

/// The mail an administrator sends to the user `req.username`, or none
/// where there is no such user.
pub fn send_single_email(
    db: &Store,
    user: &ClaimsValidator,
    config: &Config,
    req: &SendSingleEmailRequest,
) -> (r: ApiResult<Option<OutgoingMail>>)
    ensures
        match find_one(db@.admins, by_username(user.username@)) {
            None => r matches Err(e) && admin_required(e),
            Some(admin) => match find_one(db@.users, by_username(req.username@)) {
                None => r matches Ok(out) && out is None,
                Some(account) => r matches Ok(Some(mail)) && mail@ == direct_mail(
                    config.smtp_username@,
                    account.username,
                    account.email,
                    req.title@,
                    req.content@,
                    user.username@,
                    admin.email,
                ),
            },
        },
{
    let admin = match db.find_admin(user.username.as_str()) {
        Some(a) => a,
        None => {
            return Err(
                ApiError::new(ApiErrorType::InvalidRequest, "Admin access required".to_string()),
            );
        },
    };
    match db.find_user(req.username.as_str()) {
        None => Ok(None),
        Some(account) => Ok(
            Some(
                compose_direct(
                    config.smtp_username.as_str(),
                    account.username.as_str(),
                    account.email.as_str(),
                    req.title.as_str(),
                    req.content.as_str(),
                    user.username.as_str(),
                    admin.email.as_str(),
                ),
            ),
        ),
    }
}

/// How far the sending of a batch of mails has come.
#[derive(Debug, Clone)]
pub enum Progress {
    /// Nothing was handed to the mailer yet.
    Start,
    /// The mail at this position was sent.
    Sent(usize),
    /// The mailer failed on a mail to `username`, with the error text `detail`.
    Failed { username: String, detail: String },
}

/// What the sender of a batch does next.
#[derive(Debug)]
pub enum NextStep {
    /// Hand the mail at this position to the mailer.
    Send(usize),
    /// Every mail was sent: the request succeeded.
    Done,
    /// Stop and answer the request with this error; the rest is not sent.
    Abort(ApiError),
}

/// The message that reports a failed send.
pub open spec fn send_failure(username: Seq<char>, detail: Seq<char>) -> Seq<char> {
    "Failed to send email to "@ + username + ": "@ + detail
}

/// The rule of a batch: mails go out in order, and the first failure ends
/// the batch with an internal error.
pub fn next_delivery(mails: &Vec<OutgoingMail>, progress: &Progress) -> (step: NextStep)
    ensures
        match *progress {
            Progress::Start => if mails.len() > 0 {
                step matches NextStep::Send(i) && i == 0
            } else {
                step is Done
            },
            Progress::Sent(last) => if last + 1 < mails.len() {
                step matches NextStep::Send(i) && i == last + 1
            } else {
                step is Done
            },
            Progress::Failed { username, detail } => step matches NextStep::Abort(e) && e.is(
                ApiErrorType::Internal,
                send_failure(username@, detail@),
            ),
        },
{
    match progress {
        Progress::Start => if mails.len() > 0 {
            NextStep::Send(0)
        } else {
            NextStep::Done
        },
        Progress::Sent(last) => if *last < mails.len() && *last + 1 < mails.len() {
            NextStep::Send(*last + 1)
        } else {
            NextStep::Done
        },
        Progress::Failed { username, detail } => {
            let message = "Failed to send email to ".to_string().concat(username.as_str()).concat(
                ": ",
            ).concat(detail.as_str());
            NextStep::Abort(ApiError::new(ApiErrorType::Internal, message))
        },
    }
}

} // verus!
