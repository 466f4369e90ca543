//! The mails the service sends, as plain text ready for a mailer.

use vstd::prelude::*;
use vstd::string::*;
use crate::seqs::views;

verus! {

/// A mail to be handed to the mailer.
#[derive(Debug, Clone)]
pub struct OutgoingMail {
    /// Name of the account the mail goes to.
    pub username: String,
    pub from: String,
    pub to: String,
    pub subject: String,
    pub body: String,
}

pub struct OutgoingMailView {
    pub username: Seq<char>,
    pub from: Seq<char>,
    pub to: Seq<char>,
    pub subject: Seq<char>,
    pub body: Seq<char>,
}

impl View for OutgoingMail {
    type V = OutgoingMailView;

    open spec fn view(&self) -> OutgoingMailView {
        OutgoingMailView {
            username: self.username@,
            from: self.from@,
            to: self.to@,
            subject: self.subject@,
            body: self.body@,
        }
    }
}

/// The text of one decimal digit.
pub open spec fn digit_text(d: int) -> Seq<char> {
    if d == 0 {
        "0"@
    } else if d == 1 {
        "1"@
    } else if d == 2 {
        "2"@
    } else if d == 3 {
        "3"@
    } else if d == 4 {
        "4"@
    } else if d == 5 {
        "5"@
    } else if d == 6 {
        "6"@
    } else if d == 7 {
        "7"@
    } else if d == 8 {
        "8"@
    } else {
        "9"@
    }
}

/// The decimal text of a natural number, without leading zeros.
pub open spec fn natural_text(n: nat) -> Seq<char>
    decreases n,
{
    if n < 10 {
        digit_text(n as int)
    } else {
        natural_text(n / 10) + digit_text((n % 10) as int)
    }
}

/// The decimal text of an integer, with a minus sign where it is negative.
pub open spec fn decimal_text(n: int) -> Seq<char> {
    if n < 0 {
        "-"@ + natural_text((-n) as nat)
    } else {
        natural_text(n as nat)
    }
}

/// The parts joined, with `separator` between each two.
pub open spec fn joined(parts: Seq<Seq<char>>, separator: Seq<char>) -> Seq<char>
    decreases parts.len(),
{
    if parts.len() == 0 {
        Seq::empty()
    } else if parts.len() == 1 {
        parts[0]
    } else {
        joined(parts.drop_last(), separator) + separator + parts.last()
    }
}

/// The sender line of the service's mails.
pub open spec fn sender_line(smtp_username: Seq<char>) -> Seq<char> {
    "YWT Bot <"@ + smtp_username + ">"@
}

/// The recipient line for a user.
pub open spec fn recipient_line(username: Seq<char>, email: Seq<char>) -> Seq<char> {
    username + " <"@ + email + ">"@
}

/// The mail that carries an activation code.
pub open spec fn activation_mail(
    smtp_username: Seq<char>,
    username: Seq<char>,
    email: Seq<char>,
    code: Seq<char>,
) -> OutgoingMailView {
    OutgoingMailView {
        username,
        from: sender_line(smtp_username),
        to: recipient_line(username, email),
        subject: "Activate your YWT account"@,
        body: "Hello "@ + username + ",\n\nYour activation code is "@ + code
            + "\n\nThis code will expire in 3 days.\n\nBest regards,\nYWT Team"@,
    }
}

/// The weekly report for one user: conversation count and tag names.
pub open spec fn report_mail(
    smtp_username: Seq<char>,
    username: Seq<char>,
    email: Seq<char>,
    conversation: int,
    tag_names: Seq<Seq<char>>,
) -> OutgoingMailView {
    OutgoingMailView {
        username,
        from: sender_line(smtp_username),
        to: recipient_line(username, email),
        subject: "YWT 答疑周报"@,
        body: username
            + " 同学你好！\n\n感谢使用 YWT。以下是你的答疑周报：\n\n在过去一周内，你一共与智能助手交谈 "@
            + decimal_text(conversation) + " 轮次，主要围绕 "@ + joined(tag_names, ", "@)
            + " 等知识点。\n\n祝好！\nYWT Team"@,
    }
}

/// A mail an administrator sends to one user.
pub open spec fn direct_mail(
    smtp_username: Seq<char>,
    username: Seq<char>,
    email: Seq<char>,
    title: Seq<char>,
    content: Seq<char>,
    admin_username: Seq<char>,
    admin_email: Seq<char>,
) -> OutgoingMailView {
    OutgoingMailView {
        username,
        from: sender_line(smtp_username),
        to: recipient_line(username, email),
        subject: title,
        body: content + "\n\n此邮件由 "@ + admin_username + " <"@ + admin_email
            + "> 触发 YWT Bot 发送。若要回复，请直接回复发件人。"@,
    }
}

fn digit(d: u64) -> (r: &'static str)
    requires
        d < 10,
    ensures
        r@ == digit_text(d as int),
{
    if d == 0 {
        "0"
    } else if d == 1 {
        "1"
    } else if d == 2 {
        "2"
    } else if d == 3 {
        "3"
    } else if d == 4 {
        "4"
    } else if d == 5 {
        "5"
    } else if d == 6 {
        "6"
    } else if d == 7 {
        "7"
    } else if d == 8 {
        "8"
    } else {
        "9"
    }
}

fn natural(n: u64) -> (r: String)
    ensures
        r@ == natural_text(n as nat),
    decreases n,
{
    if n < 10 {
        digit(n).to_string()
    } else {
        natural(n / 10).concat(digit(n % 10))
    }
}

/// The decimal text of `n`.
pub fn decimal(n: i32) -> (r: String)
    ensures
        r@ == decimal_text(n as int),
{
    if n < 0 {
        let magnitude: u64 = (-(n as i64)) as u64;
        "-".to_string().concat(natural(magnitude).as_str())
    } else {
        natural(n as u64)
    }
}

/// The strings joined, with `separator` between each two.
pub fn join(parts: &Vec<String>, separator: &str) -> (r: String)
    ensures
        r@ == joined(views(parts@), separator@),
{
    let mut r = String::new();
    let mut i: usize = 0;
    while i < parts.len()
        invariant
            i <= parts.len(),
            r@ == joined(views(parts@).take(i as int), separator@),
        decreases parts.len() - i,
    {
        proof {
            let all = views(parts@);
            assert(all.take(i + 1).drop_last() =~= all.take(i as int));
            assert(all.take(i + 1).last() == parts[i as int]@);
            assert(all.take(1)[0] == all[0]);
        }
        if i > 0 {
            r.append(separator);
        }
        r.append(parts[i].as_str());
        assert(r@ =~= joined(views(parts@).take(i + 1), separator@));
        i += 1;
    }
    assert(views(parts@).take(i as int) =~= views(parts@));
    r
}

fn sender(smtp_username: &str) -> (r: String)
    ensures
        r@ == sender_line(smtp_username@),
{
    "YWT Bot <".to_string().concat(smtp_username).concat(">")
}

fn recipient(username: &str, email: &str) -> (r: String)
    ensures
        r@ == recipient_line(username@, email@),
{
    username.to_string().concat(" <").concat(email).concat(">")
}

/// Composes the mail that carries an activation code.
pub fn compose_activation(smtp_username: &str, username: &str, email: &str, code: &str) -> (m:
    OutgoingMail)
    ensures
        m@ == activation_mail(smtp_username@, username@, email@, code@),
{
    OutgoingMail {
        username: username.to_string(),
        from: sender(smtp_username),
        to: recipient(username, email),
        subject: "Activate your YWT account".to_string(),
        body: "Hello ".to_string().concat(username).concat(",\n\nYour activation code is ").concat(
            code,
        ).concat("\n\nThis code will expire in 3 days.\n\nBest regards,\nYWT Team"),
    }
}

/// Composes the weekly report for one user.
pub fn compose_report(
    smtp_username: &str,
    username: &str,
    email: &str,
    conversation: i32,
    tag_names: &Vec<String>,
) -> (m: OutgoingMail)
    ensures
        m@ == report_mail(smtp_username@, username@, email@, conversation as int, views(tag_names@)),
{
    let count = decimal(conversation);
    let tags = join(tag_names, ", ");
    OutgoingMail {
        username: username.to_string(),
        from: sender(smtp_username),
        to: recipient(username, email),
        subject: "YWT 答疑周报".to_string(),
        body: username.to_string().concat(
            " 同学你好！\n\n感谢使用 YWT。以下是你的答疑周报：\n\n在过去一周内，你一共与智能助手交谈 ",
        ).concat(count.as_str()).concat(" 轮次，主要围绕 ").concat(tags.as_str()).concat(
            " 等知识点。\n\n祝好！\nYWT Team",
        ),
    }
}

/// Composes a mail an administrator sends to one user.
pub fn compose_direct(
    smtp_username: &str,
    username: &str,
    email: &str,
    title: &str,
    content: &str,
    admin_username: &str,
    admin_email: &str,
) -> (m: OutgoingMail)
    ensures
        m@ == direct_mail(
            smtp_username@,
            username@,
            email@,
            title@,
            content@,
            admin_username@,
            admin_email@,
        ),
{
    OutgoingMail {
        username: username.to_string(),
        from: sender(smtp_username),
        to: recipient(username, email),
        subject: title.to_string(),
        body: content.to_string().concat("\n\n此邮件由 ").concat(admin_username).concat(" <").concat(
            admin_email,
        ).concat("> 触发 YWT Bot 发送。若要回复，请直接回复发件人。"),
    }
}

} // verus!
