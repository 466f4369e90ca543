use ywt::api::modify::{
    delete_account, modify_password, modify_password_with, modify_username, ModifyPasswordRequest,
    ModifyUsernameRequest,
};
use ywt::api::problem::{get_problem, get_qbank, QBankEntry};
use ywt::api::profile::profile;
use ywt::api::send_email::{
    next_delivery, send_email, send_single_email, NextStep, Progress, SendSingleEmailRequest,
};
use ywt::api::users::{get_user_list, get_user_stats, GetUserStatsRequest};
use ywt::config::Config;
use ywt::db::{Store, Write};
use ywt::email::{compose_report, decimal, join, OutgoingMail};
use ywt::error::{ApiError, ApiErrorType};
use ywt::jwt::ClaimsValidator;
use ywt::model::{Account, Problem, StatsRecord};
use ywt::password::{hash_password, verify_password};
use ywt::text::{ends_with, strip_prefix};

fn config() -> Config {
    Config {
        bind_address: "127.0.0.1".to_string(),
        bind_port: 8080,
        mongo_uri: "mongodb://localhost:27017".to_string(),
        mongo_db: "ywt".to_string(),
        admin_username: "root".to_string(),
        admin_email: "root@example.com".to_string(),
        smtp_server: "smtp.example.com".to_string(),
        smtp_port: 587,
        smtp_username: "bot@example.com".to_string(),
    }
}

fn caller(username: &str) -> ClaimsValidator {
    ClaimsValidator { username: username.to_string() }
}

fn account(username: &str, email: &str, password: &str) -> Account {
    Account {
        username: username.to_string(),
        email: email.to_string(),
        password: password.to_string(),
        created_at: format!("created {}", username),
    }
}

fn refused<T>(r: Result<T, ApiError>, kind: ApiErrorType, message: &str) {
    match r {
        Ok(_) => panic!("accepted, expected {}", message),
        Err(e) => {
            assert_eq!(e.error_type, kind);
            assert_eq!(e.message, message);
        }
    }
}

fn mail_to(username: &str) -> OutgoingMail {
    OutgoingMail {
        username: username.to_string(),
        from: "YWT Bot <bot@example.com>".to_string(),
        to: format!("{} <{}@example.com>", username, username),
        subject: "s".to_string(),
        body: "b".to_string(),
    }
}

#[test]
fn profile_is_found_among_users_then_administrators() {
    let mut db = Store::new();
    db.users.push(account("alice", "alice@tsinghua.edu.cn", "h"));
    db.admins.push(account("root", "root@example.com", "h"));
    db.admins.push(account("alice", "shadow@example.com", "h"));
    let p = profile(&db, &caller("alice")).expect("profile");
    assert_eq!(p.username, "alice");
    assert_eq!(p.email, "alice@tsinghua.edu.cn");
    assert_eq!(p.created_at, "created alice");
    let p = profile(&db, &caller("root")).expect("profile");
    assert_eq!(p.username, "root");
    assert_eq!(p.email, "root@example.com");
    refused(profile(&db, &caller("ghost")), ApiErrorType::InvalidRequest, "User not found");
}

#[test]
fn username_is_changed_after_the_password_was_checked() {
    let mut db = Store::new();
    let hash = hash_password("longpassw0rd").expect("hash");
    db.users.push(account("alice", "alice@tsinghua.edu.cn", &hash));
    db.users.push(account("bob", "bob@tsinghua.edu.cn", &hash));
    db.admins.push(account("root", "root@example.com", &hash));
    let change = |name: &str, password: &str| ModifyUsernameRequest {
        new_username: name.to_string(),
        password: password.to_string(),
    };
    refused(
        modify_username(&mut db, &caller("alice"), &change("", "longpassw0rd")),
        ApiErrorType::InvalidRequest,
        "Invalid username",
    );
    refused(
        modify_username(&mut db, &caller("alice"), &change("bob", "longpassw0rd")),
        ApiErrorType::InvalidRequest,
        "Username already exists",
    );
    refused(
        modify_username(&mut db, &caller("alice"), &change("root", "longpassw0rd")),
        ApiErrorType::InvalidRequest,
        "Username already exists",
    );
    refused(
        modify_username(&mut db, &caller("ghost"), &change("alicia", "longpassw0rd")),
        ApiErrorType::InvalidRequest,
        "User not found",
    );
    refused(
        modify_username(&mut db, &caller("alice"), &change("alicia", "wrong password")),
        ApiErrorType::InvalidRequest,
        "Invalid password",
    );
    assert!(db.journal.is_empty());
    let out = modify_username(&mut db, &caller("alice"), &change("alicia", "longpassw0rd")).expect("renamed");
    assert_eq!(out.status, "success");
    assert_eq!(db.users[0].username, "alicia");
    assert_eq!(db.users[0].email, "alice@tsinghua.edu.cn");
    assert_eq!(db.users[1].username, "bob");
    assert_eq!(db.journal.len(), 1);
    assert!(matches!(
        &db.journal[0],
        Write::RenameUser { username, new_username } if username == "alice" && new_username == "alicia"
    ));
}

#[test]
fn password_is_changed_after_the_current_one_was_checked() {
    let mut db = Store::new();
    let hash = hash_password("longpassw0rd").expect("hash");
    db.users.push(account("alice", "alice@tsinghua.edu.cn", &hash));
    let change = |current: &str, new: &str| ModifyPasswordRequest {
        current_password: current.to_string(),
        new_password: new.to_string(),
    };
    refused(
        modify_password_with(&mut db, &caller("alice"), &change("longpassw0rd", "short"), "h2"),
        ApiErrorType::InvalidRequest,
        "Invalid password",
    );
    refused(
        modify_password_with(&mut db, &caller("ghost"), &change("longpassw0rd", "evenlongerpassw0rd"), "h2"),
        ApiErrorType::InvalidRequest,
        "User not found",
    );
    refused(
        modify_password(&mut db, &caller("alice"), &change("wrong password", "evenlongerpassw0rd")),
        ApiErrorType::InvalidRequest,
        "Invalid current password",
    );
    assert_eq!(db.users[0].password, hash);
    assert!(db.journal.is_empty());
    let out = modify_password_with(&mut db, &caller("alice"), &change("longpassw0rd", "evenlongerpassw0rd"), "h2")
        .expect("changed");
    assert_eq!(out.status, "success");
    assert_eq!(db.users[0].password, "h2");
    assert!(matches!(
        &db.journal[0],
        Write::SetPassword { username, password } if username == "alice" && password == "h2"
    ));
}

#[test]
fn new_password_is_stored_as_a_hash_that_it_verifies_against() {
    let mut db = Store::new();
    let hash = hash_password("longpassw0rd").expect("hash");
    db.users.push(account("alice", "alice@tsinghua.edu.cn", &hash));
    let req = ModifyPasswordRequest {
        current_password: "longpassw0rd".to_string(),
        new_password: "evenlongerpassw0rd".to_string(),
    };
    modify_password(&mut db, &caller("alice"), &req).expect("changed");
    assert_ne!(db.users[0].password, hash);
    assert_ne!(db.users[0].password, "evenlongerpassw0rd");
    assert_eq!(verify_password("evenlongerpassw0rd", &db.users[0].password).ok(), Some(true));
    assert_eq!(verify_password("longpassw0rd", &db.users[0].password).ok(), Some(false));
}

#[test]
fn deleting_the_own_account_keeps_the_statistics() {
    let mut db = Store::new();
    db.users.push(account("alice", "alice@tsinghua.edu.cn", "h"));
    db.users.push(account("bob", "bob@tsinghua.edu.cn", "h"));
    db.stats.push(StatsRecord { username: "alice".to_string(), conversation: 3, tags: vec![] });
    let out = delete_account(&mut db, &caller("alice"));
    assert_eq!(out.status, "success");
    assert_eq!(db.users.len(), 1);
    assert_eq!(db.users[0].username, "bob");
    assert_eq!(db.stats.len(), 1);
    assert!(matches!(&db.journal[0], Write::DeleteUser { username } if username == "alice"));
}

#[test]
fn administrators_list_the_users() {
    let mut db = Store::new();
    db.admins.push(account("root", "root@example.com", "h"));
    refused(get_user_list(&db, &caller("alice")), ApiErrorType::InvalidRequest, "Admin access required");
    let empty = get_user_list(&db, &caller("root")).expect("list");
    assert!(empty.usernames.is_empty());
    db.users.push(account("alice", "alice@tsinghua.edu.cn", "h"));
    db.users.push(account("bob", "bob@tsinghua.edu.cn", "h"));
    let list = get_user_list(&db, &caller("root")).expect("list");
    assert_eq!(list.usernames, vec!["alice", "bob"]);
    assert_eq!(list.emails, vec!["alice@tsinghua.edu.cn", "bob@tsinghua.edu.cn"]);
    assert_eq!(list.created_at, vec!["created alice", "created bob"]);
}

#[test]
fn administrators_read_the_statistics_of_a_user() {
    let mut db = Store::new();
    db.admins.push(account("root", "root@example.com", "h"));
    db.users.push(account("alice", "alice@tsinghua.edu.cn", "h"));
    db.users.push(account("bob", "bob@tsinghua.edu.cn", "h"));
    db.stats.push(StatsRecord {
        username: "alice".to_string(),
        conversation: 4,
        tags: vec![("limits".to_string(), 2), ("series".to_string(), 1)],
    });
    let of = |name: &str| GetUserStatsRequest { username: name.to_string() };
    let out = get_user_stats(&db, &caller("root"), &of("alice")).expect("statistics");
    assert_eq!(out.conversation, 4);
    assert_eq!(out.tags, vec![("limits".to_string(), 2), ("series".to_string(), 1)]);
    refused(get_user_stats(&db, &caller("alice"), &of("alice")), ApiErrorType::InvalidRequest, "Admin access required");
    refused(get_user_stats(&db, &caller("root"), &of("ghost")), ApiErrorType::NotFound, "Resource not found");
    refused(get_user_stats(&db, &caller("root"), &of("bob")), ApiErrorType::NotFound, "Resource not found");
}

#[test]
fn problem_is_answered_with_its_string_tags_and_base64_image() {
    let mut db = Store::new();
    db.qbank.push(Problem {
        id: "p1".to_string(),
        tags: vec![Some("limits".to_string()), None, Some("series".to_string())],
        image: Some(b"Man".to_vec()),
    });
    db.qbank.push(Problem { id: "p2".to_string(), tags: vec![], image: Some(vec![0xff, 0xef, 0xbe, 0x4d]) });
    db.qbank.push(Problem { id: "p3".to_string(), tags: vec![None], image: None });
    db.qbank.push(Problem { id: "p4".to_string(), tags: vec![], image: Some(b"Ma".to_vec()) });
    db.qbank.push(Problem { id: "p5".to_string(), tags: vec![], image: Some(vec![]) });
    let user = caller("alice");
    let p1 = get_problem(&db, &user, "p1").expect("problem");
    assert_eq!(p1.tags, vec!["limits", "series"]);
    assert_eq!(p1.image, "TWFu");
    let p2 = get_problem(&db, &user, "p2").expect("problem");
    assert!(p2.tags.is_empty());
    assert_eq!(p2.image, "/+++TQ==");
    assert_eq!(get_problem(&db, &user, "p4").expect("problem").image, "TWE=");
    assert_eq!(get_problem(&db, &user, "p5").expect("problem").image, "");
    refused(get_problem(&db, &user, "p3"), ApiErrorType::Internal, "Failed to extract image data");
    refused(get_problem(&db, &user, "p9"), ApiErrorType::NotFound, "Problem with ID p9 not found");
}

#[test]
fn question_bank_is_returned_as_loaded() {
    let bank = vec![
        QBankEntry { id: "1".to_string(), tags: vec!["a".to_string(), "b".to_string()], path: "q/1.png".to_string() },
        QBankEntry { id: "2".to_string(), tags: vec![], path: "q/2.png".to_string() },
    ];
    let out = get_qbank(&bank, &caller("alice"));
    assert_eq!(out.len(), 2);
    assert_eq!(out[0].id, "1");
    assert_eq!(out[0].tags, vec!["a", "b"]);
    assert_eq!(out[0].path, "q/1.png");
    assert_eq!(out[1].id, "2");
    assert!(out[1].tags.is_empty());
    assert_eq!(out[1].path, "q/2.png");
    assert!(get_qbank(&Vec::new(), &caller("alice")).is_empty());
}

#[test]
fn weekly_report_goes_to_every_user_with_statistics() {
    let mut db = Store::new();
    db.admins.push(account("root", "root@example.com", "h"));
    db.users.push(account("alice", "alice@tsinghua.edu.cn", "h"));
    db.users.push(account("bob", "bob@tsinghua.edu.cn", "h"));
    db.users.push(account("carol", "carol@tsinghua.edu.cn", "h"));
    db.stats.push(StatsRecord { username: "carol".to_string(), conversation: 0, tags: vec![] });
    db.stats.push(StatsRecord {
        username: "alice".to_string(),
        conversation: 12,
        tags: vec![("limits".to_string(), 2), ("series".to_string(), 1)],
    });
    refused(send_email(&db, &caller("alice"), &config()), ApiErrorType::InvalidRequest, "Admin access required");
    let mails = send_email(&db, &caller("root"), &config()).expect("mails");
    assert_eq!(mails.len(), 2);
    assert_eq!(mails[0].username, "alice");
    assert_eq!(mails[0].from, "YWT Bot <bot@example.com>");
    assert_eq!(mails[0].to, "alice <alice@tsinghua.edu.cn>");
    assert_eq!(mails[0].subject, "YWT 答疑周报");
    assert_eq!(
        mails[0].body,
        "alice 同学你好！\n\n感谢使用 YWT。以下是你的答疑周报：\n\n在过去一周内，你一共与智能助手交谈 12 轮次，主要围绕 limits, series 等知识点。\n\n祝好！\nYWT Team"
    );
    assert_eq!(mails[1].username, "carol");
    assert_eq!(
        mails[1].body,
        "carol 同学你好！\n\n感谢使用 YWT。以下是你的答疑周报：\n\n在过去一周内，你一共与智能助手交谈 0 轮次，主要围绕  等知识点。\n\n祝好！\nYWT Team"
    );
    assert!(db.journal.is_empty());
}

#[test]
fn single_mail_names_the_administrator_who_sent_it() {
    let mut db = Store::new();
    db.admins.push(account("root", "root@example.com", "h"));
    db.users.push(account("alice", "alice@tsinghua.edu.cn", "h"));
    let req = |name: &str| SendSingleEmailRequest {
        username: name.to_string(),
        title: "Office hours".to_string(),
        content: "Moved to Friday.".to_string(),
    };
    refused(
        send_single_email(&db, &caller("alice"), &config(), &req("alice")),
        ApiErrorType::InvalidRequest,
        "Admin access required",
    );
    assert!(send_single_email(&db, &caller("root"), &config(), &req("ghost")).expect("nothing").is_none());
    let mail = send_single_email(&db, &caller("root"), &config(), &req("alice")).expect("mail").expect("mail");
    assert_eq!(mail.username, "alice");
    assert_eq!(mail.from, "YWT Bot <bot@example.com>");
    assert_eq!(mail.to, "alice <alice@tsinghua.edu.cn>");
    assert_eq!(mail.subject, "Office hours");
    assert_eq!(
        mail.body,
        "Moved to Friday.\n\n此邮件由 root <root@example.com> 触发 YWT Bot 发送。若要回复，请直接回复发件人。"
    );
}

#[test]
fn batch_goes_out_in_order_and_stops_at_the_first_failure() {
    let mails = vec![mail_to("alice"), mail_to("bob")];
    assert!(matches!(next_delivery(&mails, &Progress::Start), NextStep::Send(0)));
    assert!(matches!(next_delivery(&mails, &Progress::Sent(0)), NextStep::Send(1)));
    assert!(matches!(next_delivery(&mails, &Progress::Sent(1)), NextStep::Done));
    assert!(matches!(next_delivery(&mails, &Progress::Sent(usize::MAX)), NextStep::Done));
    assert!(matches!(next_delivery(&Vec::new(), &Progress::Start), NextStep::Done));
    let failed = Progress::Failed { username: "alice".to_string(), detail: "connection refused".to_string() };
    match next_delivery(&mails, &failed) {
        NextStep::Abort(e) => {
            assert_eq!(e.error_type, ApiErrorType::Internal);
            assert_eq!(e.message, "Failed to send email to alice: connection refused");
        }
        _ => panic!("batch went on"),
    }
}

#[test]
fn report_is_composed_from_count_and_tag_names() {
    let mail = compose_report("bot@example.com", "bob", "bob@example.com", -3, &vec!["a".to_string()]);
    assert_eq!(mail.to, "bob <bob@example.com>");
    assert!(mail.body.contains("交谈 -3 轮次，主要围绕 a 等知识点"));
}

#[test]
fn numbers_are_written_in_decimal() {
    assert_eq!(decimal(0), "0");
    assert_eq!(decimal(7), "7");
    assert_eq!(decimal(10), "10");
    assert_eq!(decimal(1905), "1905");
    assert_eq!(decimal(-42), "-42");
    assert_eq!(decimal(i32::MAX), "2147483647");
    assert_eq!(decimal(i32::MIN), "-2147483648");
}

#[test]
fn strings_are_joined_with_a_separator() {
    assert_eq!(join(&vec![], ", "), "");
    assert_eq!(join(&vec!["a".to_string()], ", "), "a");
    assert_eq!(join(&vec!["a".to_string(), "b".to_string(), "c".to_string()], ", "), "a, b, c");
    assert_eq!(join(&vec!["".to_string(), "".to_string()], "-"), "-");
}

#[test]
fn suffix_and_prefix_of_strings() {
    assert!(ends_with("alice@tsinghua.edu.cn", "@tsinghua.edu.cn"));
    assert!(ends_with("abc", ""));
    assert!(ends_with("abc", "abc"));
    assert!(!ends_with("bc", "abc"));
    assert!(!ends_with("abcd", "abc"));
    assert!(ends_with("\u{5b66}\u{751f}", "\u{751f}"));
    assert_eq!(strip_prefix("Bearer abc", "Bearer "), Some("abc"));
    assert_eq!(strip_prefix("Bearer ", "Bearer "), Some(""));
    assert_eq!(strip_prefix("bearer abc", "Bearer "), None);
    assert_eq!(strip_prefix("Bear", "Bearer "), None);
}
