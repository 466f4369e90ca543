use ywt::api::login::{admin_login, admin_login_at, login, login_at, LoginRequest};
use ywt::api::register::{
    activation_code, admin_register, admin_register_at, admin_register_with, register,
    register_at, register_with, RegisterRequest,
};
use ywt::api::stats::{clear_stats, get_stats, post_conv_stats, post_stats, StatsRequest};
use ywt::api::users::{delete_user, get_user_stats, DeleteUserRequest, GetUserStatsRequest};
use ywt::api::verify_email::{expiry_verdict, verify_email, verify_email_at, ActivationRequest};
use ywt::clock::Timestamp;
use ywt::config::Config;
use ywt::db::{Store, Write};
use ywt::error::{ApiError, ApiErrorType};
use ywt::jwt::{AuthError, ClaimsValidator};
use ywt::model::{Account, ActivationCode, StatsRecord};
use ywt::password::{hash_password, verify_password};

const SECRET: &str = "ywt_secret";
const CODE: &str = "abcdefghijklmnopqrstuvwxyzABCDEF";
const OTHER_CODE: &str = "0000000000000000000000000000000Z";

fn config() -> Config {
    Config {
        bind_address: "127.0.0.1".to_string(),
        bind_port: 8080,
        mongo_uri: "mongodb://localhost:27017".to_string(),
        mongo_db: "ywt".to_string(),
        admin_username: "root".to_string(),
        admin_email: "root@example.com".to_string(),
        smtp_server: "smtp.example.com".to_string(),
        smtp_port: 587,
        smtp_username: "bot@example.com".to_string(),
    }
}

fn noon() -> Timestamp {
    Timestamp { secs: 1_700_000_000, nanos: 0, offset: 28_800 }
}

fn request(username: &str, email: &str, password: &str) -> RegisterRequest {
    RegisterRequest {
        username: username.to_string(),
        email: email.to_string(),
        password: password.to_string(),
    }
}

fn caller(username: &str) -> ClaimsValidator {
    ClaimsValidator { username: username.to_string() }
}

fn code(text: &str) -> ActivationRequest {
    ActivationRequest { code: text.to_string() }
}

fn account(username: &str, email: &str, password: &str) -> Account {
    Account {
        username: username.to_string(),
        email: email.to_string(),
        password: password.to_string(),
        created_at: "2023-11-15 06:13:20 +08:00".to_string(),
    }
}

fn store_with_admin() -> Store {
    let mut db = Store::new();
    db.admins.push(account("root", "root@example.com", "unused"));
    db
}

fn refused<T>(r: Result<T, ApiError>, kind: ApiErrorType, message: &str) {
    match r {
        Ok(_) => panic!("accepted, expected {}", message),
        Err(e) => {
            assert_eq!(e.error_type, kind);
            assert_eq!(e.message, message);
        }
    }
}

#[test]
fn registration_leaves_a_pending_user_statistics_and_one_code() {
    let mut db = Store::new();
    let req = request("alice", "alice@tsinghua.edu.cn", "longpassw0rd");
    let out = register_at(&mut db, &req, &config(), noon(), "stored hash", CODE).expect("registered");
    assert_eq!(out.response.created_at, "2023-11-15 06:13:20 +08:00");
    assert_eq!(db.tmp_users.len(), 1);
    assert_eq!(db.tmp_users[0].username, "alice");
    assert_eq!(db.tmp_users[0].email, "alice@tsinghua.edu.cn");
    assert_eq!(db.tmp_users[0].password, "stored hash");
    assert_eq!(db.tmp_users[0].created_at, "2023-11-15 06:13:20 +08:00");
    assert!(db.users.is_empty());
    assert_eq!(db.stats.len(), 1);
    assert_eq!(db.stats[0].username, "alice");
    assert_eq!(db.stats[0].conversation, 0);
    assert!(db.stats[0].tags.is_empty());
    assert_eq!(db.activation_codes.len(), 1);
    assert_eq!(db.activation_codes[0].username, "alice");
    assert_eq!(db.activation_codes[0].code, CODE);
    assert_eq!(db.activation_codes[0].created_at, "2023-11-15 06:13:20 +08:00");
    assert_eq!(db.activation_codes[0].expires_at, "2023-11-18 06:13:20 +08:00");
    assert_eq!(out.activation.code, CODE);
    assert_eq!(out.activation.expires_at, "2023-11-18 06:13:20 +08:00");
    assert_eq!(db.journal.len(), 3);
    assert!(matches!(&db.journal[0], Write::InsertPending(a) if a.username == "alice"));
    assert!(matches!(&db.journal[1], Write::InsertStats { username } if username == "alice"));
    assert!(matches!(&db.journal[2], Write::InsertCode(c) if c.code == CODE));
}

#[test]
fn registration_composes_the_activation_mail() {
    let mut db = Store::new();
    let req = request("alice", "alice@tsinghua.edu.cn", "longpassw0rd");
    let out = register_at(&mut db, &req, &config(), noon(), "stored hash", CODE).expect("registered");
    assert_eq!(out.mail.username, "alice");
    assert_eq!(out.mail.from, "YWT Bot <bot@example.com>");
    assert_eq!(out.mail.to, "alice <alice@tsinghua.edu.cn>");
    assert_eq!(out.mail.subject, "Activate your YWT account");
    assert_eq!(
        out.mail.body,
        "Hello alice,\n\nYour activation code is abcdefghijklmnopqrstuvwxyzABCDEF\n\nThis code will expire in 3 days.\n\nBest regards,\nYWT Team"
    );
}

#[test]
fn activation_with_wrong_then_right_code() {
    let mut db = Store::new();
    let req = request("alice", "alice@tsinghua.edu.cn", "longpassw0rd");
    register_at(&mut db, &req, &config(), noon(), "stored hash", CODE).expect("registered");
    let later = noon().plus_seconds(3_600).expect("later");

    refused(
        verify_email_at(&mut db, "alice", &code(OTHER_CODE), later),
        ApiErrorType::InvalidRequest,
        "Invalid activation code",
    );
    refused(
        verify_email_at(&mut db, "bob", &code(CODE), later),
        ApiErrorType::InvalidRequest,
        "Invalid activation code",
    );
    assert_eq!(db.tmp_users.len(), 1);
    assert_eq!(db.activation_codes.len(), 1);
    assert!(db.users.is_empty());

    verify_email_at(&mut db, "alice", &code(CODE), later).expect("activated");
    assert!(db.tmp_users.is_empty());
    assert!(db.activation_codes.is_empty());
    assert_eq!(db.users.len(), 1);
    assert_eq!(db.users[0].username, "alice");
    assert_eq!(db.users[0].email, "alice@tsinghua.edu.cn");
    assert_eq!(db.users[0].password, "stored hash");
    assert_eq!(db.users[0].created_at, "2023-11-15 06:13:20 +08:00");
    assert_eq!(db.stats.len(), 1);

    refused(
        verify_email_at(&mut db, "alice", &code(CODE), later),
        ApiErrorType::InvalidRequest,
        "Invalid activation code",
    );
    assert_eq!(db.users.len(), 1);
}

#[test]
fn activation_is_possible_until_the_code_expires() {
    let req = request("alice", "alice@tsinghua.edu.cn", "longpassw0rd");
    let end = noon().plus_seconds(259_200).expect("end");

    let mut db = Store::new();
    register_at(&mut db, &req, &config(), noon(), "h", CODE).expect("registered");
    verify_email_at(&mut db, "alice", &code(CODE), end).expect("activated at the last instant");
    assert_eq!(db.users.len(), 1);

    let mut db = Store::new();
    register_at(&mut db, &req, &config(), noon(), "h", CODE).expect("registered");
    let late = Timestamp { nanos: 1, ..end };
    refused(
        verify_email_at(&mut db, "alice", &code(CODE), late),
        ApiErrorType::InvalidRequest,
        "Activation code has expired",
    );
    let in_another_zone = Timestamp { secs: end.secs + 1, nanos: 0, offset: -36_000 };
    refused(
        verify_email_at(&mut db, "alice", &code(CODE), in_another_zone),
        ApiErrorType::InvalidRequest,
        "Activation code has expired",
    );
    assert!(db.users.is_empty());
    assert_eq!(db.tmp_users.len(), 1);
    assert_eq!(db.activation_codes.len(), 1);
    assert_eq!(db.journal.len(), 3);
}

#[test]
fn unreadable_expiry_is_an_internal_error() {
    let mut db = Store::new();
    db.tmp_users.push(account("alice", "alice@tsinghua.edu.cn", "h"));
    db.activation_codes.push(ActivationCode {
        username: "alice".to_string(),
        code: CODE.to_string(),
        created_at: "yesterday".to_string(),
        expires_at: "tomorrow".to_string(),
    });
    refused(
        verify_email_at(&mut db, "alice", &code(CODE), noon()),
        ApiErrorType::Internal,
        "Failed to parse expiration date",
    );
    assert_eq!(db.tmp_users.len(), 1);
    assert_eq!(db.activation_codes.len(), 1);
}

#[test]
fn registration_and_activation_with_the_real_clock() {
    let mut db = Store::new();
    let req = request("alice", "alice@tsinghua.edu.cn", "longpassw0rd");
    let out = register(&mut db, &req, &config()).expect("registered");
    assert_eq!(out.activation.code.len(), 32);
    assert!(out.activation.code.chars().all(|c| c.is_ascii_alphanumeric()));
    assert_eq!(out.activation.username, "alice");
    assert_eq!(db.tmp_users.len(), 1);
    assert_ne!(db.tmp_users[0].password, "longpassw0rd");
    assert_eq!(verify_password("longpassw0rd", &db.tmp_users[0].password).ok(), Some(true));
    assert_eq!(db.activation_codes[0].code, out.activation.code);
    let created = Timestamp::from_text(&out.response.created_at).expect("created_at");
    let expires = Timestamp::from_text(&db.activation_codes[0].expires_at).expect("expires_at");
    assert!(created.secs > 1_577_836_800);
    assert_eq!(expires.secs, created.secs + 259_200);
    assert_eq!(expires.nanos, created.nanos);
    assert!(out.mail.body.contains(&out.activation.code));

    refused(
        verify_email(&mut db, "alice", &code(OTHER_CODE)),
        ApiErrorType::InvalidRequest,
        "Invalid activation code",
    );
    let presented = ActivationRequest { code: out.activation.code.clone() };
    verify_email(&mut db, "alice", &presented).expect("activated");
    assert_eq!(db.users.len(), 1);
    assert!(db.tmp_users.is_empty());
    assert!(db.activation_codes.is_empty());
    refused(
        verify_email(&mut db, "alice", &presented),
        ApiErrorType::InvalidRequest,
        "Invalid activation code",
    );
}

#[test]
fn activation_codes_are_random() {
    let a = activation_code();
    let b = activation_code();
    assert_eq!(a.len(), 32);
    assert_eq!(b.len(), 32);
    assert!(a.chars().all(|c| c.is_ascii_alphanumeric()));
    assert!(b.chars().all(|c| c.is_ascii_alphanumeric()));
    assert_ne!(a, b);
}

#[test]
fn invalid_registration_changes_nothing() {
    let mut db = Store::new();
    refused(
        register_at(&mut db, &request("", "alice@tsinghua.edu.cn", "longpassw0rd"), &config(), noon(), "h", CODE),
        ApiErrorType::InvalidRequest,
        "Invalid username",
    );
    refused(
        register_at(&mut db, &request("alice", "alice@example.com", "longpassw0rd"), &config(), noon(), "h", CODE),
        ApiErrorType::InvalidRequest,
        "Invalid email",
    );
    refused(
        register_at(&mut db, &request("alice", "alice@tsinghua.edu.cn", "short"), &config(), noon(), "h", CODE),
        ApiErrorType::InvalidRequest,
        "Invalid password",
    );
    refused(
        register(&mut db, &request("alice", "alice@tsinghua.edu.cn", "short"), &config()),
        ApiErrorType::InvalidRequest,
        "Invalid password",
    );
    assert!(db.tmp_users.is_empty());
    assert!(db.stats.is_empty());
    assert!(db.activation_codes.is_empty());
    assert!(db.journal.is_empty());
}

#[test]
fn registration_outside_the_calendar_is_an_internal_error() {
    let mut db = Store::new();
    let req = request("alice", "alice@tsinghua.edu.cn", "longpassw0rd");
    let end_of_time = Timestamp { secs: i64::MAX - 10, nanos: 0, offset: 0 };
    refused(
        register_at(&mut db, &req, &config(), end_of_time, "h", CODE),
        ApiErrorType::Internal,
        "Time out of range",
    );
    assert!(db.journal.is_empty());
}

#[test]
fn second_registration_of_an_active_name_is_refused() {
    let mut db = Store::new();
    let req = request("alice", "alice@tsinghua.edu.cn", "longpassw0rd");
    register_at(&mut db, &req, &config(), noon(), "h", CODE).expect("registered");
    verify_email_at(&mut db, "alice", &code(CODE), noon()).expect("activated");

    let again = request("alice", "other@tsinghua.edu.cn", "longpassw0rd");
    refused(
        register_at(&mut db, &again, &config(), noon(), "h", OTHER_CODE),
        ApiErrorType::InvalidRequest,
        "Username already exists",
    );
    let same_email = request("alice2", "alice@tsinghua.edu.cn", "longpassw0rd");
    refused(
        register_at(&mut db, &same_email, &config(), noon(), "h", OTHER_CODE),
        ApiErrorType::InvalidRequest,
        "Email already exists",
    );
    db.admins.push(account("root", "root@example.com", "unused"));
    refused(
        admin_register_at(&mut db, &again, &caller("root"), noon(), "h"),
        ApiErrorType::InvalidRequest,
        "Error",
    );
    assert_eq!(db.users.len(), 1);
    assert!(db.tmp_users.is_empty());
    assert_eq!(db.admins.len(), 1);
}

#[test]
fn name_of_an_administrator_is_refused_to_everyone() {
    let mut db = store_with_admin();
    let first = request("carol", "carol@example.com", "longpassw0rd");
    let out = admin_register_at(&mut db, &first, &caller("root"), noon(), "h").expect("created");
    assert_eq!(out.created_at, "2023-11-15 06:13:20 +08:00");
    assert_eq!(db.admins.len(), 2);
    assert_eq!(db.admins[1].username, "carol");
    assert_eq!(db.admins[1].email, "carol@example.com");
    assert_eq!(db.admins[1].password, "h");
    assert!(db.stats.is_empty());
    assert!(db.activation_codes.is_empty());

    refused(
        admin_register_at(&mut db, &request("carol", "c2@example.com", "longpassw0rd"), &caller("root"), noon(), "h"),
        ApiErrorType::InvalidRequest,
        "Error",
    );
    refused(
        admin_register_at(&mut db, &request("dave", "carol@example.com", "longpassw0rd"), &caller("carol"), noon(), "h"),
        ApiErrorType::InvalidRequest,
        "Error",
    );
    refused(
        register_at(&mut db, &request("carol", "carol@tsinghua.edu.cn", "longpassw0rd"), &config(), noon(), "h", CODE),
        ApiErrorType::InvalidRequest,
        "Username already exists",
    );
    assert_eq!(db.admins.len(), 2);
    assert!(db.tmp_users.is_empty());
}

#[test]
fn only_an_administrator_registers_administrators() {
    let mut db = store_with_admin();
    db.users.push(account("alice", "alice@tsinghua.edu.cn", "unused"));
    let req = request("carol", "carol@example.com", "longpassw0rd");
    refused(
        admin_register_at(&mut db, &req, &caller("alice"), noon(), "h"),
        ApiErrorType::InvalidRequest,
        "Error",
    );
    refused(
        admin_register(&mut db, &req, &caller("nobody")),
        ApiErrorType::InvalidRequest,
        "Error",
    );
    refused(
        admin_register_at(&mut db, &request("carol", "bad", "longpassw0rd"), &caller("root"), noon(), "h"),
        ApiErrorType::InvalidRequest,
        "Invalid email",
    );
    assert_eq!(db.admins.len(), 1);
    let out = admin_register(&mut db, &req, &caller("root")).expect("created");
    assert_eq!(db.admins.len(), 2);
    assert_eq!(db.admins[1].created_at, out.created_at);
    assert_eq!(verify_password("longpassw0rd", &db.admins[1].password).ok(), Some(true));
}

#[test]
fn pending_name_can_be_registered_again() {
    let mut db = Store::new();
    let req = request("alice", "alice@tsinghua.edu.cn", "longpassw0rd");
    register_at(&mut db, &req, &config(), noon(), "h", CODE).expect("registered");
    register_at(&mut db, &req, &config(), noon(), "h", OTHER_CODE).expect("registered again");
    assert_eq!(db.tmp_users.len(), 2);
    assert_eq!(db.activation_codes.len(), 2);
}

#[test]
fn login_with_the_right_password_gives_a_token_for_twelve_hours() {
    let mut db = Store::new();
    let hash = hash_password("longpassw0rd").expect("hash");
    db.users.push(account("alice", "alice@tsinghua.edu.cn", &hash));
    let req = LoginRequest { username: "alice".to_string(), password: "longpassw0rd".to_string() };
    let now: u64 = 1_700_000_000;
    let out = login_at(&db, &req, SECRET, now).expect("logged in");
    let v = ClaimsValidator::authenticate_at(&out.token, SECRET, now).expect("accepted");
    assert_eq!(v.username, "alice");
    assert!(ClaimsValidator::authenticate_at(&out.token, SECRET, now + 43_199).is_ok());
    assert_eq!(
        ClaimsValidator::authenticate_at(&out.token, SECRET, now + 43_200).err(),
        Some(AuthError::InvalidToken)
    );
    assert!(db.journal.is_empty());
}

#[test]
fn login_with_a_wrong_password_or_name_is_an_invalid_request() {
    let mut db = Store::new();
    let hash = hash_password("longpassw0rd").expect("hash");
    db.users.push(account("alice", "alice@tsinghua.edu.cn", &hash));
    db.admins.push(account("root", "root@example.com", &hash));
    let wrong = LoginRequest { username: "alice".to_string(), password: "longpassw0rD".to_string() };
    refused(login_at(&db, &wrong, SECRET, 1_700_000_000), ApiErrorType::InvalidRequest, "Invalid password");
    refused(login(&db, &wrong, SECRET), ApiErrorType::InvalidRequest, "Invalid password");
    let unknown = LoginRequest { username: "bob".to_string(), password: "longpassw0rd".to_string() };
    refused(login_at(&db, &unknown, SECRET, 1_700_000_000), ApiErrorType::InvalidRequest, "User not found");
    let admin_as_user = LoginRequest { username: "root".to_string(), password: "longpassw0rd".to_string() };
    refused(login_at(&db, &admin_as_user, SECRET, 1_700_000_000), ApiErrorType::InvalidRequest, "User not found");
}

#[test]
fn admin_login_does_not_tell_unknown_names_from_wrong_passwords() {
    let mut db = Store::new();
    let hash = hash_password("adminpassword").expect("hash");
    db.admins.push(account("root", "root@example.com", &hash));
    let wrong = LoginRequest { username: "root".to_string(), password: "guess".to_string() };
    let unknown = LoginRequest { username: "toor".to_string(), password: "adminpassword".to_string() };
    refused(admin_login_at(&db, &wrong, SECRET, 1_700_000_000), ApiErrorType::InvalidRequest, "Error");
    refused(admin_login_at(&db, &unknown, SECRET, 1_700_000_000), ApiErrorType::InvalidRequest, "Error");
    refused(admin_login(&db, &unknown, SECRET), ApiErrorType::InvalidRequest, "Error");
    let right = LoginRequest { username: "root".to_string(), password: "adminpassword".to_string() };
    let out = admin_login(&db, &right, SECRET).expect("logged in");
    let v = ClaimsValidator::from_request(Some(&format!("Bearer {}", out.token)), SECRET).expect("accepted");
    assert_eq!(v.username, "root");
}

#[test]
fn login_against_an_unreadable_hash_is_an_internal_error() {
    let mut db = Store::new();
    db.users.push(account("alice", "alice@tsinghua.edu.cn", "plain text"));
    let req = LoginRequest { username: "alice".to_string(), password: "plain text".to_string() };
    match login_at(&db, &req, SECRET, 1_700_000_000) {
        Ok(_) => panic!("logged in"),
        Err(e) => {
            assert_eq!(e.error_type, ApiErrorType::Internal);
            assert!(e.message.starts_with("Argon2 error: "));
        }
    }
}

#[test]
fn registered_user_logs_in_after_activation() {
    let mut db = Store::new();
    let req = request("alice", "alice@tsinghua.edu.cn", "longpassw0rd");
    let out = register(&mut db, &req, &config()).expect("registered");
    let creds = LoginRequest { username: "alice".to_string(), password: "longpassw0rd".to_string() };
    refused(login(&db, &creds, SECRET), ApiErrorType::InvalidRequest, "User not found");
    verify_email(&mut db, "alice", &ActivationRequest { code: out.activation.code }).expect("activated");
    let token = login(&db, &creds, SECRET).expect("logged in").token;
    let v = ClaimsValidator::from_request(Some(&format!("Bearer {}", token)), SECRET).expect("accepted");
    assert_eq!(v.username, "alice");
}

#[test]
fn tags_a_b_a_on_fresh_statistics_give_a_two_and_b_one() {
    let mut db = Store::new();
    db.apply(Write::InsertStats { username: "alice".to_string() });
    let req = StatsRequest { tag: vec!["a".to_string(), "b".to_string(), "a".to_string()] };
    post_stats(&mut db, &caller("alice"), &req).expect("counted");
    let out = get_stats(&db, &caller("alice")).expect("statistics");
    assert_eq!(out.conversation, 0);
    assert_eq!(out.tags, vec![("a".to_string(), 2), ("b".to_string(), 1)]);
    post_conv_stats(&mut db, &caller("alice")).expect("counted");
    post_conv_stats(&mut db, &caller("alice")).expect("counted");
    post_stats(&mut db, &caller("alice"), &StatsRequest { tag: vec!["b".to_string()] }).expect("counted");
    let out = get_stats(&db, &caller("alice")).expect("statistics");
    assert_eq!(out.conversation, 2);
    assert_eq!(out.tags, vec![("a".to_string(), 2), ("b".to_string(), 2)]);
}

#[test]
fn statistics_of_an_unknown_user_are_an_invalid_request() {
    let mut db = Store::new();
    refused(get_stats(&db, &caller("ghost")), ApiErrorType::InvalidRequest, "User not found");
    post_conv_stats(&mut db, &caller("ghost")).expect("nothing to count");
    post_stats(&mut db, &caller("ghost"), &StatsRequest { tag: vec!["a".to_string()] }).expect("nothing to count");
    assert!(db.stats.is_empty());
    assert_eq!(db.journal.len(), 2);
}

#[test]
fn full_counter_fails_the_request_and_counts_nothing() {
    let mut db = Store::new();
    db.stats.push(StatsRecord {
        username: "alice".to_string(),
        conversation: i32::MAX,
        tags: vec![("a".to_string(), i32::MAX - 1), ("b".to_string(), 7)],
    });
    refused(post_conv_stats(&mut db, &caller("alice")), ApiErrorType::Internal, "Counter overflow");
    let req = StatsRequest { tag: vec!["b".to_string(), "a".to_string(), "a".to_string()] };
    refused(post_stats(&mut db, &caller("alice"), &req), ApiErrorType::Internal, "Counter overflow");
    assert_eq!(db.stats[0].conversation, i32::MAX);
    assert_eq!(db.stats[0].tags, vec![("a".to_string(), i32::MAX - 1), ("b".to_string(), 7)]);
    assert!(db.journal.is_empty());
    post_stats(&mut db, &caller("alice"), &StatsRequest { tag: vec!["a".to_string()] }).expect("counted");
    assert_eq!(db.stats[0].tags[0], ("a".to_string(), i32::MAX));
}

#[test]
fn cleared_statistics_show_nothing_for_any_user() {
    let mut db = store_with_admin();
    db.apply(Write::InsertStats { username: "alice".to_string() });
    db.apply(Write::InsertStats { username: "bob".to_string() });
    post_conv_stats(&mut db, &caller("alice")).expect("counted");
    post_stats(&mut db, &caller("bob"), &StatsRequest { tag: vec!["x".to_string()] }).expect("counted");
    refused(clear_stats(&mut db, &caller("alice")), ApiErrorType::InvalidRequest, "Admin access required");
    assert_eq!(get_stats(&db, &caller("alice")).expect("statistics").conversation, 1);
    clear_stats(&mut db, &caller("root")).expect("cleared");
    for name in ["alice", "bob"] {
        let out = get_stats(&db, &caller(name)).expect("statistics");
        assert_eq!(out.conversation, 0);
        assert!(out.tags.is_empty());
    }
    refused(get_stats(&db, &caller("ghost")), ApiErrorType::InvalidRequest, "User not found");
}

#[test]
fn deleted_user_has_no_statistics_left() {
    let mut db = store_with_admin();
    db.users.push(account("bob", "bob@tsinghua.edu.cn", "h"));
    db.users.push(account("alice", "alice@tsinghua.edu.cn", "h"));
    db.stats.push(StatsRecord { username: "bob".to_string(), conversation: 5, tags: vec![] });
    db.stats.push(StatsRecord { username: "alice".to_string(), conversation: 1, tags: vec![] });
    let wanted = GetUserStatsRequest { username: "bob".to_string() };
    assert_eq!(get_user_stats(&db, &caller("root"), &wanted).expect("statistics").conversation, 5);

    delete_user(&mut db, &caller("root"), &DeleteUserRequest { username: "bob".to_string() }).expect("deleted");
    refused(get_user_stats(&db, &caller("root"), &wanted), ApiErrorType::NotFound, "Resource not found");
    assert_eq!(db.users.len(), 1);
    assert_eq!(db.users[0].username, "alice");
    assert_eq!(db.stats.len(), 1);
    assert_eq!(db.stats[0].username, "alice");
    assert_eq!(db.journal.len(), 2);
    assert!(matches!(&db.journal[0], Write::DeleteUser { username } if username == "bob"));
    assert!(matches!(&db.journal[1], Write::DeleteStats { username } if username == "bob"));
    refused(
        delete_user(&mut db, &caller("root"), &DeleteUserRequest { username: "bob".to_string() }),
        ApiErrorType::NotFound,
        "Resource not found",
    );
}

#[test]
fn registration_stores_the_texts_it_is_given() {
    let mut db = store_with_admin();
    let req = request("alice", "alice@tsinghua.edu.cn", "longpassw0rd");
    let out = register_with(&mut db, &req, &config(), "t0", "t3", "h", CODE).expect("registered");
    assert_eq!(out.response.created_at, "t0");
    assert_eq!(out.activation.created_at, "t0");
    assert_eq!(out.activation.expires_at, "t3");
    assert_eq!(db.tmp_users[0].created_at, "t0");
    assert_eq!(db.tmp_users[0].password, "h");
    assert_eq!(db.activation_codes[0].expires_at, "t3");
    refused(
        register_with(&mut db, &request("root", "r@tsinghua.edu.cn", "longpassw0rd"), &config(), "t0", "t3", "h", CODE),
        ApiErrorType::InvalidRequest,
        "Username already exists",
    );
    let carol = request("carol", "carol@example.com", "longpassw0rd");
    let created = admin_register_with(&mut db, &carol, &caller("root"), "t1", "h2").expect("created");
    assert_eq!(created.created_at, "t1");
    assert_eq!(db.admins[1].username, "carol");
    assert_eq!(db.admins[1].created_at, "t1");
    assert_eq!(db.admins[1].password, "h2");
    refused(
        admin_register_with(&mut db, &carol, &caller("alice"), "t1", "h2"),
        ApiErrorType::InvalidRequest,
        "Error",
    );
}

#[test]
fn expiry_decides_the_activation() {
    let end = Timestamp { secs: 100, nanos: 5, offset: 0 };
    assert!(expiry_verdict(Some(end), Timestamp { secs: 99, nanos: 999, offset: 0 }).is_ok());
    assert!(expiry_verdict(Some(end), end).is_ok());
    refused(
        expiry_verdict(Some(end), Timestamp { secs: 100, nanos: 6, offset: 0 }),
        ApiErrorType::InvalidRequest,
        "Activation code has expired",
    );
    refused(expiry_verdict(None, end), ApiErrorType::Internal, "Failed to parse expiration date");
}
