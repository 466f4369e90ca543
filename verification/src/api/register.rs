//! Registration: self-service, which leaves a pending account and an
//! activation code, and registration by an administrator, which creates an
//! administrator at once.

use vstd::prelude::*;
use vstd::string::*;
use crate::clock::{ACTIVATION_SECONDS, Timestamp};
use crate::config::Config;
use crate::db::{
    AdminType, Store, StoreView, UserType, Write, WriteView, check_admin_exists,
    check_email_exists, check_user_exists, create_user_with,
};
use crate::email::{OutgoingMail, activation_mail, compose_activation};
use crate::error::{ApiError, ApiErrorType, ApiResult};
use crate::jwt::ClaimsValidator;
use crate::model::{AccountView, ActivationCode, ActivationCodeView};
use crate::password::{hash_password, password_check};
use crate::utils::{
    check_email, check_email_tsinghua, check_password, check_username, valid_email,
    valid_email_tsinghua, valid_password, valid_username,
};

verus! {

#[derive(Debug, Clone)]
pub struct RegisterRequest {
    pub username: String,
    pub email: String,
    pub password: String,
}

pub struct RegisterRequestView {
    pub username: Seq<char>,
    pub email: Seq<char>,
    pub password: Seq<char>,
}

impl View for RegisterRequest {
    type V = RegisterRequestView;

    open spec fn view(&self) -> RegisterRequestView {
        RegisterRequestView {
            username: self.username@,
            email: self.email@,
            password: self.password@,
        }
    }
}

#[derive(Debug, Clone)]
pub struct RegisterResponse {
    pub created_at: String,
}

/// What a self-service registration hands back: the response, the activation
/// code that was stored, and the mail that carries the code to the user.
#[derive(Debug, Clone)]
pub struct Registration {
    pub response: RegisterResponse,
    pub activation: ActivationCode,
    pub mail: OutgoingMail,
}

/// Length of an activation code.
pub const CODE_LENGTH: usize = 32;

/// The email rule of a registration: strict for self-service.
pub open spec fn email_accepted(email: Seq<char>, tsinghua: bool) -> bool {
    if tsinghua {
        valid_email_tsinghua(email)
    } else {
        valid_email(email)
    }
}

/// The message of the first shape rule that the request breaks, if any:
/// username, then email, then password.
pub open spec fn shape_error(req: RegisterRequestView, tsinghua: bool) -> Option<Seq<char>> {
    if !valid_username(req.username) {
        Some("Invalid username"@)
    } else if !email_accepted(req.email, tsinghua) {
        Some("Invalid email"@)
    } else if !valid_password(req.password) {
        Some("Invalid password"@)
    } else {
        None
    }
}

pub fn check_req(req: &RegisterRequest, tsinghua: bool) -> (r: ApiResult<()>)
    ensures
        match shape_error(req@, tsinghua) {
            Some(message) => r matches Err(e) && e.is(ApiErrorType::InvalidRequest, message),
            None => r is Ok,
        },
{
    match check_username(req.username.as_str()) {
        Err(e) => {
            return Err(e);
        },
        Ok(()) => {},
    }
    let email = if tsinghua {
        check_email_tsinghua(req.email.as_str())
    } else {
        check_email(req.email.as_str())
    };
    match email {
        Err(e) => {
            return Err(e);
        },
        Ok(()) => {},
    }
    check_password(req.password.as_str())
}

/// Why a self-service registration is refused, if it is: a broken shape
/// rule, or a username or email address that an active user or an
/// administrator already has.
pub open spec fn register_refusal(s: StoreView, req: RegisterRequestView) -> Option<Seq<char>> {
    if shape_error(req, true) is Some {
        shape_error(req, true)
    } else if s.username_taken(req.username) {
        Some("Username already exists"@)
    } else if s.email_exists(req.email) {
        Some("Email already exists"@)
    } else {
        None
    }
}

/// The stored texts of the time of registration and of the end of the
/// activation period, three days later; `None` where the clock's value has
/// no text.
pub open spec fn activation_window(now: Timestamp) -> Option<(Seq<char>, Seq<char>)> {
    match (now.text(), now.spec_plus_seconds(ACTIVATION_SECONDS)) {
        (Some(created_at), Some(end)) => match end.text() {
            Some(expires_at) => Some((created_at, expires_at)),
            None => None,
        },
        _ => None,
    }
}

/// The activation code document of a registration.
pub open spec fn activation_of(
    username: Seq<char>,
    code: Seq<char>,
    window: (Seq<char>, Seq<char>),
) -> ActivationCodeView {
    ActivationCodeView { username, code, created_at: window.0, expires_at: window.1 }
}

/// The store after a self-service registration: a pending account, fresh
/// statistics and an activation code were added, in this order.
pub open spec fn registered(
    s: StoreView,
    req: RegisterRequestView,
    window: (Seq<char>, Seq<char>),
    password_hash: Seq<char>,
    code: Seq<char>,
) -> StoreView {
    s.apply(
        WriteView::InsertPending(
            AccountView {
                username: req.username,
                email: req.email,
                password: password_hash,
                created_at: window.0,
            },
        ),
    ).apply(WriteView::InsertStats { username: req.username }).apply(
        WriteView::InsertCode(activation_of(req.username, code, window)),
    )
}

/// An internal error with the message "Time out of range".
pub open spec fn clock_failure(e: ApiError) -> bool {
    e.is(ApiErrorType::Internal, "Time out of range"@)
}

/// Letters and digits of ASCII.
pub open spec fn alphanumeric(c: char) -> bool {
    ('0' <= c && c <= '9') || ('a' <= c && c <= 'z') || ('A' <= c && c <= 'Z')
}

/// An activation code: 32 letters and digits.
pub open spec fn code_shaped(code: Seq<char>) -> bool {
    code.len() == CODE_LENGTH && forall|i: int| 0 <= i < code.len() ==> alphanumeric(#[trigger] code[i])
}

/// Draws one character with `rand::Rng::sample` from `rand::distr::Alphanumeric`
/// on the thread's generator. Which character comes is left open; every one
/// is an ASCII letter or digit.
#[verifier::external_body]
fn random_alphanumeric() -> (s: String)
    ensures
        s@.len() == 1,
        alphanumeric(s@[0]),
{
    let byte: u8 = rand::Rng::sample(&mut rand::rng(), rand::distr::Alphanumeric);
    String::from(byte as char)
}

/// A fresh random activation code.
pub fn activation_code() -> (code: String)
    ensures
        code_shaped(code@),
{
    let mut code = String::new();
    let mut i: usize = 0;
    while i < CODE_LENGTH
        invariant
            i <= CODE_LENGTH,
            code@.len() == i,
            forall|j: int| 0 <= j < code@.len() ==> alphanumeric(#[trigger] code@[j]),
        decreases CODE_LENGTH - i,
    {
        let c = random_alphanumeric();
        code.append(c.as_str());
        i += 1;
    }
    code
}

/// Whether a self-service registration may go ahead.
pub fn register_check(db: &Store, req: &RegisterRequest) -> (r: ApiResult<()>)
    ensures
        match register_refusal(db@, req@) {
            Some(message) => r matches Err(e) && e.is(ApiErrorType::InvalidRequest, message),
            None => r is Ok,
        },
{
    match check_req(req, true) {
        Err(e) => {
            return Err(e);
        },
        Ok(()) => {},
    }
    if check_admin_exists(db, req.username.as_str()) || check_user_exists(db, req.username.as_str()) {
        return Err(
            ApiError::new(ApiErrorType::InvalidRequest, "Username already exists".to_string()),
        );
    }
    if check_email_exists(db, req.email.as_str()) {
        return Err(ApiError::new(ApiErrorType::InvalidRequest, "Email already exists".to_string()));
    }
    Ok(())
}

/// Self-service registration with everything there is to store: the texts
/// of the time of registration and of the end of the activation period, the
/// password hash and the activation code. A refused request changes nothing.
pub fn register_with(
    db: &mut Store,
    req: &RegisterRequest,
    config: &Config,
    created_at: &str,
    expires_at: &str,
    password_hash: &str,
    code: &str,
) -> (r: ApiResult<Registration>)
    ensures
        match register_refusal(old(db)@, req@) {
            Some(message) => {
                &&& r matches Err(e)
                &&& e.is(ApiErrorType::InvalidRequest, message)
                &&& final(db)@ == old(db)@
            },
            None => {
                &&& r matches Ok(out)
                &&& final(db)@ == registered(
                    old(db)@,
                    req@,
                    (created_at@, expires_at@),
                    password_hash@,
                    code@,
                )
                &&& out.response.created_at@ == created_at@
                &&& out.activation@ == activation_of(req.username@, code@, (created_at@, expires_at@))
                &&& out.mail@ == activation_mail(
                    config.smtp_username@,
                    req.username@,
                    req.email@,
                    code@,
                )
            },
        },
{
    match register_check(db, req) {
        Err(e) => {
            return Err(e);
        },
        Ok(()) => {},
    }
    create_user_with::<UserType>(
        db,
        req.username.as_str(),
        req.email.as_str(),
        password_hash,
        created_at,
    );
    db.apply(Write::InsertStats { username: req.username.clone() });
    let activation = ActivationCode {
        username: req.username.clone(),
        code: code.to_string(),
        created_at: created_at.to_string(),
        expires_at: expires_at.to_string(),
    };
    db.apply(Write::InsertCode(activation.duplicate()));
    let mail = compose_activation(
        config.smtp_username.as_str(),
        req.username.as_str(),
        req.email.as_str(),
        code,
    );
    Ok(Registration { response: RegisterResponse { created_at: created_at.to_string() }, activation, mail })
}

/// Self-service registration at the time `now`, with the password hash and
/// the activation code to store. A refused request changes nothing; so does
/// a clock whose value has no text.
pub fn register_at(
    db: &mut Store,
    req: &RegisterRequest,
    config: &Config,
    now: Timestamp,
    password_hash: &str,
    code: &str,
) -> (r: ApiResult<Registration>)
    ensures
        match register_refusal(old(db)@, req@) {
            Some(message) => {
                &&& r matches Err(e)
                &&& e.is(ApiErrorType::InvalidRequest, message)
                &&& final(db)@ == old(db)@
            },
            None => match activation_window(now) {
                None => r matches Err(e) && clock_failure(e) && final(db)@ == old(db)@,
                Some(window) => {
                    &&& r matches Ok(out)
                    &&& final(db)@ == registered(old(db)@, req@, window, password_hash@, code@)
                    &&& out.response.created_at@ == window.0
                    &&& out.activation@ == activation_of(req.username@, code@, window)
                    &&& out.mail@ == activation_mail(
                        config.smtp_username@,
                        req.username@,
                        req.email@,
                        code@,
                    )
                },
            },
        },
{
    match register_check(db, req) {
        Err(e) => {
            return Err(e);
        },
        Ok(()) => {},
    }
    let created_at = match now.to_text() {
        Some(t) => t,
        None => {
            return Err(ApiError::new(ApiErrorType::Internal, "Time out of range".to_string()));
        },
    };
    let expires_at = match now.plus_seconds(ACTIVATION_SECONDS) {
        Some(end) => match end.to_text() {
            Some(t) => t,
            None => {
                return Err(ApiError::new(ApiErrorType::Internal, "Time out of range".to_string()));
            },
        },
        None => {
            return Err(ApiError::new(ApiErrorType::Internal, "Time out of range".to_string()));
        },
    };
    register_with(db, req, config, created_at.as_str(), expires_at.as_str(), password_hash, code)
}

/// Self-service registration now, with a fresh password hash and a fresh
/// activation code. Whatever clock, hasher and generator give: a refused
/// request is answered as `register_refusal` says and changes nothing; a
/// failure of the clock or the hasher is an internal error and changes
/// nothing; otherwise the store is the one `registered` describes for the
/// code handed back and for a hash that the password verifies against.
pub fn register(db: &mut Store, req: &RegisterRequest, config: &Config) -> (r: ApiResult<
    Registration,
>)
    ensures
        match register_refusal(old(db)@, req@) {
            Some(message) => {
                &&& r matches Err(e)
                &&& e.is(ApiErrorType::InvalidRequest, message)
                &&& final(db)@ == old(db)@
            },
            None => match r {
                Err(e) => e.error_type == ApiErrorType::Internal && final(db)@ == old(db)@,
                Ok(out) => {
                    &&& code_shaped(out.activation.code@)
                    &&& exists|now: Timestamp| #[trigger]
                        activation_window(now) == Some(
                            (out.activation.created_at@, out.activation.expires_at@),
                        )
                    &&& out.activation.username@ == req.username@
                    &&& out.response.created_at@ == out.activation.created_at@
                    &&& final(db)@.tmp_users.len() == old(db)@.tmp_users.len() + 1
                    &&& password_check(req.password@, final(db)@.tmp_users.last().password)
                        == Some(true)
                    &&& final(db)@ == registered(
                        old(db)@,
                        req@,
                        (out.activation.created_at@, out.activation.expires_at@),
                        final(db)@.tmp_users.last().password,
                        out.activation.code@,
                    )
                    &&& out.mail@ == activation_mail(
                        config.smtp_username@,
                        req.username@,
                        req.email@,
                        out.activation.code@,
                    )
                },
            },
        },
{
    match register_check(db, req) {
        Err(e) => {
            return Err(e);
        },
        Ok(()) => {},
    }
    let password_hash = match hash_password(req.password.as_str()) {
        Ok(h) => h,
        Err(e) => {
            return Err(e);
        },
    };
    let code = activation_code();
    let now = Timestamp::now();
    let r = register_at(db, req, config, now, password_hash.as_str(), code.as_str());
    proof {
        if r is Ok {
            let out = r->Ok_0;
            assert(activation_window(now) == Some(
                (out.activation.created_at@, out.activation.expires_at@),
            ));
        }
    }
    r
}

/// Why a registration by `caller` is refused, if it is: the caller is no
/// administrator, a shape rule is broken, or the username or the email
/// address is already in use.
pub open spec fn admin_register_refusal(s: StoreView, caller: Seq<char>, req: RegisterRequestView) -> Option<
    Seq<char>,
> {
    if !s.admin_exists(caller) {
        Some("Error"@)
    } else if shape_error(req, false) is Some {
        shape_error(req, false)
    } else if s.username_taken(req.username) || s.email_exists(req.email) {
        Some("Error"@)
    } else {
        None
    }
}

/// The store after an administrator was registered.
pub open spec fn admin_registered(
    s: StoreView,
    req: RegisterRequestView,
    created_at: Seq<char>,
    password_hash: Seq<char>,
) -> StoreView {
    s.apply(
        WriteView::InsertAdmin(
            AccountView {
                username: req.username,
                email: req.email,
                password: password_hash,
                created_at,
            },
        ),
    )
}

/// Whether a registration by an administrator may go ahead.
pub fn admin_register_check(db: &Store, user: &ClaimsValidator, req: &RegisterRequest) -> (r:
    ApiResult<()>)
    ensures
        match admin_register_refusal(db@, user.username@, req@) {
            Some(message) => r matches Err(e) && e.is(ApiErrorType::InvalidRequest, message),
            None => r is Ok,
        },
{
    if !check_admin_exists(db, user.username.as_str()) {
        return Err(ApiError::new(ApiErrorType::InvalidRequest, "Error".to_string()));
    }
    match check_req(req, false) {
        Err(e) => {
            return Err(e);
        },
        Ok(()) => {},
    }
    if check_user_exists(db, req.username.as_str()) {
        return Err(ApiError::new(ApiErrorType::InvalidRequest, "Error".to_string()));
    }
    if check_admin_exists(db, req.username.as_str()) {
        return Err(ApiError::new(ApiErrorType::InvalidRequest, "Error".to_string()));
    }
    if check_email_exists(db, req.email.as_str()) {
        return Err(ApiError::new(ApiErrorType::InvalidRequest, "Error".to_string()));
    }
    Ok(())
}

/// Registration of an administrator by the administrator `user`, with the
/// text of the time and the password hash to store. No activation follows.
pub fn admin_register_with(
    db: &mut Store,
    req: &RegisterRequest,
    user: &ClaimsValidator,
    created_at: &str,
    password_hash: &str,
) -> (r: ApiResult<RegisterResponse>)
    ensures
        match admin_register_refusal(old(db)@, user.username@, req@) {
            Some(message) => {
                &&& r matches Err(e)
                &&& e.is(ApiErrorType::InvalidRequest, message)
                &&& final(db)@ == old(db)@
            },
            None => {
                &&& r matches Ok(out)
                &&& out.created_at@ == created_at@
                &&& final(db)@ == admin_registered(old(db)@, req@, created_at@, password_hash@)
            },
        },
{
    match admin_register_check(db, user, req) {
        Err(e) => {
            return Err(e);
        },
        Ok(()) => {},
    }
    create_user_with::<AdminType>(
        db,
        req.username.as_str(),
        req.email.as_str(),
        password_hash,
        created_at,
    );
    Ok(RegisterResponse { created_at: created_at.to_string() })
}

/// Registration of an administrator by the administrator `user`, at the
/// time `now` and with the password hash to store.
pub fn admin_register_at(
    db: &mut Store,
    req: &RegisterRequest,
    user: &ClaimsValidator,
    now: Timestamp,
    password_hash: &str,
) -> (r: ApiResult<RegisterResponse>)
    ensures
        match admin_register_refusal(old(db)@, user.username@, req@) {
            Some(message) => {
                &&& r matches Err(e)
                &&& e.is(ApiErrorType::InvalidRequest, message)
                &&& final(db)@ == old(db)@
            },
            None => match now.text() {
                None => r matches Err(e) && clock_failure(e) && final(db)@ == old(db)@,
                Some(created_at) => {
                    &&& r matches Ok(out)
                    &&& out.created_at@ == created_at
                    &&& final(db)@ == admin_registered(old(db)@, req@, created_at, password_hash@)
                },
            },
        },
{
    match admin_register_check(db, user, req) {
        Err(e) => {
            return Err(e);
        },
        Ok(()) => {},
    }
    match now.to_text() {
        Some(created_at) => admin_register_with(db, req, user, created_at.as_str(), password_hash),
        None => Err(ApiError::new(ApiErrorType::Internal, "Time out of range".to_string())),
    }
}

/// Registration of an administrator by the administrator `user`, now and
/// with a fresh password hash. A refused request is answered as
/// `admin_register_refusal` says and changes nothing; a failure of the clock
/// or the hasher is an internal error and changes nothing; otherwise the new
/// administrator is stored with a hash that the password verifies against.
pub fn admin_register(db: &mut Store, req: &RegisterRequest, user: &ClaimsValidator) -> (r:
    ApiResult<RegisterResponse>)
    ensures
        match admin_register_refusal(old(db)@, user.username@, req@) {
            Some(message) => {
                &&& r matches Err(e)
                &&& e.is(ApiErrorType::InvalidRequest, message)
                &&& final(db)@ == old(db)@
            },
            None => match r {
                Err(e) => e.error_type == ApiErrorType::Internal && final(db)@ == old(db)@,
                Ok(out) => {
                    &&& exists|now: Timestamp| #[trigger] now.text() == Some(out.created_at@)
                    &&& final(db)@.admins.len() == old(db)@.admins.len() + 1
                    &&& password_check(req.password@, final(db)@.admins.last().password) == Some(
                        true,
                    )
                    &&& final(db)@ == admin_registered(
                        old(db)@,
                        req@,
                        out.created_at@,
                        final(db)@.admins.last().password,
                    )
                },
            },
        },
{
    match admin_register_check(db, user, req) {
        Err(e) => {
            return Err(e);
        },
        Ok(()) => {},
    }
    let password_hash = match hash_password(req.password.as_str()) {
        Ok(h) => h,
        Err(e) => {
            return Err(e);
        },
    };
    let now = Timestamp::now();
    let r = admin_register_at(db, req, user, now, password_hash.as_str());
    proof {
        if r is Ok {
            assert(now.text() == Some(r->Ok_0.created_at@));
        }
    }
    r
}

} // verus!
