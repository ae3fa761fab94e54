//! Signing up and signing in with an email and a password.
//!
//! Passwords are stored as Argon2 hashes. The database work is done by the caller;
//! [`login_step`] and [`register_step`] say at each point what comes next, from what the
//! previous query returned, and how the request is answered.

use vstd::prelude::*;
use crate::auth::session::Lookup;
use crate::auth::user::{new_user_status, resolve_new_user_status, SignupSettings};
use crate::error::Error;
use crate::models::user::{UserRole, UserStatus};
use crate::schema::config::{credentials_enabled, spec_credentials_enabled, TinyCmsConfig};
use argon2::{PasswordHasher, PasswordVerifier};

verus! {

/// Whether `password` is the one `hash` (an Argon2 hash in PHC string form) was made from.
pub uninterp spec fn password_matches(password: Seq<char>, hash: Seq<char>) -> bool;

/// Checks a password against a stored hash with `argon2::Argon2::default()` and
/// `PasswordVerifier::verify_password` (the hash's own parameters are used); a hash that
/// does not parse does not match. The outcome is named by [`password_matches`].
#[verifier::external_body]
fn argon2_verify(password: &str, hash: &str) -> (r: bool)
    ensures
        r == password_matches(password@, hash@),
{
    argon2::Argon2::default().verify_password(password.as_bytes(), hash).is_ok()
}

/// Hashes a password with `argon2::Argon2::default()` and `PasswordHasher::hash_password`,
/// under a fresh random salt, written as a PHC string; `None` when hashing fails. The hash
/// differs from call to call; what holds of every outcome is that it verifies for the
/// password it was made from.
#[verifier::external_body]
fn argon2_hash(password: &str) -> (r: Option<String>)
    ensures
        r matches Some(h) ==> password_matches(password@, h@),
{
    let hashed: Result<argon2::PasswordHash, _> = argon2::Argon2::default().hash_password(password.as_bytes());
    hashed.ok().map(|h| h.to_string())
}

/// Checks a password against a stored hash: refused as unauthorized when it does not match.
pub fn verify_password(password: &str, hash: &str) -> (r: Result<(), Error>)
    ensures
        r is Ok <==> password_matches(password@, hash@),
        r matches Err(e) ==> e is Unauthorized,
{
    if argon2_verify(password, hash) {
        Ok(())
    } else {
        Err(Error::Unauthorized)
    }
}

/// A sign-in request.
pub struct LoginRequest {
    pub email: String,
    pub password: String,
}

/// A sign-up request.
pub struct RegisterRequest {
    pub email: String,
    pub password: String,
    pub name: Option<String>,
}

/// The credentials account found for an email.
pub struct CredentialsAccount {
    pub user_id: u128,
    pub status: UserStatus,
    pub password_hash: Option<String>,
}

/// The JSON body of a successful answer.
#[derive(Clone, Copy, Debug, PartialEq, Eq, Structural)]
pub enum ReplyBody {
    /// `{"ok": true}`
    Success,
    /// `{"pending": true}`
    Pending,
    /// `{"error": "account pending approval"}`
    PendingApproval,
}

/// The message a disabled credentials provider is refused with.
pub open spec fn not_configured() -> Seq<char> {
    "credentials provider not configured"@
}

/// Whether `e` is the refusal for a disabled credentials provider.
pub open spec fn is_not_configured(e: Error) -> bool {
    e matches Error::BadRequest(m) && m@ == not_configured()
}

// ---------------------------------------------------------------------------
// Sign-in
// ---------------------------------------------------------------------------

/// How far a sign-in has come.
pub enum LoginStage {
    Start,
    /// The account is being looked up; the password is kept to check it.
    AwaitingAccount { password: String },
    /// A session is being opened.
    AwaitingSession,
    Done,
}

/// What the caller reports to [`login_step`].
pub enum LoginEvent {
    Received(LoginRequest),
    AccountLooked(Lookup<CredentialsAccount>),
    /// The token of the session opened; `None` when that failed.
    SessionCreated(Option<String>),
}

/// What the caller does next.
pub enum LoginAction {
    /// Look up the credentials account of this email.
    LookupAccount { email: String },
    /// Open a session for this user.
    CreateSession { user_id: u128 },
    /// Answer with this status and body, setting the session cookie when there is a session.
    Reply { http_status: u16, body: ReplyBody, session_token: Option<String> },
    /// Answer with this error.
    Fail(Error),
}

/// Whether `event` is what the caller can report at `stage`.
pub open spec fn login_expects(stage: LoginStage, event: LoginEvent) -> bool {
    match (stage, event) {
        (LoginStage::Start, LoginEvent::Received(_)) => true,
        (LoginStage::AwaitingAccount { .. }, LoginEvent::AccountLooked(_)) => true,
        (LoginStage::AwaitingSession, LoginEvent::SessionCreated(_)) => true,
        _ => false,
    }
}

/// How many steps a stage is from the end at most.
pub open spec fn login_rank(stage: LoginStage) -> nat {
    match stage {
        LoginStage::Start => 3,
        LoginStage::AwaitingAccount { .. } => 2,
        LoginStage::AwaitingSession => 1,
        LoginStage::Done => 0,
    }
}

/// The step fails the request with an error satisfying `what`.
pub open spec fn login_fails(next: LoginStage, action: LoginAction, what: spec_fn(Error) -> bool) -> bool {
    next is Done && (action matches LoginAction::Fail(e) && what(e))
}

/// One step of a sign-in.
pub open spec fn login_transition(
    schema: TinyCmsConfig,
    stage: LoginStage,
    event: LoginEvent,
    next: LoginStage,
    action: LoginAction,
) -> bool {
    match (stage, event) {
        (LoginStage::Start, LoginEvent::Received(req)) => if !spec_credentials_enabled(schema) {
            login_fails(next, action, |e: Error| is_not_configured(e))
        } else {
            &&& next matches LoginStage::AwaitingAccount { password } && password@ == req.password@
            &&& action matches LoginAction::LookupAccount { email } && email@ == req.email@
        },
        (LoginStage::AwaitingAccount { password }, LoginEvent::AccountLooked(found)) => match found {
            Lookup::Failed => login_fails(next, action, |e: Error| e == Error::Database { row_not_found: false }),
            Lookup::NotFound => login_fails(next, action, |e: Error| e is Unauthorized),
            Lookup::Found(acc) => if acc.status == UserStatus::Suspended {
                login_fails(next, action, |e: Error| e is Unauthorized)
            } else {
                match acc.password_hash {
                    None => login_fails(next, action, |e: Error| e is Unauthorized),
                    Some(h) => if !password_matches(password@, h@) {
                        login_fails(next, action, |e: Error| e is Unauthorized)
                    } else if acc.status == UserStatus::Pending {
                        next is Done && action == (LoginAction::Reply {
                            http_status: 403,
                            body: ReplyBody::PendingApproval,
                            session_token: None,
                        })
                    } else {
                        next is AwaitingSession && action == (LoginAction::CreateSession { user_id: acc.user_id })
                    },
                }
            },
        },
        (LoginStage::AwaitingSession, LoginEvent::SessionCreated(created)) => match created {
            None => login_fails(next, action, |e: Error| e is Internal),
            Some(t) => next is Done && (action matches LoginAction::Reply {
                http_status: 200,
                body: ReplyBody::Success,
                session_token: Some(st),
            } && st@ == t@),
        },
        _ => false,
    }
}

/// Whether `event` is what the caller can report at `stage`, computed.
pub fn login_expects_event(stage: &LoginStage, event: &LoginEvent) -> (r: bool)
    ensures
        r == login_expects(*stage, *event),
{
    match (stage, event) {
        (LoginStage::Start, LoginEvent::Received(_)) => true,
        (LoginStage::AwaitingAccount { .. }, LoginEvent::AccountLooked(_)) => true,
        (LoginStage::AwaitingSession, LoginEvent::SessionCreated(_)) => true,
        _ => false,
    }
}

/// The refusal for a disabled credentials provider.
fn not_configured_error() -> (r: Error)
    ensures
        is_not_configured(r),
{
    Error::BadRequest("credentials provider not configured".to_string())
}

/// One step of a sign-in: a suspended account, a wrong password or an unknown email are
/// all refused alike; a pending account is told it awaits approval; an active account
/// gets a session.
pub fn login_step(schema: &TinyCmsConfig, stage: LoginStage, event: LoginEvent) -> (r: (LoginStage, LoginAction))
    requires
        login_expects(stage, event),
    ensures
        login_transition(*schema, stage, event, r.0, r.1),
        login_rank(r.0) < login_rank(stage),
{
    match (stage, event) {
        (LoginStage::Start, LoginEvent::Received(req)) => {
            if !credentials_enabled(schema) {
                return (LoginStage::Done, LoginAction::Fail(not_configured_error()));
            }
            (LoginStage::AwaitingAccount { password: req.password }, LoginAction::LookupAccount { email: req.email })
        },
        (LoginStage::AwaitingAccount { password }, LoginEvent::AccountLooked(found)) => match found {
            Lookup::Failed => (LoginStage::Done, LoginAction::Fail(Error::Database { row_not_found: false })),
            Lookup::NotFound => (LoginStage::Done, LoginAction::Fail(Error::Unauthorized)),
            Lookup::Found(acc) => {
                if acc.status == UserStatus::Suspended {
                    return (LoginStage::Done, LoginAction::Fail(Error::Unauthorized));
                }
                let hash = match acc.password_hash {
                    None => {
                        return (LoginStage::Done, LoginAction::Fail(Error::Unauthorized));
                    },
                    Some(h) => h,
                };
                match verify_password(password.as_str(), hash.as_str()) {
                    Err(e) => {
                        return (LoginStage::Done, LoginAction::Fail(e));
                    },
                    Ok(()) => {},
                }
                if acc.status == UserStatus::Pending {
                    return (
                        LoginStage::Done,
                        LoginAction::Reply { http_status: 403, body: ReplyBody::PendingApproval, session_token: None },
                    );
                }
                (LoginStage::AwaitingSession, LoginAction::CreateSession { user_id: acc.user_id })
            },
        },
        (LoginStage::AwaitingSession, LoginEvent::SessionCreated(created)) => match created {
            None => (LoginStage::Done, LoginAction::Fail(Error::Internal)),
            Some(t) => (
                LoginStage::Done,
                LoginAction::Reply { http_status: 200, body: ReplyBody::Success, session_token: Some(t) },
            ),
        },
        _ => (LoginStage::Done, LoginAction::Fail(Error::Internal)),
    }
}

// ---------------------------------------------------------------------------
// Sign-up
// ---------------------------------------------------------------------------

/// How far a sign-up has come.
pub enum RegisterStage {
    Start,
    /// The sign-up settings are being read for this new user.
    AwaitingSettings { email: String, name: Option<String>, password_hash: String },
    /// The user and the credentials account are being saved.
    AwaitingUser,
    /// A session is being opened.
    AwaitingSession,
    Done,
}

/// What the caller reports to [`register_step`].
pub enum RegisterEvent {
    Received(RegisterRequest),
    /// The workspace's sign-up settings (if stored) and the number of users; `None` when
    /// reading them failed.
    SignupSettingsRead(Option<(Option<SignupSettings>, Option<i64>)>),
    /// The saved user's id and status as stored (an existing user keeps theirs).
    UserSaved(Lookup<(u128, UserStatus)>),
    /// The token of the session opened; `None` when that failed.
    SessionCreated(Option<String>),
}

/// What the caller does next.
pub enum RegisterAction {
    /// Read the sign-up settings and count the users.
    LoadSignupSettings,
    /// Create the user (or, for a known email, keep it and fill in a missing name) with
    /// this status and role, store the password hash in its credentials account, and read
    /// back the user's id and status.
    SaveUser { email: String, name: Option<String>, status: UserStatus, role: UserRole, password_hash: String },
    /// Open a session for this user.
    CreateSession { user_id: u128 },
    /// Answer with this status and body, setting the session cookie when there is a session.
    Reply { http_status: u16, body: ReplyBody, session_token: Option<String> },
    /// Answer with this error.
    Fail(Error),
}

/// Whether `event` is what the caller can report at `stage`.
pub open spec fn register_expects(stage: RegisterStage, event: RegisterEvent) -> bool {
    match (stage, event) {
        (RegisterStage::Start, RegisterEvent::Received(_)) => true,
        (RegisterStage::AwaitingSettings { .. }, RegisterEvent::SignupSettingsRead(_)) => true,
        (RegisterStage::AwaitingUser, RegisterEvent::UserSaved(_)) => true,
        (RegisterStage::AwaitingSession, RegisterEvent::SessionCreated(_)) => true,
        _ => false,
    }
}

/// How many steps a stage is from the end at most.
pub open spec fn register_rank(stage: RegisterStage) -> nat {
    match stage {
        RegisterStage::Start => 4,
        RegisterStage::AwaitingSettings { .. } => 3,
        RegisterStage::AwaitingUser => 2,
        RegisterStage::AwaitingSession => 1,
        RegisterStage::Done => 0,
    }
}

/// The step fails the request with an error satisfying `what`.
pub open spec fn register_fails(next: RegisterStage, action: RegisterAction, what: spec_fn(Error) -> bool) -> bool {
    next is Done && (action matches RegisterAction::Fail(e) && what(e))
}

/// One step of a sign-up. `hashed` is what hashing the request's password gave (it is
/// only looked at on the first step).
pub open spec fn register_transition(
    schema: TinyCmsConfig,
    stage: RegisterStage,
    event: RegisterEvent,
    next: RegisterStage,
    action: RegisterAction,
) -> bool {
    match (stage, event) {
        (RegisterStage::Start, RegisterEvent::Received(req)) => if !spec_credentials_enabled(schema) {
            register_fails(next, action, |e: Error| is_not_configured(e))
        } else {
            ||| register_fails(next, action, |e: Error| e is Internal)
            ||| {
                &&& next matches RegisterStage::AwaitingSettings { email, name, password_hash } && email@
                    == req.email@ && opt_text(name) == opt_text(req.name) && password_matches(
                    req.password@,
                    password_hash@,
                )
                &&& action is LoadSignupSettings
            }
        },
        (RegisterStage::AwaitingSettings { email, name, password_hash }, RegisterEvent::SignupSettingsRead(read)) => match read {
            None => register_fails(next, action, |e: Error| e is Internal),
            Some((settings, count)) => {
                let (status, role) = new_user_status(settings, count);
                &&& next is AwaitingUser
                &&& action matches RegisterAction::SaveUser { email: e, name: n, status: s, role: r, password_hash: h }
                    && e@ == email@ && opt_text(n) == opt_text(name) && s == status && r == role && h@ == password_hash@
            },
        },
        (RegisterStage::AwaitingUser, RegisterEvent::UserSaved(saved)) => match saved {
            Lookup::Failed => register_fails(next, action, |e: Error| e == Error::Database { row_not_found: false }),
            Lookup::NotFound => register_fails(next, action, |e: Error| e == Error::Database { row_not_found: true }),
            Lookup::Found((user_id, status)) => if status == UserStatus::Pending {
                next is Done && action == (RegisterAction::Reply {
                    http_status: 202,
                    body: ReplyBody::Pending,
                    session_token: None,
                })
            } else {
                next is AwaitingSession && action == (RegisterAction::CreateSession { user_id })
            },
        },
        (RegisterStage::AwaitingSession, RegisterEvent::SessionCreated(created)) => match created {
            None => register_fails(next, action, |e: Error| e is Internal),
            Some(t) => next is Done && (action matches RegisterAction::Reply {
                http_status: 201,
                body: ReplyBody::Success,
                session_token: Some(st),
            } && st@ == t@),
        },
        _ => false,
    }
}

/// An optional string with its text as characters.
pub open spec fn opt_text(s: Option<String>) -> Option<Seq<char>> {
    match s {
        Some(x) => Some(x@),
        None => None,
    }
}

/// Whether `event` is what the caller can report at `stage`, computed.
pub fn register_expects_event(stage: &RegisterStage, event: &RegisterEvent) -> (r: bool)
    ensures
        r == register_expects(*stage, *event),
{
    match (stage, event) {
        (RegisterStage::Start, RegisterEvent::Received(_)) => true,
        (RegisterStage::AwaitingSettings { .. }, RegisterEvent::SignupSettingsRead(_)) => true,
        (RegisterStage::AwaitingUser, RegisterEvent::UserSaved(_)) => true,
        (RegisterStage::AwaitingSession, RegisterEvent::SessionCreated(_)) => true,
        _ => false,
    }
}

/// The first step of a sign-up, given what hashing the password gave (`None` when it
/// failed): refused when the credentials provider is disabled, failed when hashing failed,
/// and otherwise on to reading the sign-up settings with the hash.
pub fn register_begin(schema: &TinyCmsConfig, req: RegisterRequest, hashed: Option<String>) -> (r: (
    RegisterStage,
    RegisterAction,
))
    ensures
        !spec_credentials_enabled(*schema) ==> register_fails(r.0, r.1, |e: Error| is_not_configured(e)),
        spec_credentials_enabled(*schema) && hashed is None ==> register_fails(r.0, r.1, |e: Error| e is Internal),
        spec_credentials_enabled(*schema) && hashed is Some ==> {
            &&& r.0 matches RegisterStage::AwaitingSettings { email, name, password_hash } && email@ == req.email@
                && opt_text(name) == opt_text(req.name) && password_hash@ == hashed->0@
            &&& r.1 is LoadSignupSettings
        },
{
    if !credentials_enabled(schema) {
        return (RegisterStage::Done, RegisterAction::Fail(not_configured_error()));
    }
    match hashed {
        None => (RegisterStage::Done, RegisterAction::Fail(Error::Internal)),
        Some(password_hash) => (
            RegisterStage::AwaitingSettings { email: req.email, name: req.name, password_hash },
            RegisterAction::LoadSignupSettings,
        ),
    }
}

/// One step of a sign-up: the password is hashed first; the first user of the system
/// becomes an active administrator; a user left pending approval gets no session.
pub fn register_step(schema: &TinyCmsConfig, stage: RegisterStage, event: RegisterEvent) -> (r: (
    RegisterStage,
    RegisterAction,
))
    requires
        register_expects(stage, event),
    ensures
        register_transition(*schema, stage, event, r.0, r.1),
        register_rank(r.0) < register_rank(stage),
{
    match (stage, event) {
        (RegisterStage::Start, RegisterEvent::Received(req)) => {
            if !credentials_enabled(schema) {
                return (RegisterStage::Done, RegisterAction::Fail(not_configured_error()));
            }
            let hashed = argon2_hash(req.password.as_str());
            register_begin(schema, req, hashed)
        },
        (RegisterStage::AwaitingSettings { email, name, password_hash }, RegisterEvent::SignupSettingsRead(read)) => match read {
            None => (RegisterStage::Done, RegisterAction::Fail(Error::Internal)),
            Some((settings, count)) => {
                let (status, role) = resolve_new_user_status(settings, count);
                (RegisterStage::AwaitingUser, RegisterAction::SaveUser { email, name, status, role, password_hash })
            },
        },
        (RegisterStage::AwaitingUser, RegisterEvent::UserSaved(saved)) => match saved {
            Lookup::Failed => (RegisterStage::Done, RegisterAction::Fail(Error::Database { row_not_found: false })),
            Lookup::NotFound => (RegisterStage::Done, RegisterAction::Fail(Error::Database { row_not_found: true })),
            Lookup::Found((user_id, status)) => if status == UserStatus::Pending {
                (RegisterStage::Done, RegisterAction::Reply { http_status: 202, body: ReplyBody::Pending, session_token: None })
            } else {
                (RegisterStage::AwaitingSession, RegisterAction::CreateSession { user_id })
            },
        },
        (RegisterStage::AwaitingSession, RegisterEvent::SessionCreated(created)) => match created {
            None => (RegisterStage::Done, RegisterAction::Fail(Error::Internal)),
            Some(t) => (
                RegisterStage::Done,
                RegisterAction::Reply { http_status: 201, body: ReplyBody::Success, session_token: Some(t) },
            ),
        },
        _ => (RegisterStage::Done, RegisterAction::Fail(Error::Internal)),
    }
}

} // verus!
