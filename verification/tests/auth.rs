use tinycms::auth::cookie::{
    clear_oauth_state_cookie, clear_session_cookie, extract_cookie, oauth_state_cookie, session_cookie,
    session_expiry,
};
use tinycms::auth::credentials::{
    login_step, register_begin, register_step, verify_password, CredentialsAccount, LoginAction, LoginEvent,
    LoginRequest, LoginStage, RegisterAction, RegisterEvent, RegisterRequest, RegisterStage, ReplyBody,
};
use tinycms::auth::session::{auth_step, AuthAction, AuthEvent, AuthStage, Lookup, TokenOwner};
use tinycms::auth::token::{generate_token, hash_token, hex_string};
use tinycms::auth::user::{require_admin, resolve_new_user_status, AuthRejection, AuthUser, SignupSettings};
use tinycms::error::Error;
use tinycms::models::user::{UserRole, UserStatus};
use tinycms::schema::config::{AuthConfig, DatabaseConfig, ProviderConfig, TinyCmsConfig};

fn config(providers: Vec<ProviderConfig>) -> TinyCmsConfig {
    TinyCmsConfig {
        database: DatabaseConfig { db_type: None, url: "postgres://localhost/db".to_string() },
        auth: Some(AuthConfig { providers }),
        storage: None,
        runtime: None,
        types: vec![],
    }
}

fn user(status: UserStatus) -> AuthUser {
    AuthUser { id: 7, email: "a@b.c".to_string(), name: None, role: UserRole::Editor, status }
}

#[test]
fn hash_token_is_hex_sha256() {
    assert_eq!(hash_token("abc"), "ba7816bf8f01cfea414140de5dae2223b00361a396177a9cb410ff61f20015ad");
    assert_eq!(hash_token("abc"), hash_token("abc"));
    assert_ne!(hash_token("abc"), hash_token("abd"));
}

#[test]
fn generated_tokens_are_64_hex_digits() {
    let a = generate_token();
    let b = generate_token();
    assert_eq!(a.len(), 64);
    assert!(a.chars().all(|c| c.is_ascii_hexdigit() && !c.is_ascii_uppercase()));
    assert_ne!(a, b);
}

#[test]
fn hex_string_two_digits_per_byte() {
    assert_eq!(hex_string(&[0x00, 0x0f, 0xa0, 0xff]), "000fa0ff");
    assert_eq!(hex_string(&[]), "");
}

#[test]
fn session_cookie_text() {
    assert_eq!(
        session_cookie("tok", 0),
        "session=tok; Path=/; HttpOnly; SameSite=Lax; Expires=Thu, 01 Jan 1970 00:00:00 GMT"
    );
    assert_eq!(
        session_cookie("x", 1700000000),
        "session=x; Path=/; HttpOnly; SameSite=Lax; Expires=Tue, 14 Nov 2023 22:13:20 GMT"
    );
    assert_eq!(session_expiry(0), 2592000);
}

#[test]
fn session_cookie_at_the_ends_of_the_range() {
    assert!(session_cookie("t", -8334601228800).starts_with("session=t;"));
    assert!(session_cookie("t", 8210266876799).starts_with("session=t;"));
}

#[test]
fn clearing_cookies() {
    assert_eq!(clear_session_cookie(), "session=; Path=/; HttpOnly; SameSite=Lax; Max-Age=0");
    assert_eq!(clear_oauth_state_cookie(), "oauth_state=; Path=/; HttpOnly; Max-Age=0");
    assert_eq!(oauth_state_cookie("abc"), "oauth_state=abc; Path=/; HttpOnly; SameSite=Lax; Max-Age=600");
}

#[test]
fn cookies_read_back() {
    assert_eq!(extract_cookie(Some("session=abc"), "session"), Some("abc".to_string()));
    assert_eq!(extract_cookie(Some("theme=dark; session=abc; x=1"), "session"), Some("abc".to_string()));
    assert_eq!(extract_cookie(Some("  session=abc  ;x=1"), "session"), Some("abc".to_string()));
    assert_eq!(extract_cookie(Some("sessionx=abc"), "session"), None);
    assert_eq!(extract_cookie(Some("a=1;;session="), "session"), Some(String::new()));
    assert_eq!(extract_cookie(Some(""), "session"), None);
    assert_eq!(extract_cookie(None, "session"), None);
}

#[test]
fn first_user_becomes_admin() {
    let s = SignupSettings { require_approval: true, default_role: UserRole::Viewer };
    assert!(matches!(resolve_new_user_status(Some(s), Some(0)), (UserStatus::Active, UserRole::Admin)));
    assert!(matches!(resolve_new_user_status(None, None), (UserStatus::Active, UserRole::Admin)));
}

#[test]
fn later_users_follow_settings() {
    let s = SignupSettings { require_approval: true, default_role: UserRole::Viewer };
    assert!(matches!(resolve_new_user_status(Some(s), Some(3)), (UserStatus::Pending, UserRole::Viewer)));
    let s = SignupSettings { require_approval: false, default_role: UserRole::Admin };
    assert!(matches!(resolve_new_user_status(Some(s), Some(3)), (UserStatus::Active, UserRole::Admin)));
    assert!(matches!(resolve_new_user_status(None, Some(1)), (UserStatus::Pending, UserRole::Editor)));
}

#[test]
fn admin_required() {
    let mut u = user(UserStatus::Active);
    u.role = UserRole::Admin;
    assert!(require_admin(u).is_ok());
    assert!(matches!(require_admin(user(UserStatus::Active)), Err(AuthRejection::Forbidden)));
}

#[test]
fn session_cookie_looked_up_first() {
    let (next, action) = auth_step(
        AuthStage::Start,
        AuthEvent::Request {
            cookie: Some("session=s1".to_string()),
            authorization: Some("Bearer t1".to_string()),
        },
    );
    assert!(matches!(action, AuthAction::LookupSession { ref token } if token == "s1"));
    let (_, action) = auth_step(next, AuthEvent::SessionLooked(Lookup::Found(user(UserStatus::Active))));
    assert!(matches!(action, AuthAction::Accept { touch_token: None, .. }));
}

#[test]
fn inactive_session_falls_back_to_bearer() {
    let (next, _) = auth_step(
        AuthStage::Start,
        AuthEvent::Request {
            cookie: Some("session=s1".to_string()),
            authorization: Some("Bearer  t1 ".to_string()),
        },
    );
    let (next, action) = auth_step(next, AuthEvent::SessionLooked(Lookup::Found(user(UserStatus::Suspended))));
    match action {
        AuthAction::LookupToken { token_hash } => assert_eq!(token_hash, hash_token("t1")),
        _ => panic!("expected a token lookup"),
    }
    let owner = TokenOwner { token_id: 9, user: user(UserStatus::Active) };
    let (_, action) = auth_step(next, AuthEvent::TokenLooked(Lookup::Found(owner)));
    assert!(matches!(action, AuthAction::Accept { touch_token: Some(9), .. }));
}

#[test]
fn no_credentials_unauthorized() {
    let (_, action) = auth_step(AuthStage::Start, AuthEvent::Request { cookie: None, authorization: None });
    assert!(matches!(action, AuthAction::Reject(AuthRejection::Unauthorized)));
    let (_, action) = auth_step(
        AuthStage::Start,
        AuthEvent::Request { cookie: None, authorization: Some("Basic abc".to_string()) },
    );
    assert!(matches!(action, AuthAction::Reject(AuthRejection::Unauthorized)));
}

#[test]
fn failed_lookup_is_internal() {
    let (next, _) = auth_step(
        AuthStage::Start,
        AuthEvent::Request { cookie: Some("session=s".to_string()), authorization: None },
    );
    let (_, action) = auth_step(next, AuthEvent::SessionLooked(Lookup::Failed));
    assert!(matches!(action, AuthAction::Reject(AuthRejection::Internal)));
}

#[test]
fn suspended_token_owner_refused() {
    let (next, _) = auth_step(
        AuthStage::Start,
        AuthEvent::Request { cookie: None, authorization: Some("Bearer t".to_string()) },
    );
    let owner = TokenOwner { token_id: 1, user: user(UserStatus::Pending) };
    let (_, action) = auth_step(next, AuthEvent::TokenLooked(Lookup::Found(owner)));
    assert!(matches!(action, AuthAction::Reject(AuthRejection::Unauthorized)));
}

#[test]
fn login_disabled_without_credentials_provider() {
    let cfg = config(vec![]);
    let req = LoginRequest { email: "a@b.c".to_string(), password: "pw".to_string() };
    let (_, action) = login_step(&cfg, LoginStage::Start, LoginEvent::Received(req));
    match action {
        LoginAction::Fail(Error::BadRequest(m)) => assert_eq!(m, "credentials provider not configured"),
        _ => panic!("expected a refusal"),
    }
}

#[test]
fn registered_password_signs_in() {
    let cfg = config(vec![ProviderConfig::Credentials]);
    let req = RegisterRequest { email: "a@b.c".to_string(), password: "hunter2".to_string(), name: None };
    let (stage, action) = register_step(&cfg, RegisterStage::Start, RegisterEvent::Received(req));
    assert!(matches!(action, RegisterAction::LoadSignupSettings));
    let hash = match &stage {
        RegisterStage::AwaitingSettings { password_hash, .. } => password_hash.clone(),
        _ => panic!("expected the settings to be read next"),
    };
    assert!(verify_password("hunter2", &hash).is_ok());
    assert!(matches!(verify_password("hunter3", &hash), Err(Error::Unauthorized)));
    let (stage, action) = register_step(&cfg, stage, RegisterEvent::SignupSettingsRead(Some((None, Some(0)))));
    assert!(matches!(action, RegisterAction::SaveUser { status: UserStatus::Active, role: UserRole::Admin, .. }));
    let (stage, action) = register_step(&cfg, stage, RegisterEvent::UserSaved(Lookup::Found((5, UserStatus::Active))));
    assert!(matches!(action, RegisterAction::CreateSession { user_id: 5 }));
    let (_, action) = register_step(&cfg, stage, RegisterEvent::SessionCreated(Some("tok".to_string())));
    assert!(matches!(action, RegisterAction::Reply { http_status: 201, body: ReplyBody::Success, session_token: Some(_) }));

    let login = LoginRequest { email: "a@b.c".to_string(), password: "hunter2".to_string() };
    let (stage, action) = login_step(&cfg, LoginStage::Start, LoginEvent::Received(login));
    assert!(matches!(action, LoginAction::LookupAccount { ref email } if email == "a@b.c"));
    let account = CredentialsAccount { user_id: 5, status: UserStatus::Active, password_hash: Some(hash) };
    let (stage, action) = login_step(&cfg, stage, LoginEvent::AccountLooked(Lookup::Found(account)));
    assert!(matches!(action, LoginAction::CreateSession { user_id: 5 }));
    let (_, action) = login_step(&cfg, stage, LoginEvent::SessionCreated(Some("s".to_string())));
    assert!(matches!(action, LoginAction::Reply { http_status: 200, body: ReplyBody::Success, session_token: Some(_) }));
}

#[test]
fn pending_and_suspended_accounts() {
    let cfg = config(vec![ProviderConfig::Credentials]);
    let failed = register_begin(
        &cfg,
        RegisterRequest { email: "a".to_string(), password: "pw".to_string(), name: None },
        None,
    );
    assert!(matches!(failed, (RegisterStage::Done, RegisterAction::Fail(Error::Internal))));
    let stage = LoginStage::AwaitingAccount { password: "pw".to_string() };
    let account = CredentialsAccount { user_id: 1, status: UserStatus::Suspended, password_hash: None };
    let (_, action) = login_step(&cfg, stage, LoginEvent::AccountLooked(Lookup::Found(account)));
    assert!(matches!(action, LoginAction::Fail(Error::Unauthorized)));
    let stage = LoginStage::AwaitingAccount { password: "pw".to_string() };
    let (_, action) = login_step(&cfg, stage, LoginEvent::AccountLooked(Lookup::NotFound));
    assert!(matches!(action, LoginAction::Fail(Error::Unauthorized)));
}

#[test]
fn pending_signup_gets_no_session() {
    let cfg = config(vec![ProviderConfig::Credentials]);
    let (_, action) = register_step(&cfg, RegisterStage::AwaitingUser, RegisterEvent::UserSaved(Lookup::Found((1, UserStatus::Pending))));
    assert!(matches!(action, RegisterAction::Reply { http_status: 202, body: ReplyBody::Pending, session_token: None }));
}
