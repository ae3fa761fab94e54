use tinycms::auth::oauth::{
    authorization_address, callback_address, callback_step, oauth_redirect, primary_email, CallbackAction,
    CallbackEvent, CallbackQuery, CallbackStage, EmailEntry, GitHubUser, GoogleUser, ProviderProfile,
};
use tinycms::auth::user::SignupSettings;
use tinycms::models::user::{UserRole, UserStatus};
use tinycms::schema::config::{
    credentials_enabled, find_github_config, find_google_config, AuthConfig, DatabaseConfig, OAuthProvider,
    ProviderConfig, TinyCmsConfig,
};

fn config(providers: Vec<ProviderConfig>) -> TinyCmsConfig {
    TinyCmsConfig {
        database: DatabaseConfig { db_type: None, url: "postgres://localhost/db".to_string() },
        auth: Some(AuthConfig { providers }),
        storage: None,
        runtime: None,
        types: vec![],
    }
}

fn github(id: &str, secret: &str) -> ProviderConfig {
    ProviderConfig::GitHub { client_id: Some(id.to_string()), client_secret: Some(secret.to_string()) }
}

fn finish_location(action: &CallbackAction) -> String {
    match action {
        CallbackAction::Finish { location, .. } => location.clone(),
        _ => panic!("expected the callback to finish"),
    }
}

fn query(code: Option<&str>, state: Option<&str>, error: Option<&str>) -> CallbackQuery {
    CallbackQuery {
        code: code.map(|s| s.to_string()),
        state: state.map(|s| s.to_string()),
        error: error.map(|s| s.to_string()),
    }
}

#[test]
fn provider_lookup_skips_incomplete_entries() {
    let cfg = config(vec![
        ProviderConfig::GitHub { client_id: Some("a".to_string()), client_secret: None },
        ProviderConfig::Credentials,
        github("b", "s"),
    ]);
    assert_eq!(find_github_config(&cfg), Some(("b".to_string(), "s".to_string())));
    assert_eq!(find_google_config(&cfg), None);
    assert!(credentials_enabled(&cfg));
    let mut none = config(vec![]);
    none.auth = None;
    assert!(!credentials_enabled(&none));
    assert_eq!(find_github_config(&none), None);
}

#[test]
fn redirect_addresses() {
    assert_eq!(callback_address(OAuthProvider::GitHub, "http://x"), "http://x/api/auth/github/callback");
    assert_eq!(
        authorization_address(OAuthProvider::GitHub, "cid", "http://x", "st"),
        "https://github.com/login/oauth/authorize?client_id=cid&redirect_uri=http://x/api/auth/github/callback&state=st&scope=read:user,user:email"
    );
    assert_eq!(
        authorization_address(OAuthProvider::Google, "cid", "http://x", "st"),
        "https://accounts.google.com/o/oauth2/v2/auth?client_id=cid&redirect_uri=http://x/api/auth/google/callback&response_type=code&scope=openid%20email%20profile&state=st"
    );
}

#[test]
fn redirect_needs_configuration() {
    let cfg = config(vec![github("cid", "sec")]);
    match oauth_redirect(OAuthProvider::Google, &cfg, "http://x") {
        Err(m) => assert_eq!(m, "Google provider not configured"),
        Ok(_) => panic!("expected a refusal"),
    }
    let r = oauth_redirect(OAuthProvider::GitHub, &cfg, "http://x").ok().unwrap();
    let csrf = r.state_cookie.strip_prefix("oauth_state=").unwrap().split(';').next().unwrap().to_string();
    assert_eq!(csrf.len(), 64);
    assert_eq!(r.location, authorization_address(OAuthProvider::GitHub, "cid", "http://x", &csrf));
}

#[test]
fn state_mismatch_refused() {
    let cfg = config(vec![github("cid", "sec")]);
    let (next, action) = callback_step(
        OAuthProvider::GitHub,
        &cfg,
        "http://x",
        CallbackStage::Start,
        CallbackEvent::Received { expected_state: Some("a".to_string()), query: query(Some("c"), Some("b"), None) },
    );
    assert!(matches!(next, CallbackStage::Done));
    assert_eq!(finish_location(&action), "/?error=invalid_state");
    let (_, action) = callback_step(
        OAuthProvider::GitHub,
        &cfg,
        "http://x",
        CallbackStage::Start,
        CallbackEvent::Received { expected_state: None, query: query(Some("c"), None, None) },
    );
    assert_eq!(finish_location(&action), "/?error=invalid_state");
}

#[test]
fn callback_refusals_in_order() {
    let cfg = config(vec![github("cid", "sec")]);
    let run = |q: CallbackQuery, p: OAuthProvider| {
        let (_, a) = callback_step(
            p,
            &cfg,
            "http://x",
            CallbackStage::Start,
            CallbackEvent::Received { expected_state: Some("s".to_string()), query: q },
        );
        a
    };
    assert_eq!(finish_location(&run(query(Some("c"), Some("s"), Some("denied")), OAuthProvider::GitHub)), "/?error=access_denied");
    assert_eq!(finish_location(&run(query(None, Some("s"), None), OAuthProvider::GitHub)), "/?error=no_code");
    assert_eq!(finish_location(&run(query(Some("c"), Some("s"), None), OAuthProvider::Google)), "/?error=not_configured");
    match run(query(Some("c"), Some("s"), None), OAuthProvider::GitHub) {
        CallbackAction::ExchangeCode { client_id, client_secret, code, redirect_uri } => {
            assert_eq!(client_id, "cid");
            assert_eq!(client_secret, "sec");
            assert_eq!(code, "c");
            assert_eq!(redirect_uri, "http://x/api/auth/github/callback");
        },
        _ => panic!("expected the code to be exchanged"),
    }
}

#[test]
fn github_callback_through_to_session() {
    let cfg = config(vec![github("cid", "sec")]);
    let p = OAuthProvider::GitHub;
    let step = |st: CallbackStage, ev: CallbackEvent| callback_step(p, &cfg, "http://x", st, ev);
    let (st, _) = step(
        CallbackStage::Start,
        CallbackEvent::Received { expected_state: Some("s".to_string()), query: query(Some("c"), Some("s"), None) },
    );
    let (st, a) = step(st, CallbackEvent::TokenExchanged(Some("at".to_string())));
    assert!(matches!(a, CallbackAction::FetchProfile { ref access_token } if access_token == "at"));
    let profile = GitHubUser { id: -42, name: Some("N".to_string()), email: None };
    let (st, a) = step(st, CallbackEvent::ProfileFetched(Some(ProviderProfile::GitHub(profile))));
    assert!(matches!(a, CallbackAction::FetchPrimaryEmail { ref access_token } if access_token == "at"));
    let (st, a) = step(st, CallbackEvent::PrimaryEmail(Some("e@x".to_string())));
    assert!(matches!(a, CallbackAction::LoadSignupSettings));
    let settings = SignupSettings { require_approval: false, default_role: UserRole::Viewer };
    let (st, a) = step(st, CallbackEvent::SignupSettingsRead(Some((Some(settings), Some(4)))));
    match a {
        CallbackAction::SaveUser { email, name, status, role, provider, account_id } => {
            assert_eq!(email, "e@x");
            assert_eq!(name, Some("N".to_string()));
            assert!(matches!(status, UserStatus::Active));
            assert!(matches!(role, UserRole::Viewer));
            assert!(matches!(provider, OAuthProvider::GitHub));
            assert_eq!(account_id, "-42");
        },
        _ => panic!("expected the user to be saved"),
    }
    let (st, a) = step(st, CallbackEvent::UserSaved(Some(UserStatus::Active)));
    assert!(matches!(a, CallbackAction::CreateSession));
    let (st, a) = step(st, CallbackEvent::SessionCreated(Some("tok".to_string())));
    assert!(matches!(st, CallbackStage::Done));
    match a {
        CallbackAction::Finish { location, session_token } => {
            assert_eq!(location, "/");
            assert_eq!(session_token, Some("tok".to_string()));
        },
        _ => panic!("expected the callback to finish"),
    }
}

#[test]
fn google_without_email_and_pending_users() {
    let cfg = config(vec![ProviderConfig::Google {
        client_id: Some("g".to_string()),
        client_secret: Some("h".to_string()),
    }]);
    let p = OAuthProvider::Google;
    let profile = GoogleUser { sub: "123".to_string(), name: None, email: None };
    let (_, a) = callback_step(
        p,
        &cfg,
        "http://x",
        CallbackStage::AwaitingProfile { access_token: "t".to_string() },
        CallbackEvent::ProfileFetched(Some(ProviderProfile::Google(profile))),
    );
    assert_eq!(finish_location(&a), "/?error=no_email");
    let (_, a) = callback_step(p, &cfg, "http://x", CallbackStage::AwaitingUser, CallbackEvent::UserSaved(Some(UserStatus::Pending)));
    assert_eq!(finish_location(&a), "/?status=pending");
    let (_, a) = callback_step(p, &cfg, "http://x", CallbackStage::AwaitingUser, CallbackEvent::UserSaved(Some(UserStatus::Suspended)));
    assert_eq!(finish_location(&a), "/?error=suspended");
    let (_, a) = callback_step(p, &cfg, "http://x", CallbackStage::AwaitingToken, CallbackEvent::TokenExchanged(None));
    assert_eq!(finish_location(&a), "/?error=auth_failed");
    let (_, a) = callback_step(p, &cfg, "http://x", CallbackStage::AwaitingSession, CallbackEvent::SessionCreated(None));
    assert_eq!(finish_location(&a), "/?error=server_error");
}

#[test]
fn primary_verified_email_chosen() {
    let e = |email: &str, primary: bool, verified: bool| EmailEntry { email: email.to_string(), primary, verified };
    assert_eq!(
        primary_email(vec![e("a", true, false), e("b", false, true), e("c", true, true), e("d", true, true)]),
        Some("c".to_string())
    );
    assert_eq!(primary_email(vec![e("a", true, false)]), None);
}

#[test]
fn finishing_a_callback_clears_the_state_cookie() {
    let c = tinycms::auth::oauth::finish_cookies(None, 0);
    assert_eq!(c, vec!["oauth_state=; Path=/; HttpOnly; Max-Age=0".to_string()]);
    let c = tinycms::auth::oauth::finish_cookies(Some("tok"), 0);
    assert_eq!(c.len(), 2);
    assert_eq!(c[0], "session=tok; Path=/; HttpOnly; SameSite=Lax; Expires=Thu, 01 Jan 1970 00:00:00 GMT");
    assert_eq!(c[1], "oauth_state=; Path=/; HttpOnly; Max-Age=0");
}
