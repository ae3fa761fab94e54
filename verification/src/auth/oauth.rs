//! Signing in with GitHub or Google.
//!
//! The sign-in starts with a redirect to the provider, carrying a random state that is
//! also kept in a cookie. The provider sends the browser back to the callback, which checks
//! that state, trades the code for an access token, fetches the user's profile (and, on
//! GitHub, the primary email when the profile has none), saves the user and, for an active
//! user, opens a session. The network and database work is done by the caller;
//! [`callback_step`] says at each point what comes next, from what the previous piece of
//! work returned, and every way the callback ends is a redirect.

use vstd::prelude::*;
use crate::auth::cookie::{
    clear_oauth_state_cookie, clear_state_cookie_text, oauth_state_cookie, session_cookie, session_cookie_text,
    MAX_TIMESTAMP, MIN_TIMESTAMP,
};
use crate::auth::token::{generate_token, hex_encode};
use crate::auth::user::{new_user_status, resolve_new_user_status, SignupSettings};
use crate::models::user::{UserRole, UserStatus};
use crate::schema::config::{find_oauth_client, oauth_client, pair_view, OAuthProvider, TinyCmsConfig};
use crate::text::{push_str, signed_decimal, signed_decimal_string, str_eq, views};

verus! {

/// The profile GitHub returns for the signed-in user.
pub struct GitHubUser {
    pub id: i64,
    pub name: Option<String>,
    pub email: Option<String>,
}

/// The profile Google returns for the signed-in user.
pub struct GoogleUser {
    pub sub: String,
    pub name: Option<String>,
    pub email: Option<String>,
}

/// A provider's profile of the signed-in user.
pub enum ProviderProfile {
    GitHub(GitHubUser),
    Google(GoogleUser),
}

/// One of the email addresses GitHub lists for the signed-in user.
pub struct EmailEntry {
    pub email: String,
    pub primary: bool,
    pub verified: bool,
}

/// The first listed address that is both primary and verified, from position `i` on.
pub open spec fn primary_from(entries: Seq<EmailEntry>, i: int) -> Option<Seq<char>>
    decreases entries.len() - i,
{
    if i < 0 || i >= entries.len() {
        None
    } else if entries[i].primary && entries[i].verified {
        Some(entries[i].email@)
    } else {
        primary_from(entries, i + 1)
    }
}

/// The address to sign in with among GitHub's list: the first that is primary and verified.
pub fn primary_email(entries: Vec<EmailEntry>) -> (r: Option<String>)
    ensures
        opt_text(r) == primary_from(entries@, 0),
{
    let mut i: usize = 0;
    while i < entries.len()
        invariant
            i <= entries@.len(),
            primary_from(entries@, 0) == primary_from(entries@, i as int),
        decreases entries@.len() - i,
    {
        if entries[i].primary && entries[i].verified {
            return Some(entries[i].email.clone());
        }
        i = i + 1;
    }
    None
}

/// The query string the provider sends back to the callback.
pub struct CallbackQuery {
    pub code: Option<String>,
    pub state: Option<String>,
    pub error: Option<String>,
}

/// How far the callback has come.
pub enum CallbackStage {
    /// Nothing looked at yet.
    Start,
    /// The code is being traded for an access token.
    AwaitingToken,
    /// The user's profile is being fetched with the access token.
    AwaitingProfile { access_token: String },
    /// GitHub's primary email is being fetched for a profile that has none.
    AwaitingEmail { name: Option<String>, account_id: String },
    /// The settings a new user's status depends on are being read.
    AwaitingSignupSettings { email: String, name: Option<String>, account_id: String },
    /// The user and the provider account are being saved.
    AwaitingUser,
    /// A session is being opened for the (active) user.
    AwaitingSession,
    /// The callback has been answered.
    Done,
}

/// What the caller reports to [`callback_step`]; `None` stands for work that failed.
pub enum CallbackEvent {
    /// The callback request came in, with the state kept in the `oauth_state` cookie.
    Received { expected_state: Option<String>, query: CallbackQuery },
    /// The access token the code was traded for.
    TokenExchanged(Option<String>),
    /// The user's profile.
    ProfileFetched(Option<ProviderProfile>),
    /// GitHub's verified primary email (also `None` when there is none).
    PrimaryEmail(Option<String>),
    /// The workspace's sign-up settings (if stored) and the number of users.
    SignupSettingsRead(Option<(Option<SignupSettings>, Option<i64>)>),
    /// The status of the saved user.
    UserSaved(Option<UserStatus>),
    /// The token of the session opened.
    SessionCreated(Option<String>),
}

/// What the caller does next.
pub enum CallbackAction {
    /// Trade the code for an access token.
    ExchangeCode { client_id: String, client_secret: String, code: String, redirect_uri: String },
    /// Fetch the user's profile.
    FetchProfile { access_token: String },
    /// Fetch GitHub's verified primary email.
    FetchPrimaryEmail { access_token: String },
    /// Read the sign-up settings and count the users.
    LoadSignupSettings,
    /// Create the user (or, for a known email, keep it and fill in a missing name) with
    /// this status and role, and link the provider account to it.
    SaveUser {
        email: String,
        name: Option<String>,
        status: UserStatus,
        role: UserRole,
        provider: OAuthProvider,
        account_id: String,
    },
    /// Open a session for the saved user.
    CreateSession,
    /// Redirect to `location`, clearing the state cookie and, with a session, setting its
    /// cookie.
    Finish { location: String, session_token: Option<String> },
}

/// An optional string with its text as characters.
pub open spec fn opt_text(s: Option<String>) -> Option<Seq<char>> {
    match s {
        Some(x) => Some(x@),
        None => None,
    }
}

/// The provider's name, as accounts are stored under it.
pub open spec fn provider_label(p: OAuthProvider) -> Seq<char> {
    match p {
        OAuthProvider::GitHub => "github"@,
        OAuthProvider::Google => "google"@,
    }
}

/// The provider's name, as accounts are stored under it.
pub fn provider_name(p: OAuthProvider) -> (r: &'static str)
    ensures
        r@ == provider_label(p),
{
    match p {
        OAuthProvider::GitHub => "github",
        OAuthProvider::Google => "google",
    }
}

/// The address the provider sends the browser back to.
pub open spec fn callback_uri(p: OAuthProvider, base_url: Seq<char>) -> Seq<char> {
    base_url + "/api/auth/"@ + provider_label(p) + "/callback"@
}

/// A space as it is written in a URL: `%` and the code `20`.
pub open spec fn encoded_space() -> Seq<char> {
    seq!['%', '2', '0']
}

/// Appends a space as it is written in a URL.
fn push_encoded_space(s: &mut String)
    ensures
        final(s)@ == old(s)@ + encoded_space(),
{
    let ghost before = s@;
    crate::text::push_char(s, '%');
    crate::text::push_char(s, '2');
    crate::text::push_char(s, '0');
    assert(s@ =~= before + encoded_space());
}

/// The provider's authorization page, for this client, callback and state.
pub open spec fn authorize_url(p: OAuthProvider, client_id: Seq<char>, base_url: Seq<char>, csrf: Seq<char>) -> Seq<char> {
    match p {
        OAuthProvider::GitHub => "https://github.com/login/oauth/authorize?client_id="@ + client_id
            + "&redirect_uri="@ + callback_uri(p, base_url) + "&state="@ + csrf + "&scope=read:user,user:email"@,
        OAuthProvider::Google => "https://accounts.google.com/o/oauth2/v2/auth?client_id="@ + client_id
            + "&redirect_uri="@ + callback_uri(p, base_url) + "&response_type=code&scope=openid"@ + encoded_space()
            + "email"@ + encoded_space() + "profile&state="@ + csrf,
    }
}

/// The answer to a sign-in request: where to send the browser and the state cookie.
pub struct OAuthRedirect {
    pub location: String,
    pub state_cookie: String,
}

/// The client id a provider is configured with (empty when it is not configured).
pub open spec fn configured_client_id(schema: TinyCmsConfig, p: OAuthProvider) -> Seq<char> {
    match oauth_client(schema, p) {
        Some((id, _)) => id,
        None => seq![],
    }
}

/// The refusal of a sign-in with a provider that is not configured.
pub open spec fn not_configured_message(p: OAuthProvider) -> Seq<char> {
    match p {
        OAuthProvider::GitHub => "GitHub provider not configured"@,
        OAuthProvider::Google => "Google provider not configured"@,
    }
}

/// The address the provider sends the browser back to, computed.
pub fn callback_address(p: OAuthProvider, base_url: &str) -> (r: String)
    ensures
        r@ == callback_uri(p, base_url@),
{
    let mut r = String::new();
    push_str(&mut r, base_url);
    push_str(&mut r, "/api/auth/");
    push_str(&mut r, provider_name(p));
    push_str(&mut r, "/callback");
    r
}

/// The provider's authorization page for this client, callback and state, computed.
pub fn authorization_address(p: OAuthProvider, client_id: &str, base_url: &str, csrf: &str) -> (r: String)
    ensures
        r@ == authorize_url(p, client_id@, base_url@, csrf@),
{
    let redirect_uri = callback_address(p, base_url);
    let mut r = String::new();
    match p {
        OAuthProvider::GitHub => {
            push_str(&mut r, "https://github.com/login/oauth/authorize?client_id=");
            push_str(&mut r, client_id);
            push_str(&mut r, "&redirect_uri=");
            push_str(&mut r, redirect_uri.as_str());
            push_str(&mut r, "&state=");
            push_str(&mut r, csrf);
            push_str(&mut r, "&scope=read:user,user:email");
        },
        OAuthProvider::Google => {
            push_str(&mut r, "https://accounts.google.com/o/oauth2/v2/auth?client_id=");
            push_str(&mut r, client_id);
            push_str(&mut r, "&redirect_uri=");
            push_str(&mut r, redirect_uri.as_str());
            push_str(&mut r, "&response_type=code&scope=openid");
            push_encoded_space(&mut r);
            push_str(&mut r, "email");
            push_encoded_space(&mut r);
            push_str(&mut r, "profile&state=");
            push_str(&mut r, csrf);
        },
    }
    r
}

/// Starts a sign-in with a provider: refused when the provider is not configured with
/// both a client id and a secret; otherwise a redirect to its authorization page with a
/// fresh random state, which the state cookie also carries.
pub fn oauth_redirect(p: OAuthProvider, schema: &TinyCmsConfig, base_url: &str) -> (r: Result<OAuthRedirect, String>)
    ensures
        oauth_client(*schema, p) is None <==> r is Err,
        r matches Err(m) ==> m@ == not_configured_message(p),
        r matches Ok(red) ==> exists|csrf: Seq<u8>| {
            &&& csrf.len() == 32
            &&& red.location@ == authorize_url(p, configured_client_id(*schema, p), base_url@, hex_encode(csrf))
            &&& red.state_cookie@ == "oauth_state="@ + hex_encode(csrf) + "; Path=/; HttpOnly; SameSite=Lax; Max-Age=600"@
        },
{
    let client = find_oauth_client(schema, p);
    match client {
        None => {
            let m = match p {
                OAuthProvider::GitHub => "GitHub provider not configured".to_string(),
                OAuthProvider::Google => "Google provider not configured".to_string(),
            };
            Err(m)
        },
        Some((client_id, _)) => {
            let csrf = generate_token();
            let location = authorization_address(p, client_id.as_str(), base_url, csrf.as_str());
            let state_cookie = oauth_state_cookie(csrf.as_str());
            Ok(OAuthRedirect { location, state_cookie })
        },
    }
}

// ---------------------------------------------------------------------------
// The callback
// ---------------------------------------------------------------------------

/// Whether `event` is what the caller can report at `stage`.
pub open spec fn callback_expects(stage: CallbackStage, event: CallbackEvent) -> bool {
    match (stage, event) {
        (CallbackStage::Start, CallbackEvent::Received { .. }) => true,
        (CallbackStage::AwaitingToken, CallbackEvent::TokenExchanged(_)) => true,
        (CallbackStage::AwaitingProfile { .. }, CallbackEvent::ProfileFetched(_)) => true,
        (CallbackStage::AwaitingEmail { .. }, CallbackEvent::PrimaryEmail(_)) => true,
        (CallbackStage::AwaitingSignupSettings { .. }, CallbackEvent::SignupSettingsRead(_)) => true,
        (CallbackStage::AwaitingUser, CallbackEvent::UserSaved(_)) => true,
        (CallbackStage::AwaitingSession, CallbackEvent::SessionCreated(_)) => true,
        _ => false,
    }
}

/// How many steps a stage is from the end at most.
pub open spec fn callback_rank(stage: CallbackStage) -> nat {
    match stage {
        CallbackStage::Start => 7,
        CallbackStage::AwaitingToken => 6,
        CallbackStage::AwaitingProfile { .. } => 5,
        CallbackStage::AwaitingEmail { .. } => 4,
        CallbackStage::AwaitingSignupSettings { .. } => 3,
        CallbackStage::AwaitingUser => 2,
        CallbackStage::AwaitingSession => 1,
        CallbackStage::Done => 0,
    }
}

/// The step ends the callback with a redirect to `location` and no session.
pub open spec fn finishes_at(next: CallbackStage, action: CallbackAction, location: Seq<char>) -> bool {
    &&& next is Done
    &&& action matches CallbackAction::Finish { location: l, session_token: None } && l@ == location
}

/// The step reads the sign-up settings next, for a user with this email, name and account.
pub open spec fn loads_settings(
    next: CallbackStage,
    action: CallbackAction,
    email: Seq<char>,
    name: Option<Seq<char>>,
    account_id: Seq<char>,
) -> bool {
    &&& next matches CallbackStage::AwaitingSignupSettings { email: e, name: n, account_id: a } && e@ == email
        && opt_text(n) == name && a@ == account_id
    &&& action is LoadSignupSettings
}

/// One step of the callback.
pub open spec fn callback_transition(
    p: OAuthProvider,
    schema: TinyCmsConfig,
    base_url: Seq<char>,
    stage: CallbackStage,
    event: CallbackEvent,
    next: CallbackStage,
    action: CallbackAction,
) -> bool {
    match (stage, event) {
        (CallbackStage::Start, CallbackEvent::Received { expected_state, query }) => if expected_state is None
            || opt_text(expected_state) != opt_text(query.state) {
            finishes_at(next, action, "/?error=invalid_state"@)
        } else if query.error is Some {
            finishes_at(next, action, "/?error=access_denied"@)
        } else if query.code is None {
            finishes_at(next, action, "/?error=no_code"@)
        } else {
            match oauth_client(schema, p) {
                None => finishes_at(next, action, "/?error=not_configured"@),
                Some((id, secret)) => {
                    &&& next is AwaitingToken
                    &&& action matches CallbackAction::ExchangeCode { client_id, client_secret, code, redirect_uri }
                        && client_id@ == id && client_secret@ == secret && code@ == query.code->0@
                        && redirect_uri@ == callback_uri(p, base_url)
                },
            }
        },
        (CallbackStage::AwaitingToken, CallbackEvent::TokenExchanged(token)) => match token {
            None => finishes_at(next, action, "/?error=auth_failed"@),
            Some(t) => (next matches CallbackStage::AwaitingProfile { access_token: kept } && kept@ == t@) && (
            action matches CallbackAction::FetchProfile { access_token } && access_token@ == t@),
        },
        (CallbackStage::AwaitingProfile { access_token: token }, CallbackEvent::ProfileFetched(profile)) => match profile {
            None => finishes_at(next, action, "/?error=auth_failed"@),
            Some(ProviderProfile::GitHub(u)) => match u.email {
                Some(e) => loads_settings(next, action, e@, opt_text(u.name), signed_decimal(u.id as int)),
                None => {
                    &&& next matches CallbackStage::AwaitingEmail { name, account_id } && opt_text(name) == opt_text(
                        u.name,
                    ) && account_id@ == signed_decimal(u.id as int)
                    &&& action matches CallbackAction::FetchPrimaryEmail { access_token } && access_token@ == token@
                },
            },
            Some(ProviderProfile::Google(u)) => match u.email {
                Some(e) => loads_settings(next, action, e@, opt_text(u.name), u.sub@),
                None => finishes_at(next, action, "/?error=no_email"@),
            },
        },
        (CallbackStage::AwaitingEmail { name, account_id }, CallbackEvent::PrimaryEmail(email)) => match email {
            None => finishes_at(next, action, "/?error=no_email"@),
            Some(e) => loads_settings(next, action, e@, opt_text(name), account_id@),
        },
        (
            CallbackStage::AwaitingSignupSettings { email, name, account_id },
            CallbackEvent::SignupSettingsRead(read),
        ) => match read {
            None => finishes_at(next, action, "/?error=server_error"@),
            Some((settings, count)) => {
                let (status, role) = new_user_status(settings, count);
                &&& next is AwaitingUser
                &&& action matches CallbackAction::SaveUser {
                    email: e,
                    name: n,
                    status: s,
                    role: r,
                    provider: pr,
                    account_id: a,
                } && e@ == email@ && opt_text(n) == opt_text(name) && s == status && r == role && pr == p && a@
                    == account_id@
            },
        },
        (CallbackStage::AwaitingUser, CallbackEvent::UserSaved(saved)) => match saved {
            None => finishes_at(next, action, "/?error=server_error"@),
            Some(UserStatus::Active) => next is AwaitingSession && action is CreateSession,
            Some(UserStatus::Pending) => finishes_at(next, action, "/?status=pending"@),
            Some(UserStatus::Suspended) => finishes_at(next, action, "/?error=suspended"@),
        },
        (CallbackStage::AwaitingSession, CallbackEvent::SessionCreated(session)) => match session {
            None => finishes_at(next, action, "/?error=server_error"@),
            Some(t) => {
                &&& next is Done
                &&& action matches CallbackAction::Finish { location, session_token: Some(st) } && location@ == "/"@
                    && st@ == t@
            },
        },
        _ => false,
    }
}

/// Whether `event` is what the caller can report at `stage`, computed.
pub fn callback_expects_event(stage: &CallbackStage, event: &CallbackEvent) -> (r: bool)
    ensures
        r == callback_expects(*stage, *event),
{
    match (stage, event) {
        (CallbackStage::Start, CallbackEvent::Received { .. }) => true,
        (CallbackStage::AwaitingToken, CallbackEvent::TokenExchanged(_)) => true,
        (CallbackStage::AwaitingProfile { .. }, CallbackEvent::ProfileFetched(_)) => true,
        (CallbackStage::AwaitingEmail { .. }, CallbackEvent::PrimaryEmail(_)) => true,
        (CallbackStage::AwaitingSignupSettings { .. }, CallbackEvent::SignupSettingsRead(_)) => true,
        (CallbackStage::AwaitingUser, CallbackEvent::UserSaved(_)) => true,
        (CallbackStage::AwaitingSession, CallbackEvent::SessionCreated(_)) => true,
        _ => false,
    }
}

/// Ends the callback with a redirect to `location` and no session.
fn finish(location: &str) -> (r: (CallbackStage, CallbackAction))
    ensures
        finishes_at(r.0, r.1, location@),
{
    (CallbackStage::Done, CallbackAction::Finish { location: location.to_string(), session_token: None })
}

/// Whether two optional texts are the same, computed.
fn same_text(a: &Option<String>, b: &Option<String>) -> (r: bool)
    ensures
        r == (opt_text(*a) == opt_text(*b)),
{
    match (a, b) {
        (Some(x), Some(y)) => str_eq(x.as_str(), y.as_str()),
        (None, None) => true,
        _ => false,
    }
}

/// The callback's first step: the state check, then the query, then the configuration.
fn receive(p: OAuthProvider, schema: &TinyCmsConfig, base_url: &str, expected_state: Option<String>, query: CallbackQuery) -> (r: (
    CallbackStage,
    CallbackAction,
))
    ensures
        callback_transition(
            p,
            *schema,
            base_url@,
            CallbackStage::Start,
            CallbackEvent::Received { expected_state, query },
            r.0,
            r.1,
        ),
{
    if expected_state.is_none() || !same_text(&expected_state, &query.state) {
        return finish("/?error=invalid_state");
    }
    if query.error.is_some() {
        return finish("/?error=access_denied");
    }
    let code = match query.code {
        Some(c) => c,
        None => {
            return finish("/?error=no_code");
        },
    };
    match find_oauth_client(schema, p) {
        None => finish("/?error=not_configured"),
        Some((client_id, client_secret)) => {
            let redirect_uri = callback_address(p, base_url);
            (CallbackStage::AwaitingToken, CallbackAction::ExchangeCode { client_id, client_secret, code, redirect_uri })
        },
    }
}

/// One step of the callback: from where it stands and what the caller reports, where it
/// goes and what the caller does next. Each step brings it closer to the end.
pub fn callback_step(
    p: OAuthProvider,
    schema: &TinyCmsConfig,
    base_url: &str,
    stage: CallbackStage,
    event: CallbackEvent,
) -> (r: (CallbackStage, CallbackAction))
    requires
        callback_expects(stage, event),
    ensures
        callback_transition(p, *schema, base_url@, stage, event, r.0, r.1),
        callback_rank(r.0) < callback_rank(stage),
{
    match (stage, event) {
        (CallbackStage::Start, CallbackEvent::Received { expected_state, query }) => receive(
            p,
            schema,
            base_url,
            expected_state,
            query,
        ),
        (CallbackStage::AwaitingToken, CallbackEvent::TokenExchanged(token)) => match token {
            None => finish("/?error=auth_failed"),
            Some(access_token) => {
                let kept = access_token.clone();
                (CallbackStage::AwaitingProfile { access_token: kept }, CallbackAction::FetchProfile { access_token })
            },
        },
        (CallbackStage::AwaitingProfile { access_token }, CallbackEvent::ProfileFetched(profile)) => match profile {
            None => finish("/?error=auth_failed"),
            Some(ProviderProfile::GitHub(u)) => {
                let account_id = signed_decimal_string(u.id);
                match u.email {
                    Some(email) => (
                        CallbackStage::AwaitingSignupSettings { email, name: u.name, account_id },
                        CallbackAction::LoadSignupSettings,
                    ),
                    None => {
                        (
                            CallbackStage::AwaitingEmail { name: u.name, account_id },
                            CallbackAction::FetchPrimaryEmail { access_token },
                        )
                    },
                }
            },
            Some(ProviderProfile::Google(u)) => match u.email {
                Some(email) => (
                    CallbackStage::AwaitingSignupSettings { email, name: u.name, account_id: u.sub },
                    CallbackAction::LoadSignupSettings,
                ),
                None => finish("/?error=no_email"),
            },
        },
        (CallbackStage::AwaitingEmail { name, account_id }, CallbackEvent::PrimaryEmail(email)) => match email {
            None => finish("/?error=no_email"),
            Some(email) => (
                CallbackStage::AwaitingSignupSettings { email, name, account_id },
                CallbackAction::LoadSignupSettings,
            ),
        },
        (
            CallbackStage::AwaitingSignupSettings { email, name, account_id },
            CallbackEvent::SignupSettingsRead(read),
        ) => match read {
            None => finish("/?error=server_error"),
            Some((settings, count)) => {
                let (status, role) = resolve_new_user_status(settings, count);
                (
                    CallbackStage::AwaitingUser,
                    CallbackAction::SaveUser { email, name, status, role, provider: p, account_id },
                )
            },
        },
        (CallbackStage::AwaitingUser, CallbackEvent::UserSaved(saved)) => match saved {
            None => finish("/?error=server_error"),
            Some(UserStatus::Active) => (CallbackStage::AwaitingSession, CallbackAction::CreateSession),
            Some(UserStatus::Pending) => finish("/?status=pending"),
            Some(UserStatus::Suspended) => finish("/?error=suspended"),
        },
        (CallbackStage::AwaitingSession, CallbackEvent::SessionCreated(session)) => match session {
            None => finish("/?error=server_error"),
            Some(token) => (
                CallbackStage::Done,
                CallbackAction::Finish { location: "/".to_string(), session_token: Some(token) },
            ),
        },
        _ => finish("/?error=server_error"),
    }
}

// ---------------------------------------------------------------------------
// The cookies of the redirect that ends a callback
// ---------------------------------------------------------------------------

/// The `Set-Cookie` values of the redirect that ends a callback: the session cookie,
/// expiring at second `expires`, when there is a session, then the cookie that removes
/// the OAuth state.
pub open spec fn finish_cookie_list(session_token: Option<Seq<char>>, expires: int) -> Seq<Seq<char>> {
    match session_token {
        Some(t) => seq![session_cookie_text(t, expires), clear_state_cookie_text()],
        None => seq![clear_state_cookie_text()],
    }
}

/// The `Set-Cookie` values of the redirect a `Finish` action asks for, with the session
/// (if any) expiring at second `expires`.
pub fn finish_cookies(session_token: Option<&str>, expires: i64) -> (r: Vec<String>)
    requires
        MIN_TIMESTAMP <= expires <= MAX_TIMESTAMP,
    ensures
        views(r@) == finish_cookie_list(
            match session_token {
                Some(t) => Some(t@),
                None => None,
            },
            expires as int,
        ),
{
    let mut r: Vec<String> = Vec::new();
    match session_token {
        Some(t) => r.push(session_cookie(t, expires)),
        None => {},
    }
    r.push(clear_oauth_state_cookie().to_string());
    assert(views(r@) =~= finish_cookie_list(
        match session_token {
            Some(t) => Some(t@),
            None => None,
        },
        expires as int,
    ));
    r
}

/// Law: every callback ends with a redirect that removes the OAuth state. Whatever the
/// stage and what was reported, a step that ends the callback asks for a `Finish`, and
/// the cookies of that redirect end with the one that removes the state cookie.
pub proof fn law_every_callback_end_clears_state(
    p: OAuthProvider,
    schema: TinyCmsConfig,
    base_url: Seq<char>,
    stage: CallbackStage,
    event: CallbackEvent,
    next: CallbackStage,
    action: CallbackAction,
    expires: int,
)
    requires
        callback_transition(p, schema, base_url, stage, event, next, action),
        next is Done,
    ensures
        action matches CallbackAction::Finish { session_token, .. } && finish_cookie_list(
            opt_text(session_token),
            expires,
        ).last() == clear_state_cookie_text(),
{
}

} // verus!
