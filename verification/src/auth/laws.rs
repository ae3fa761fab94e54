//! What the sign-in flows guarantee, over every step they take.

use vstd::prelude::*;
use crate::auth::credentials::{
    login_transition, password_matches, register_transition, CredentialsAccount, LoginAction, LoginEvent, LoginStage,
    RegisterEvent, RegisterStage,
};
use crate::auth::oauth::{callback_transition, opt_text, CallbackAction, CallbackEvent, CallbackStage};
use crate::auth::session::{auth_transition, AuthAction, AuthEvent, AuthStage, Lookup};
use crate::auth::user::{new_user_status, SignupSettings};
use crate::models::user::{UserRole, UserStatus};
use crate::schema::config::{spec_credentials_enabled, OAuthProvider, TinyCmsConfig};

verus! {

/// Law: a request is only ever let in as an active user. Whatever the cookie, the header
/// and the rows looked up, a step that accepts the request accepts an active user; pending
/// and suspended users are never let in.
pub proof fn law_only_active_users_accepted(stage: AuthStage, event: AuthEvent, next: AuthStage, action: AuthAction)
    requires
        auth_transition(stage, event, next, action),
    ensures
        action matches AuthAction::Accept { user, .. } ==> user.status == UserStatus::Active,
{
}

/// Law: the provider's code is only traded for a token when the state the provider sent
/// back is the state kept in the browser's cookie (and that cookie is there).
pub proof fn law_state_checked_before_exchange(
    p: OAuthProvider,
    schema: TinyCmsConfig,
    base_url: Seq<char>,
    stage: CallbackStage,
    event: CallbackEvent,
    next: CallbackStage,
    action: CallbackAction,
)
    requires
        callback_transition(p, schema, base_url, stage, event, next, action),
        action is ExchangeCode,
    ensures
        event matches CallbackEvent::Received { expected_state, query } && expected_state is Some && opt_text(
            expected_state,
        ) == opt_text(query.state),
{
}

/// Law: an OAuth sign-in only opens a session for a user saved as active. The step that
/// asks for a session comes right after the user was saved with status active, and the
/// only step that hands out a session token is the one that received it.
pub proof fn law_callback_session_needs_active_user(
    p: OAuthProvider,
    schema: TinyCmsConfig,
    base_url: Seq<char>,
    stage: CallbackStage,
    event: CallbackEvent,
    next: CallbackStage,
    action: CallbackAction,
)
    requires
        callback_transition(p, schema, base_url, stage, event, next, action),
    ensures
        action is CreateSession ==> stage is AwaitingUser && event == CallbackEvent::UserSaved(Some(UserStatus::Active)),
        action matches CallbackAction::Finish { session_token: Some(t), .. } ==> (event matches CallbackEvent::SessionCreated(
            Some(created),
        ) && created@ == t@ && stage is AwaitingSession),
{
}

/// Law: the first user of the system becomes an active administrator, whatever the
/// workspace settings say.
pub proof fn law_first_user_is_admin(settings: Option<SignupSettings>)
    ensures
        new_user_status(settings, Some(0)) == (UserStatus::Active, UserRole::Admin),
        new_user_status(settings, None) == (UserStatus::Active, UserRole::Admin),
{
}

/// Law: later users get the workspace's default role, and are pending exactly when the
/// workspace requires approval (or has no settings stored).
pub proof fn law_later_users_follow_settings(settings: Option<SignupSettings>, count: i64)
    requires
        count != 0,
    ensures
        new_user_status(settings, Some(count)).0 == (if settings matches Some(s) && !s.require_approval {
            UserStatus::Active
        } else {
            UserStatus::Pending
        }),
        new_user_status(settings, Some(count)).1 == match settings {
            Some(s) => s.default_role,
            None => UserRole::Editor,
        },
{
}

/// Law: a password set at sign-up is accepted at sign-in. When a sign-up goes on with the
/// hash it made of the password, then signing in to an active account that stores that
/// hash, with the same password, opens a session for that account.
pub proof fn law_registered_password_signs_in(
    schema: TinyCmsConfig,
    req: crate::auth::credentials::RegisterRequest,
    reg_next: RegisterStage,
    reg_action: crate::auth::credentials::RegisterAction,
    password: String,
    account: CredentialsAccount,
    next: LoginStage,
    action: LoginAction,
)
    requires
        register_transition(schema, RegisterStage::Start, RegisterEvent::Received(req), reg_next, reg_action),
        reg_next matches RegisterStage::AwaitingSettings { password_hash, .. } && account.password_hash matches Some(h)
            && h@ == password_hash@,
        password@ == req.password@,
        account.status == UserStatus::Active,
        login_transition(
            schema,
            LoginStage::AwaitingAccount { password },
            LoginEvent::AccountLooked(Lookup::Found(account)),
            next,
            action,
        ),
    ensures
        next is AwaitingSession,
        action == (LoginAction::CreateSession { user_id: account.user_id }),
{
}

/// Law: a sign-in only opens a session for an active account whose stored hash matches
/// the password; sign-in is refused alike for an unknown email, a wrong password, a
/// suspended account or an account without a password.
pub proof fn law_login_session_needs_matching_password(
    schema: TinyCmsConfig,
    password: String,
    found: Lookup<CredentialsAccount>,
    next: LoginStage,
    action: LoginAction,
)
    requires
        login_transition(schema, LoginStage::AwaitingAccount { password }, LoginEvent::AccountLooked(found), next, action),
    ensures
        action is CreateSession ==> (found matches Lookup::Found(acc) && (acc.status == UserStatus::Active && (
        acc.password_hash matches Some(h) && password_matches(password@, h@)))),
        found is NotFound ==> action == LoginAction::Fail(crate::error::Error::Unauthorized),
        (found matches Lookup::Found(acc) && (acc.status == UserStatus::Suspended || acc.password_hash is None || (
        acc.password_hash matches Some(h) && !password_matches(password@, h@)))) ==> action == LoginAction::Fail(
            crate::error::Error::Unauthorized,
        ),
{
}

} // verus!
