//! Finding the user a request acts as.
//!
//! A request is signed in by its `session` cookie or, failing that, by an
//! `Authorization: Bearer <token>` header. Only active users are let in. The lookups in
//! the user store are done by the caller: [`auth_step`] says, at each point, which lookup
//! comes next or how the request is answered, from what the previous lookup returned.

use vstd::prelude::*;
use crate::auth::cookie::{cookie_value, extract_cookie};
use crate::auth::token::{hash_token, hex_encode, sha256};
use crate::auth::user::{AuthRejection, AuthUser};
use crate::models::user::UserStatus;
use crate::text::{chars_of, occurs_at_exec, starts_with, string_of, tail_of, trim, trim_chars};

verus! {

/// What a lookup in the user store returned.
pub enum Lookup<T> {
    /// The query failed.
    Failed,
    /// Nothing matched.
    NotFound,
    /// The row found.
    Found(T),
}

/// A user found by an API token, with the token's id.
pub struct TokenOwner {
    pub token_id: u128,
    pub user: AuthUser,
}

/// How far the sign-in check has come.
pub enum AuthStage {
    /// Nothing looked at yet.
    Start,
    /// The session cookie is being looked up; the `Authorization` header is kept for later.
    AwaitingSession { authorization: Option<String> },
    /// The bearer token is being looked up.
    AwaitingToken,
    /// The request has been answered.
    Done,
}

/// What the caller reports to [`auth_step`].
pub enum AuthEvent {
    /// A request came in, with the text of its `Cookie` and `Authorization` headers (each
    /// absent when missing or not visible ASCII).
    Request { cookie: Option<String>, authorization: Option<String> },
    /// The session cookie's user, among sessions that have not expired.
    SessionLooked(Lookup<AuthUser>),
    /// The API token's user, among tokens that have not expired.
    TokenLooked(Lookup<TokenOwner>),
}

/// What the caller does next.
pub enum AuthAction {
    /// Look up the user of the unexpired session with this token.
    LookupSession { token: String },
    /// Look up the user of the unexpired API token with this hash.
    LookupToken { token_hash: String },
    /// Let the request in as `user`; when `touch_token` is set, first record that API token
    /// as used now (whether that succeeds does not matter).
    Accept { user: AuthUser, touch_token: Option<u128> },
    /// Refuse the request.
    Reject(AuthRejection),
}

/// The bearer token of an `Authorization` header: what follows `Bearer `, trimmed.
pub open spec fn bearer_token(authorization: Option<Seq<char>>) -> Option<Seq<char>> {
    match authorization {
        Some(a) => if starts_with(a, "Bearer "@) {
            Some(trim(a.skip(7)))
        } else {
            None
        },
        None => None,
    }
}

/// An optional string with its text as characters.
pub open spec fn opt_view(s: Option<String>) -> Option<Seq<char>> {
    match s {
        Some(x) => Some(x@),
        None => None,
    }
}

/// Whether `event` is what the caller can report at `stage`.
pub open spec fn auth_expects(stage: AuthStage, event: AuthEvent) -> bool {
    match (stage, event) {
        (AuthStage::Start, AuthEvent::Request { .. }) => true,
        (AuthStage::AwaitingSession { .. }, AuthEvent::SessionLooked(_)) => true,
        (AuthStage::AwaitingToken, AuthEvent::TokenLooked(_)) => true,
        _ => false,
    }
}

/// How many steps a stage is from the end at most.
pub open spec fn auth_rank(stage: AuthStage) -> nat {
    match stage {
        AuthStage::Start => 3,
        AuthStage::AwaitingSession { .. } => 2,
        AuthStage::AwaitingToken => 1,
        AuthStage::Done => 0,
    }
}

/// Whether the step falls back to the `Authorization` header: a token lookup for a
/// bearer token, or a refusal as unauthorized without one.
pub open spec fn falls_back(authorization: Option<Seq<char>>, next: AuthStage, action: AuthAction) -> bool {
    match bearer_token(authorization) {
        Some(t) => next is AwaitingToken && (action matches AuthAction::LookupToken { token_hash }
            && token_hash@ == hex_encode(sha256(t))),
        None => next is Done && action == AuthAction::Reject(AuthRejection::Unauthorized),
    }
}

/// One step of the sign-in check.
pub open spec fn auth_transition(stage: AuthStage, event: AuthEvent, next: AuthStage, action: AuthAction) -> bool {
    match (stage, event) {
        (AuthStage::Start, AuthEvent::Request { cookie, authorization }) => match cookie_value(
            opt_view(cookie),
            "session"@,
        ) {
            Some(token) => (next matches AuthStage::AwaitingSession { authorization: kept } && opt_view(kept)
                == opt_view(authorization)) && (action matches AuthAction::LookupSession { token: t } && t@
                == token),
            None => falls_back(opt_view(authorization), next, action),
        },
        (AuthStage::AwaitingSession { authorization }, AuthEvent::SessionLooked(found)) => match found {
            Lookup::Failed => next is Done && action == AuthAction::Reject(AuthRejection::Internal),
            Lookup::Found(user) => if user.status == UserStatus::Active {
                next is Done && action == (AuthAction::Accept { user, touch_token: None })
            } else {
                falls_back(opt_view(authorization), next, action)
            },
            Lookup::NotFound => falls_back(opt_view(authorization), next, action),
        },
        (AuthStage::AwaitingToken, AuthEvent::TokenLooked(found)) => next is Done && match found {
            Lookup::Failed => action == AuthAction::Reject(AuthRejection::Internal),
            Lookup::Found(owner) => if owner.user.status == UserStatus::Active {
                action == (AuthAction::Accept { user: owner.user, touch_token: Some(owner.token_id) })
            } else {
                action == AuthAction::Reject(AuthRejection::Unauthorized)
            },
            Lookup::NotFound => action == AuthAction::Reject(AuthRejection::Unauthorized),
        },
        _ => false,
    }
}

/// Whether `event` is what the caller can report at `stage`, computed.
pub fn auth_expects_event(stage: &AuthStage, event: &AuthEvent) -> (r: bool)
    ensures
        r == auth_expects(*stage, *event),
{
    match (stage, event) {
        (AuthStage::Start, AuthEvent::Request { .. }) => true,
        (AuthStage::AwaitingSession { .. }, AuthEvent::SessionLooked(_)) => true,
        (AuthStage::AwaitingToken, AuthEvent::TokenLooked(_)) => true,
        _ => false,
    }
}

/// The fall-back to the `Authorization` header.
fn bearer_step(authorization: Option<String>) -> (r: (AuthStage, AuthAction))
    ensures
        falls_back(opt_view(authorization), r.0, r.1),
{
    match authorization {
        Some(a) => {
            let cs = chars_of(a.as_str());
            let prefix = chars_of("Bearer ");
            proof {
                reveal_strlit("Bearer ");
            }
            if occurs_at_exec(cs.as_slice(), prefix.as_slice(), 0) {
                let rest = tail_of(cs.as_slice(), 7);
                let token = trim_chars(rest.as_slice());
                let text = string_of(token.as_slice());
                let token_hash = hash_token(text.as_str());
                (AuthStage::AwaitingToken, AuthAction::LookupToken { token_hash })
            } else {
                (AuthStage::Done, AuthAction::Reject(AuthRejection::Unauthorized))
            }
        },
        None => (AuthStage::Done, AuthAction::Reject(AuthRejection::Unauthorized)),
    }
}

/// One step of the sign-in check: from where it stands and what the caller reports, where
/// it goes and what the caller does next. Each step brings it closer to the end.
pub fn auth_step(stage: AuthStage, event: AuthEvent) -> (r: (AuthStage, AuthAction))
    requires
        auth_expects(stage, event),
    ensures
        auth_transition(stage, event, r.0, r.1),
        auth_rank(r.0) < auth_rank(stage),
{
    match (stage, event) {
        (AuthStage::Start, AuthEvent::Request { cookie, authorization }) => {
            let token = match &cookie {
                Some(c) => extract_cookie(Some(c.as_str()), "session"),
                None => extract_cookie(None, "session"),
            };
            match token {
                Some(token) => (AuthStage::AwaitingSession { authorization }, AuthAction::LookupSession { token }),
                None => bearer_step(authorization),
            }
        },
        (AuthStage::AwaitingSession { authorization }, AuthEvent::SessionLooked(found)) => match found {
            Lookup::Failed => (AuthStage::Done, AuthAction::Reject(AuthRejection::Internal)),
            Lookup::Found(user) => match user.status {
                UserStatus::Active => (AuthStage::Done, AuthAction::Accept { user, touch_token: None }),
                _ => bearer_step(authorization),
            },
            Lookup::NotFound => bearer_step(authorization),
        },
        (AuthStage::AwaitingToken, AuthEvent::TokenLooked(found)) => match found {
            Lookup::Failed => (AuthStage::Done, AuthAction::Reject(AuthRejection::Internal)),
            Lookup::Found(owner) => match owner.user.status {
                UserStatus::Active => {
                    let token_id = owner.token_id;
                    (AuthStage::Done, AuthAction::Accept { user: owner.user, touch_token: Some(token_id) })
                },
                _ => (AuthStage::Done, AuthAction::Reject(AuthRejection::Unauthorized)),
            },
            Lookup::NotFound => (AuthStage::Done, AuthAction::Reject(AuthRejection::Unauthorized)),
        },
        (AuthStage::Done, _) => (AuthStage::Done, AuthAction::Reject(AuthRejection::Unauthorized)),
        _ => (AuthStage::Done, AuthAction::Reject(AuthRejection::Unauthorized)),
    }
}

} // verus!
