//! The user a request acts as, and the status and role a new user gets.

use vstd::prelude::*;
use crate::models::user::{UserRole, UserStatus};

verus! {

/// The signed-in user a request acts as.
pub struct AuthUser {
    /// The user's id, as the 128 bits of its UUID.
    pub id: u128,
    pub email: String,
    pub name: Option<String>,
    pub role: UserRole,
    pub status: UserStatus,
}

/// A signed-in user who is an administrator.
pub struct AdminUser(pub AuthUser);

/// Why a request is refused before it reaches its handler.
#[derive(Clone, Copy, Debug, PartialEq, Eq, Structural)]
pub enum AuthRejection {
    /// No valid session or token: 401.
    Unauthorized,
    /// Signed in, but not allowed: 403.
    Forbidden,
    /// The user store could not be read: 500.
    Internal,
}

/// The user, when they are an administrator; refused as forbidden otherwise.
pub fn require_admin(user: AuthUser) -> (r: Result<AdminUser, AuthRejection>)
    ensures
        user.role == UserRole::Admin ==> (r matches Ok(a) && a.0 == user),
        user.role != UserRole::Admin ==> r == Err::<AdminUser, AuthRejection>(AuthRejection::Forbidden),
{
    match user.role {
        UserRole::Admin => Ok(AdminUser(user)),
        _ => Err(AuthRejection::Forbidden),
    }
}

/// The workspace settings a new user's status depends on: whether sign-ups need approval,
/// and the role new users get.
pub struct SignupSettings {
    pub require_approval: bool,
    pub default_role: UserRole,
}

/// The status and role of a brand-new user: the first user of the system is an active
/// administrator; later users get the default role, pending approval when the workspace
/// requires it. Without workspace settings, approval is required and the role is editor.
pub open spec fn new_user_status(settings: Option<SignupSettings>, user_count: Option<i64>) -> (UserStatus, UserRole) {
    let (require_approval, default_role) = match settings {
        Some(s) => (s.require_approval, s.default_role),
        None => (true, UserRole::Editor),
    };
    let count = match user_count {
        Some(c) => c as int,
        None => 0,
    };
    if count == 0 {
        (UserStatus::Active, UserRole::Admin)
    } else if require_approval {
        (UserStatus::Pending, default_role)
    } else {
        (UserStatus::Active, default_role)
    }
}

/// Decides the status and role of a brand-new user from the workspace settings (if any
/// are stored) and the number of users (absent when the count came back empty).
pub fn resolve_new_user_status(settings: Option<SignupSettings>, user_count: Option<i64>) -> (r: (UserStatus, UserRole))
    ensures
        r == new_user_status(settings, user_count),
{
    let (require_approval, default_role) = match settings {
        Some(s) => (s.require_approval, s.default_role),
        None => (true, UserRole::Editor),
    };
    let count: i64 = match user_count {
        Some(c) => c,
        None => 0,
    };
    if count == 0 {
        (UserStatus::Active, UserRole::Admin)
    } else if require_approval {
        (UserStatus::Pending, default_role)
    } else {
        (UserStatus::Active, default_role)
    }
}

} // verus!
