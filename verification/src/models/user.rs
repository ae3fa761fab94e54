//! Users: their approval status and their role.

use vstd::prelude::*;

verus! {

/// Whether a user may sign in.
#[derive(Clone, Copy, Debug, PartialEq, Eq, Structural)]
pub enum UserStatus {
    Pending,
    Active,
    Suspended,
}

/// What a user may do.
#[derive(Clone, Copy, Debug, PartialEq, Eq, Structural)]
pub enum UserRole {
    Admin,
    Editor,
    Viewer,
}

impl UserStatus {
    /// The status as it is stored and sent: `pending`, `active` or `suspended`.
    pub open spec fn spec_name(self) -> Seq<char> {
        match self {
            UserStatus::Pending => "pending"@,
            UserStatus::Active => "active"@,
            UserStatus::Suspended => "suspended"@,
        }
    }

    /// The status as it is stored and sent.
    pub fn name(&self) -> (r: &'static str)
        ensures
            r@ == self.spec_name(),
    {
        match self {
            UserStatus::Pending => "pending",
            UserStatus::Active => "active",
            UserStatus::Suspended => "suspended",
        }
    }

    /// The status a stored name stands for.
    pub fn from_name(s: &str) -> (r: Option<UserStatus>)
        ensures
            r matches Some(st) ==> st.spec_name() == s@,
            r is None ==> s@ != "pending"@ && s@ != "active"@ && s@ != "suspended"@,
    {
        if crate::text::str_eq(s, "pending") {
            Some(UserStatus::Pending)
        } else if crate::text::str_eq(s, "active") {
            Some(UserStatus::Active)
        } else if crate::text::str_eq(s, "suspended") {
            Some(UserStatus::Suspended)
        } else {
            None
        }
    }
}

impl UserRole {
    /// The role as it is stored and sent: `admin`, `editor` or `viewer`.
    pub open spec fn spec_name(self) -> Seq<char> {
        match self {
            UserRole::Admin => "admin"@,
            UserRole::Editor => "editor"@,
            UserRole::Viewer => "viewer"@,
        }
    }

    /// The role as it is stored and sent.
    pub fn name(&self) -> (r: &'static str)
        ensures
            r@ == self.spec_name(),
    {
        match self {
            UserRole::Admin => "admin",
            UserRole::Editor => "editor",
            UserRole::Viewer => "viewer",
        }
    }

    /// The role a stored name stands for.
    pub fn from_name(s: &str) -> (r: Option<UserRole>)
        ensures
            r matches Some(ro) ==> ro.spec_name() == s@,
            r is None ==> s@ != "admin"@ && s@ != "editor"@ && s@ != "viewer"@,
    {
        if crate::text::str_eq(s, "admin") {
            Some(UserRole::Admin)
        } else if crate::text::str_eq(s, "editor") {
            Some(UserRole::Editor)
        } else if crate::text::str_eq(s, "viewer") {
            Some(UserRole::Viewer)
        } else {
            None
        }
    }
}

/// An edit of a user by an administrator; absent fields stay as they are.
pub struct UpdateUser {
    pub name: Option<String>,
    pub status: Option<UserStatus>,
    pub role: Option<UserRole>,
}

} // verus!
