//! Workspace-wide settings.

use vstd::prelude::*;
use crate::models::user::UserRole;

verus! {

/// An edit of the workspace settings; absent fields stay as they are.
pub struct UpdateWorkspaceSettings {
    pub name: Option<String>,
    pub require_approval: Option<bool>,
    pub default_role: Option<UserRole>,
}

} // verus!
