//! Error types for access control.

use vstd::prelude::*;
use vstd::string::StringExecFns;

verus! {

/// Error returned when access is denied.
#[derive(Debug, Clone)]
pub struct AccessDenied {
    /// The user who was denied.
    pub user: String,
    /// The permission that was denied.
    pub permission: String,
}

impl AccessDenied {
    /// Create a new access denied error.
    pub fn new(user: &str, permission: &str) -> (r: Self)
        ensures
            r.user@ == user@,
            r.permission@ == permission@,
    {
        AccessDenied { user: user.to_owned(), permission: permission.to_owned() }
    }

    /// A human-readable message for this error.
    pub fn message(&self) -> (r: String)
        ensures
            r@ == "Access denied: user '"@ + self.user@ + "' cannot access "@ + self.permission@,
    {
        let mut s = "Access denied: user '".to_owned();
        s.append(self.user.as_str());
        s.append("' cannot access ");
        s.append(self.permission.as_str());
        proof {
            assert(s@ =~= "Access denied: user '"@ + self.user@ + "' cannot access "@
                + self.permission@);
        }
        s
    }
}

/// General authentication/authorization error.
#[derive(Debug, Clone)]
pub enum AuthError {
    /// Access was denied.
    AccessDenied(AccessDenied),
    /// Role not found.
    RoleNotFound(String),
    /// User not found.
    UserNotFound(String),
    /// Audit error.
    AuditError(String),
    /// I/O error (for file-based audit), carried as its message.
    IoError(String),
}

impl AuthError {
    /// A human-readable message for this error.
    pub fn message(&self) -> (r: String)
        ensures
            self matches AuthError::AccessDenied(e) ==> r@ == "Access denied: user '"@ + e.user@
                + "' cannot access "@ + e.permission@,
            self matches AuthError::RoleNotFound(name) ==> r@ == "Role not found: "@ + name@,
            self matches AuthError::UserNotFound(name) ==> r@ == "User not found: "@ + name@,
            self matches AuthError::AuditError(msg) ==> r@ == "Audit error: "@ + msg@,
            self matches AuthError::IoError(msg) ==> r@ == "IO error: "@ + msg@,
    {
        match self {
            AuthError::AccessDenied(e) => e.message(),
            AuthError::RoleNotFound(name) => {
                let mut s = "Role not found: ".to_owned();
                s.append(name.as_str());
                s
            },
            AuthError::UserNotFound(name) => {
                let mut s = "User not found: ".to_owned();
                s.append(name.as_str());
                s
            },
            AuthError::AuditError(msg) => {
                let mut s = "Audit error: ".to_owned();
                s.append(msg.as_str());
                s
            },
            AuthError::IoError(msg) => {
                let mut s = "IO error: ".to_owned();
                s.append(msg.as_str());
                s
            },
        }
    }
}

} // verus!
