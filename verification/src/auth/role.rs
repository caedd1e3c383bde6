//! Role type with allow/deny permissions.

use vstd::prelude::*;

use crate::auth::permission::{spec_covers, Permission, PermissionV};

verus! {

/// A role with a set of allowed and denied permissions.
///
/// Deny rules take precedence over allow rules.
pub struct Role {
    /// Role name (e.g., "admin", "user", "analyst").
    pub name: String,
    /// Permissions explicitly allowed for this role.
    allowed: Vec<Permission>,
    /// Permissions explicitly denied for this role.
    denied: Vec<Permission>,
}

/// Mathematical model of a [`Role`].
#[verifier::ext_equal]
pub struct RoleV {
    pub name: Seq<char>,
    pub allowed: Seq<PermissionV>,
    pub denied: Seq<PermissionV>,
}

impl View for Role {
    type V = RoleV;

    closed spec fn view(&self) -> RoleV {
        RoleV {
            name: self.name@,
            allowed: self.allowed.deep_view(),
            denied: self.denied.deep_view(),
        }
    }
}

impl DeepView for Role {
    type V = RoleV;

    open spec fn deep_view(&self) -> RoleV {
        self.view()
    }
}

/// Whether some permission in `rules` covers `p`.
pub open spec fn spec_any_covers(rules: Seq<PermissionV>, p: PermissionV) -> bool {
    exists|i: int| 0 <= i < rules.len() && spec_covers(#[trigger] rules[i], p)
}

/// Whether a role grants a permission: it must be covered by an allow rule
/// and by no deny rule; deny takes precedence, and an empty role denies
/// everything.
pub open spec fn spec_can_access(role: RoleV, p: PermissionV) -> bool {
    !spec_any_covers(role.denied, p) && spec_any_covers(role.allowed, p)
}

/// Whether some permission of `rules` covers `p`.
fn any_covers(rules: &Vec<Permission>, p: &Permission) -> (r: bool)
    ensures
        r == spec_any_covers(rules.deep_view(), p@),
{
    let mut i: usize = 0;
    while i < rules.len()
        invariant
            i <= rules.len(),
            forall|j: int| 0 <= j < i ==> !spec_covers(#[trigger] rules.deep_view()[j], p@),
        decreases rules.len() - i,
    {
        if rules[i].covers(p) {
            proof {
                assert(spec_covers(rules.deep_view()[i as int], p@));
            }
            return true;
        }
        i = i + 1;
    }
    false
}

impl Role {
    /// Create a new role with the given name; it allows nothing and denies
    /// nothing, so it denies every access.
    pub fn new(name: &str) -> (r: Self)
        ensures
            r@.name == name@,
            r@.allowed == Seq::<PermissionV>::empty(),
            r@.denied == Seq::<PermissionV>::empty(),
    {
        let r = Role { name: name.to_owned(), allowed: Vec::new(), denied: Vec::new() };
        proof {
            assert(r@.allowed =~= Seq::<PermissionV>::empty());
            assert(r@.denied =~= Seq::<PermissionV>::empty());
        }
        r
    }

    /// Allow a permission for this role.
    pub fn allow(self, permission: Permission) -> (r: Self)
        ensures
            r@.name == self@.name,
            r@.allowed == self@.allowed.push(permission@),
            r@.denied == self@.denied,
    {
        let mut allowed = self.allowed;
        allowed.push(permission);
        let r = Role { name: self.name, allowed, denied: self.denied };
        proof {
            assert(r@.allowed =~= self@.allowed.push(permission@));
        }
        r
    }

    /// Deny a permission for this role.
    ///
    /// Deny rules take precedence over allow rules.
    pub fn deny(self, permission: Permission) -> (r: Self)
        ensures
            r@.name == self@.name,
            r@.allowed == self@.allowed,
            r@.denied == self@.denied.push(permission@),
    {
        let mut denied = self.denied;
        denied.push(permission);
        let r = Role { name: self.name, allowed: self.allowed, denied };
        proof {
            assert(r@.denied =~= self@.denied.push(permission@));
        }
        r
    }

    /// The role's name.
    pub fn name_str(&self) -> (r: &str)
        ensures
            r@ == self@.name,
    {
        self.name.as_str()
    }

    /// Check if this role can access the given permission.
    ///
    /// Returns `true` if the permission is allowed and not denied.
    /// Deny rules take precedence over allow rules.
    pub fn can_access(&self, permission: &Permission) -> (r: bool)
        ensures
            r == spec_can_access(self@, permission@),
    {
        // Check if explicitly denied (or covered by a deny rule).
        if any_covers(&self.denied, permission) {
            return false;
        }
        // Check if explicitly allowed (or covered by an allow rule);
        // default: deny.
        any_covers(&self.allowed, permission)
    }

    /// Get all allowed permissions, in the order they were allowed.
    pub fn allowed_permissions(&self) -> (r: &Vec<Permission>)
        ensures
            r.deep_view() == self@.allowed,
    {
        &self.allowed
    }

    /// Get all denied permissions, in the order they were denied.
    pub fn denied_permissions(&self) -> (r: &Vec<Permission>)
        ensures
            r.deep_view() == self@.denied,
    {
        &self.denied
    }
}

} // verus!
