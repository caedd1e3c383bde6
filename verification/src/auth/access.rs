//! Access control over a set of roles.

use vstd::prelude::*;

use crate::auth::role::{Role, RoleV};

verus! {

/// A set of named roles, built once and queried for access decisions.
pub struct AccessControl {
    roles: Vec<Role>,
}

impl View for AccessControl {
    type V = Seq<RoleV>;

    closed spec fn view(&self) -> Seq<RoleV> {
        self.roles.deep_view()
    }
}

impl AccessControl {
    /// Start building an access control.
    pub fn builder() -> (r: AccessControlBuilder)
        ensures
            r@ == Seq::<RoleV>::empty(),
    {
        AccessControlBuilder { roles: Vec::new() }
    }

    /// The registered roles, in registration order.
    pub fn roles(&self) -> (r: &Vec<Role>)
        ensures
            r.deep_view() == self@,
    {
        &self.roles
    }

    /// The names of the registered roles, in registration order.
    pub fn role_names(&self) -> (r: Vec<String>)
        ensures
            r.deep_view() == self@.map_values(|role: RoleV| role.name),
    {
        let mut names: Vec<String> = Vec::new();
        let mut i: usize = 0;
        while i < self.roles.len()
            invariant
                i <= self.roles.len(),
                names@.len() == i,
                forall|j: int| 0 <= j < i ==> names@[j]@ == self@.map_values(
                    |role: RoleV| role.name,
                )[j],
            decreases self.roles.len() - i,
        {
            names.push(self.roles[i].name_str().to_owned());
            i = i + 1;
        }
        proof {
            assert(names.deep_view() =~= self@.map_values(|role: RoleV| role.name));
        }
        names
    }
}

/// Builder for [`AccessControl`].
pub struct AccessControlBuilder {
    roles: Vec<Role>,
}

impl View for AccessControlBuilder {
    type V = Seq<RoleV>;

    closed spec fn view(&self) -> Seq<RoleV> {
        self.roles.deep_view()
    }
}

impl AccessControlBuilder {
    /// Register one more role.
    pub fn role(self, role: Role) -> (r: Self)
        ensures
            r@ == self@.push(role@),
    {
        let mut roles = self.roles;
        roles.push(role);
        let r = AccessControlBuilder { roles };
        proof {
            assert(r@ =~= self@.push(role@));
        }
        r
    }

    /// Finish building; always succeeds.
    pub fn build(self) -> (r: Result<AccessControl, crate::auth::error::AuthError>)
        ensures
            r is Ok,
            r->Ok_0@ == self@,
    {
        Ok(AccessControl { roles: self.roles })
    }
}

} // verus!
