//! Permission types for access control.

use vstd::prelude::*;
use vstd::string::StringExecFns;

use crate::strings::str_eq;

verus! {

/// Permission for accessing tools or agents.
#[derive(Debug, Clone, PartialEq, Eq, Hash)]
pub enum Permission {
    /// Access to a specific tool by name.
    Tool(String),
    /// Access to all tools (wildcard).
    AllTools,
    /// Access to a specific agent by name.
    Agent(String),
    /// Access to all agents (wildcard).
    AllAgents,
}

/// Mathematical model of a [`Permission`].
#[verifier::ext_equal]
pub enum PermissionV {
    Tool(Seq<char>),
    AllTools,
    Agent(Seq<char>),
    AllAgents,
}

impl View for Permission {
    type V = PermissionV;

    open spec fn view(&self) -> PermissionV {
        match self {
            Permission::Tool(name) => PermissionV::Tool(name@),
            Permission::AllTools => PermissionV::AllTools,
            Permission::Agent(name) => PermissionV::Agent(name@),
            Permission::AllAgents => PermissionV::AllAgents,
        }
    }
}

impl DeepView for Permission {
    type V = PermissionV;

    open spec fn deep_view(&self) -> PermissionV {
        self.view()
    }
}

/// Whether a permission matches a resource of the given type and name.
pub open spec fn spec_matches(p: PermissionV, resource_type: Seq<char>, resource_name: Seq<char>)
    -> bool {
    match p {
        PermissionV::Tool(name) => resource_type == "tool"@ && name == resource_name,
        PermissionV::AllTools => resource_type == "tool"@,
        PermissionV::Agent(name) => resource_type == "agent"@ && name == resource_name,
        PermissionV::AllAgents => resource_type == "agent"@,
    }
}

/// Whether permission `a` covers permission `b`: the wildcards cover every
/// permission of their kind, and any permission covers itself.
pub open spec fn spec_covers(a: PermissionV, b: PermissionV) -> bool {
    match (a, b) {
        (PermissionV::AllTools, PermissionV::Tool(_)) => true,
        (PermissionV::AllTools, PermissionV::AllTools) => true,
        (PermissionV::AllAgents, PermissionV::Agent(_)) => true,
        (PermissionV::AllAgents, PermissionV::AllAgents) => true,
        (x, y) => x == y,
    }
}

impl Permission {
    /// Create a tool permission.
    pub fn tool(name: &str) -> (r: Self)
        ensures
            r@ == PermissionV::Tool(name@),
    {
        Permission::Tool(name.to_owned())
    }

    /// Create an agent permission.
    pub fn agent(name: &str) -> (r: Self)
        ensures
            r@ == PermissionV::Agent(name@),
    {
        Permission::Agent(name.to_owned())
    }

    /// Check if this permission matches a specific resource.
    pub fn matches(&self, resource_type: &str, resource_name: &str) -> (r: bool)
        ensures
            r == spec_matches(self@, resource_type@, resource_name@),
    {
        match self {
            Permission::Tool(name) => {
                str_eq(resource_type, "tool") && str_eq(name.as_str(), resource_name)
            },
            Permission::AllTools => str_eq(resource_type, "tool"),
            Permission::Agent(name) => {
                str_eq(resource_type, "agent") && str_eq(name.as_str(), resource_name)
            },
            Permission::AllAgents => str_eq(resource_type, "agent"),
        }
    }

    /// Check if this permission covers another permission.
    pub fn covers(&self, other: &Permission) -> (r: bool)
        ensures
            r == spec_covers(self@, other@),
    {
        match (self, other) {
            (Permission::AllTools, Permission::Tool(_)) => true,
            (Permission::AllTools, Permission::AllTools) => true,
            (Permission::AllAgents, Permission::Agent(_)) => true,
            (Permission::AllAgents, Permission::AllAgents) => true,
            (a, b) => a.same_as(b),
        }
    }

    /// Whether two permissions are equal as values.
    pub fn same_as(&self, other: &Permission) -> (r: bool)
        ensures
            r == (self@ == other@),
    {
        match (self, other) {
            (Permission::Tool(a), Permission::Tool(b)) => str_eq(a.as_str(), b.as_str()),
            (Permission::AllTools, Permission::AllTools) => true,
            (Permission::Agent(a), Permission::Agent(b)) => str_eq(a.as_str(), b.as_str()),
            (Permission::AllAgents, Permission::AllAgents) => true,
            _ => {
                proof {
                    assert(self@ != other@);
                }
                false
            },
        }
    }

    /// The textual form of this permission: `tool:<name>`, `tool:*`,
    /// `agent:<name>` or `agent:*`.
    pub fn display(&self) -> (r: String)
        ensures
            r@ == spec_display(self@),
    {
        let mut s: String;
        match self {
            Permission::Tool(name) => {
                s = "tool:".to_owned();
                s.append(name.as_str());
            },
            Permission::AllTools => {
                s = "tool:*".to_owned();
            },
            Permission::Agent(name) => {
                s = "agent:".to_owned();
                s.append(name.as_str());
            },
            Permission::AllAgents => {
                s = "agent:*".to_owned();
            },
        }
        s
    }
}

/// The textual form of a permission.
pub open spec fn spec_display(p: PermissionV) -> Seq<char> {
    match p {
        PermissionV::Tool(name) => "tool:"@ + name,
        PermissionV::AllTools => "tool:*"@,
        PermissionV::Agent(name) => "agent:"@ + name,
        PermissionV::AllAgents => "agent:*"@,
    }
}

} // verus!
