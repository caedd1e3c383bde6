//! Tests of permissions, roles and audit events.

use adk::auth::audit::{AuditEvent, AuditEventType, AuditOutcome};
use adk::auth::error::{AccessDenied, AuthError};
use adk::auth::permission::Permission;
use adk::auth::role::Role;

#[test]
fn test_permission_matches() {
    let tool_perm = Permission::Tool("search".into());
    assert!(tool_perm.matches("tool", "search"));
    assert!(!tool_perm.matches("tool", "other"));
    assert!(!tool_perm.matches("agent", "search"));

    let all_tools = Permission::AllTools;
    assert!(all_tools.matches("tool", "anything"));
    assert!(!all_tools.matches("agent", "anything"));
}

#[test]
fn test_permission_covers() {
    let all_tools = Permission::AllTools;
    let specific_tool = Permission::Tool("search".into());

    assert!(all_tools.covers(&specific_tool));
    assert!(all_tools.covers(&Permission::AllTools));
    assert!(!specific_tool.covers(&Permission::AllTools));
    assert!(specific_tool.covers(&Permission::Tool("search".into())));
}

#[test]
fn test_permission_display() {
    assert_eq!(Permission::Tool("search".into()).display(), "tool:search");
    assert_eq!(Permission::AllTools.display(), "tool:*");
    assert_eq!(Permission::Agent("assistant".into()).display(), "agent:assistant");
    assert_eq!(Permission::AllAgents.display(), "agent:*");
}

#[test]
fn test_role_allow() {
    let role = Role::new("user")
        .allow(Permission::Tool("search".into()))
        .allow(Permission::Tool("summarize".into()));

    assert!(role.can_access(&Permission::Tool("search".into())));
    assert!(role.can_access(&Permission::Tool("summarize".into())));
    assert!(!role.can_access(&Permission::Tool("other".into())));
}

#[test]
fn test_role_deny_precedence() {
    let role = Role::new("restricted")
        .allow(Permission::AllTools)
        .deny(Permission::Tool("code_exec".into()));

    // AllTools allows everything...
    assert!(role.can_access(&Permission::Tool("search".into())));
    // ...except explicitly denied
    assert!(!role.can_access(&Permission::Tool("code_exec".into())));
}

#[test]
fn test_admin_role() {
    let admin = Role::new("admin")
        .allow(Permission::AllTools)
        .allow(Permission::AllAgents);

    assert!(admin.can_access(&Permission::Tool("anything".into())));
    assert!(admin.can_access(&Permission::Agent("any_agent".into())));
    assert!(admin.can_access(&Permission::AllTools));
    assert!(admin.can_access(&Permission::AllAgents));
}

#[test]
fn test_empty_role_denies_all() {
    let empty = Role::new("empty");

    assert!(!empty.can_access(&Permission::Tool("search".into())));
    assert!(!empty.can_access(&Permission::AllTools));
}

#[test]
fn test_permission_constructors() {
    assert_eq!(Permission::tool("search"), Permission::Tool("search".into()));
    assert_eq!(Permission::agent("assistant"), Permission::Agent("assistant".into()));
}

#[test]
fn test_role_permission_lists() {
    let role = Role::new("user")
        .allow(Permission::tool("search"))
        .deny(Permission::tool("exec"));
    assert_eq!(role.allowed_permissions().len(), 1);
    assert_eq!(role.denied_permissions().len(), 1);
    assert_eq!(role.allowed_permissions()[0], Permission::tool("search"));
    assert_eq!(role.denied_permissions()[0], Permission::tool("exec"));
}

#[test]
fn test_access_denied_message() {
    let err = AccessDenied::new("alice", "tool:exec");
    assert_eq!(err.user, "alice");
    assert_eq!(err.permission, "tool:exec");
    assert_eq!(
        err.message(),
        "Access denied: user 'alice' cannot access tool:exec"
    );
}

#[test]
fn test_audit_event_with_session() {
    let event =
        AuditEvent::tool_access("bob", "exec", AuditOutcome::Denied).with_session("session-123");
    assert_eq!(event.session_id, Some("session-123".to_string()));
}

#[test]
fn test_audit_event_fields() {
    let event = AuditEvent::tool_access("alice", "search", AuditOutcome::Allowed);
    assert_eq!(event.user, "alice");
    assert_eq!(event.resource, "search");
    assert_eq!(event.outcome, AuditOutcome::Allowed);
    assert_eq!(event.event_type, AuditEventType::ToolAccess);
    assert!(event.session_id.is_none());
    assert!(event.metadata.is_none());

    let agent_event = AuditEvent::agent_access("bob", "assistant", AuditOutcome::Denied);
    assert_eq!(agent_event.event_type, AuditEventType::AgentAccess);
    assert_eq!(agent_event.resource, "assistant");
}

#[test]
fn test_audit_event_with_metadata() {
    let event = AuditEvent::tool_access("alice", "search", AuditOutcome::Allowed)
        .with_metadata(serde_json::Value::String("extra".to_string()));
    assert_eq!(
        event.metadata,
        Some(serde_json::Value::String("extra".to_string()))
    );
}

#[test]
fn test_auth_error_messages() {
    assert_eq!(
        AuthError::AccessDenied(AccessDenied::new("alice", "tool:exec")).message(),
        "Access denied: user 'alice' cannot access tool:exec"
    );
    assert_eq!(
        AuthError::RoleNotFound("ops".to_string()).message(),
        "Role not found: ops"
    );
    assert_eq!(
        AuthError::UserNotFound("bob".to_string()).message(),
        "User not found: bob"
    );
    assert_eq!(
        AuthError::AuditError("sink closed".to_string()).message(),
        "Audit error: sink closed"
    );
    assert_eq!(
        AuthError::IoError("disk full".to_string()).message(),
        "IO error: disk full"
    );
}
