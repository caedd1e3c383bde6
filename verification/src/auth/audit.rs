//! Audit events for access control.
//!
//! Building an event stamps it with the current clock reading; everything
//! else about the event is a plain value with an exact contract.  Writing
//! events to a sink is I/O and lives outside this crate's verified core.

use vstd::prelude::*;

use crate::clock::unix_timestamp_now;

verus! {

/// Type of audit event.
#[derive(Debug, Clone, Copy, PartialEq, Eq, Structural)]
pub enum AuditEventType {
    /// Tool access attempt.
    ToolAccess,
    /// Agent access attempt.
    AgentAccess,
    /// Permission check.
    PermissionCheck,
}

/// Outcome of an audit event.
#[derive(Debug, Clone, Copy, PartialEq, Eq, Structural)]
pub enum AuditOutcome {
    /// Access was allowed.
    Allowed,
    /// Access was denied.
    Denied,
    /// An error occurred.
    Error,
}

/// An audit event.
pub struct AuditEvent {
    /// Seconds since the Unix epoch when the event was created.
    pub timestamp: i64,
    /// User ID.
    pub user: String,
    /// Session ID (if available).
    pub session_id: Option<String>,
    /// Type of event.
    pub event_type: AuditEventType,
    /// Resource being accessed (tool name, agent name).
    pub resource: String,
    /// Outcome of the access attempt.
    pub outcome: AuditOutcome,
    /// Additional metadata.
    pub metadata: Option<serde_json::Value>,
}

impl AuditEvent {
    /// Create a new tool access event, stamped with the current time.
    pub fn tool_access(user: &str, tool_name: &str, outcome: AuditOutcome) -> (r: Self)
        ensures
            r.user@ == user@,
            r.session_id is None,
            r.event_type == AuditEventType::ToolAccess,
            r.resource@ == tool_name@,
            r.outcome == outcome,
            r.metadata is None,
    {
        AuditEvent {
            timestamp: unix_timestamp_now(),
            user: user.to_owned(),
            session_id: None,
            event_type: AuditEventType::ToolAccess,
            resource: tool_name.to_owned(),
            outcome,
            metadata: None,
        }
    }

    /// Create a new agent access event, stamped with the current time.
    pub fn agent_access(user: &str, agent_name: &str, outcome: AuditOutcome) -> (r: Self)
        ensures
            r.user@ == user@,
            r.session_id is None,
            r.event_type == AuditEventType::AgentAccess,
            r.resource@ == agent_name@,
            r.outcome == outcome,
            r.metadata is None,
    {
        AuditEvent {
            timestamp: unix_timestamp_now(),
            user: user.to_owned(),
            session_id: None,
            event_type: AuditEventType::AgentAccess,
            resource: agent_name.to_owned(),
            outcome,
            metadata: None,
        }
    }

    /// Set the session ID.
    pub fn with_session(self, session_id: &str) -> (r: Self)
        ensures
            r.timestamp == self.timestamp,
            r.user == self.user,
            r.session_id matches Some(s) && s@ == session_id@,
            r.event_type == self.event_type,
            r.resource == self.resource,
            r.outcome == self.outcome,
            r.metadata == self.metadata,
    {
        AuditEvent { session_id: Some(session_id.to_owned()), ..self }
    }

    /// Set metadata.
    pub fn with_metadata(self, metadata: serde_json::Value) -> (r: Self)
        ensures
            r.timestamp == self.timestamp,
            r.user == self.user,
            r.session_id == self.session_id,
            r.event_type == self.event_type,
            r.resource == self.resource,
            r.outcome == self.outcome,
            r.metadata == Some(metadata),
    {
        AuditEvent { metadata: Some(metadata), ..self }
    }
}

} // verus!
