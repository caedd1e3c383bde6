//! Verified agent-development toolkit: a guardrail validation/transformation
//! pipeline together with the access-control, toolset and UI-building blocks
//! that surround it.
//!
//! The heart of the crate is [`guardrail`]: an orchestrator that runs a set of
//! pluggable content checkers against a piece of conversational content,
//! aggregates their verdicts under a severity policy, and produces either a
//! pass/fail/transform outcome or an early-abort error.

pub mod auth;
pub mod browser;
pub mod clock;
pub mod json;
pub mod guardrail;
pub mod strings;
pub mod studio;
pub mod ui;
