//! Guardrail validation/transformation pipeline.
//!
//! A guardrail is a pluggable checker or mutator applied to conversational
//! content.  A [`executor::GuardrailSet`] collects guardrails in registration
//! order; [`executor::GuardrailExecutor::run`] partitions them into a
//! concurrent-eligible group and a sequential group, folds their verdicts
//! deterministically by registration order, and returns either an aggregated
//! [`executor::ExecutionResult`] or a single abort error.

pub mod content;
pub mod error;
pub mod executor;
pub mod model;
pub mod pii;
pub mod regex_ops;
pub mod text;
pub mod traits;
