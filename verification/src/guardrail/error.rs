//! Error taxonomy of the pipeline.
//!
//! The executor itself only ever raises `ValidationFailed`, for a `Critical`
//! failure from a fail-fast guardrail; the other variants are reserved for
//! callers and for guardrail constructors.

use vstd::prelude::*;
use vstd::string::StringExecFns;

use crate::guardrail::traits::Severity;

verus! {

/// A fatal guardrail error.
#[derive(Debug)]
pub enum GuardrailError {
    /// A fail-fast guardrail failed at `Critical` severity; carries the
    /// offending guardrail's name, reason and severity.
    ValidationFailed { name: String, reason: String, severity: Severity },
    /// Several recorded failures bundled into one error, for callers who
    /// convert a non-passed result into a hard failure.  The executor never
    /// constructs this form.
    MultipleFailures(Vec<GuardrailError>),
    /// A schema validation error.
    Schema(String),
    /// A regular-expression error, carried as its message.
    Regex(String),
    /// An internal error.
    Internal(String),
}

impl GuardrailError {
    /// A human-readable message for this error.
    pub fn message(&self) -> (r: String)
        ensures
            self matches GuardrailError::ValidationFailed { name, reason, .. } ==> r@
                == "Guardrail '"@ + name@ + "' failed: "@ + reason@,
            self matches GuardrailError::MultipleFailures(_) ==> r@
                == "Multiple guardrails failed"@,
            self matches GuardrailError::Schema(msg) ==> r@ == "Schema validation error: "@
                + msg@,
            self matches GuardrailError::Regex(msg) ==> r@ == "Regex error: "@ + msg@,
            self matches GuardrailError::Internal(msg) ==> r@ == "Internal error: "@ + msg@,
    {
        match self {
            GuardrailError::ValidationFailed { name, reason, .. } => {
                let mut s = "Guardrail '".to_owned();
                s.append(name.as_str());
                s.append("' failed: ");
                s.append(reason.as_str());
                proof {
                    assert(s@ =~= "Guardrail '"@ + name@ + "' failed: "@ + reason@);
                }
                s
            },
            GuardrailError::MultipleFailures(_) => "Multiple guardrails failed".to_owned(),
            GuardrailError::Schema(msg) => {
                let mut s = "Schema validation error: ".to_owned();
                s.append(msg.as_str());
                s
            },
            GuardrailError::Regex(msg) => {
                let mut s = "Regex error: ".to_owned();
                s.append(msg.as_str());
                s
            },
            GuardrailError::Internal(msg) => {
                let mut s = "Internal error: ".to_owned();
                s.append(msg.as_str());
                s
            },
        }
    }
}

} // verus!
