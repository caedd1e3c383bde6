//! The guardrail capability contract: severity scale, validation verdicts,
//! and the interface every checker/mutator implements.

use vstd::prelude::*;

use crate::guardrail::model::{Content, ContentV};

verus! {

/// Severity of a guardrail failure, on a totally ordered four-level scale:
/// `Low < Medium < High < Critical`.
#[derive(Debug, Clone, Copy, PartialEq, Eq, Structural)]
pub enum Severity {
    Low,
    Medium,
    High,
    Critical,
}

/// Verdict of one guardrail validation.
pub enum GuardrailResult {
    /// No objection.
    Pass,
    /// Content rejected; does not itself mutate content.
    Fail { reason: String, severity: Severity },
    /// Content accepted but replaced; the executor carries `new_content`
    /// forward to subsequent stages.
    Transform { new_content: Content, reason: String },
}

/// Mathematical model of a [`GuardrailResult`].
#[verifier::ext_equal]
pub enum GuardrailResultV {
    Pass,
    Fail { reason: Seq<char>, severity: Severity },
    Transform { new_content: ContentV, reason: Seq<char> },
}

impl View for GuardrailResult {
    type V = GuardrailResultV;

    open spec fn view(&self) -> GuardrailResultV {
        match self {
            GuardrailResult::Pass => GuardrailResultV::Pass,
            GuardrailResult::Fail { reason, severity } => GuardrailResultV::Fail {
                reason: reason@,
                severity: *severity,
            },
            GuardrailResult::Transform { new_content, reason } => GuardrailResultV::Transform {
                new_content: new_content@,
                reason: reason@,
            },
        }
    }
}

impl GuardrailResult {
    /// The passing verdict.
    pub fn pass() -> (r: Self)
        ensures
            r@ == GuardrailResultV::Pass,
    {
        GuardrailResult::Pass
    }

    /// A failing verdict with the given reason and severity.
    pub fn fail(reason: &str, severity: Severity) -> (r: Self)
        ensures
            r@ == (GuardrailResultV::Fail { reason: reason@, severity }),
    {
        GuardrailResult::Fail { reason: reason.to_owned(), severity }
    }

    /// A transforming verdict replacing the content.
    pub fn transform(new_content: Content, reason: &str) -> (r: Self)
        ensures
            r@ == (GuardrailResultV::Transform {
                new_content: new_content@,
                reason: reason@,
            }),
    {
        GuardrailResult::Transform { new_content, reason: reason.to_owned() }
    }

    /// Whether this verdict is `Pass`.
    pub fn is_pass(&self) -> (r: bool)
        ensures
            r == (self@ is Pass),
    {
        matches!(self, GuardrailResult::Pass)
    }

    /// Whether this verdict is `Fail`.
    pub fn is_fail(&self) -> (r: bool)
        ensures
            r == (self@ is Fail),
    {
        matches!(self, GuardrailResult::Fail { .. })
    }
}

impl Clone for GuardrailResult {
    fn clone(&self) -> (r: Self)
        ensures
            r@ == self@,
    {
        match self {
            GuardrailResult::Pass => GuardrailResult::Pass,
            GuardrailResult::Fail { reason, severity } => GuardrailResult::Fail {
                reason: reason.clone(),
                severity: *severity,
            },
            GuardrailResult::Transform { new_content, reason } => GuardrailResult::Transform {
                new_content: new_content.clone(),
                reason: reason.clone(),
            },
        }
    }
}

/// The capability every guardrail implements: identity, validation, and two
/// policy flags.
///
/// Each implementor also supplies a mathematical model of itself through the
/// `spec_*` functions, and proves that the executable methods agree with that
/// model; the executor's contract is stated entirely over these models.
///
/// Contract rules an implementor must honor: `validate` is side-effect-free
/// (its only visible effect is the returned verdict); a guardrail that needs
/// to see the output of another guardrail's transformation must report
/// `run_parallel() == false`; `fail_fast()` governs only behavior at
/// `Critical` severity.
pub trait Guardrail: Sized {
    /// Model of this guardrail's name, unique within a registry.
    spec fn spec_name(&self) -> Seq<char>;

    /// Model of the verdict this guardrail returns on given content.
    spec fn spec_validate(&self, content: ContentV) -> GuardrailResultV;

    /// Model of the concurrency-eligibility flag.
    spec fn spec_run_parallel(&self) -> bool;

    /// Model of the fail-fast flag.
    spec fn spec_fail_fast(&self) -> bool;

    /// Unique name for this guardrail, used for reporting.
    fn name(&self) -> (r: &str)
        ensures
            r@ == self.spec_name(),
    ;

    /// Validate content and return a verdict.
    fn validate(&self, content: &Content) -> (r: GuardrailResult)
        ensures
            r@ == self.spec_validate(content@),
    ;

    /// Whether this guardrail may run concurrently with its siblings.
    fn run_parallel(&self) -> (r: bool)
        ensures
            r == self.spec_run_parallel(),
    ;

    /// Whether a `Critical` failure from this guardrail aborts the whole run.
    fn fail_fast(&self) -> (r: bool)
        ensures
            r == self.spec_fail_fast(),
    ;
}

/// A guardrail with a fixed verdict, independent of the content.
///
/// Useful as a stub in tests and as a building block for always-pass or
/// always-fail policies.
pub struct FixedGuardrail {
    name: String,
    result: GuardrailResult,
    parallel: bool,
    fail_fast: bool,
}

impl FixedGuardrail {
    /// A fixed guardrail with the default policy flags (concurrent-eligible,
    /// fail-fast).
    pub fn new(name: &str, result: GuardrailResult) -> (r: Self)
        ensures
            r.spec_name() == name@,
            forall|c: ContentV| r.spec_validate(c) == result@,
            r.spec_run_parallel() == true,
            r.spec_fail_fast() == true,
    {
        FixedGuardrail { name: name.to_owned(), result, parallel: true, fail_fast: true }
    }

    /// The same guardrail with the concurrency-eligibility flag replaced.
    pub fn with_run_parallel(self, parallel: bool) -> (r: Self)
        ensures
            r.spec_name() == self.spec_name(),
            forall|c: ContentV| r.spec_validate(c) == self.spec_validate(c),
            r.spec_run_parallel() == parallel,
            r.spec_fail_fast() == self.spec_fail_fast(),
    {
        FixedGuardrail { parallel, ..self }
    }

    /// The same guardrail with the fail-fast flag replaced.
    pub fn with_fail_fast(self, fail_fast: bool) -> (r: Self)
        ensures
            r.spec_name() == self.spec_name(),
            forall|c: ContentV| r.spec_validate(c) == self.spec_validate(c),
            r.spec_run_parallel() == self.spec_run_parallel(),
            r.spec_fail_fast() == fail_fast,
    {
        FixedGuardrail { fail_fast, ..self }
    }
}

impl Guardrail for FixedGuardrail {
    closed spec fn spec_name(&self) -> Seq<char> {
        self.name@
    }

    closed spec fn spec_validate(&self, content: ContentV) -> GuardrailResultV {
        self.result@
    }

    closed spec fn spec_run_parallel(&self) -> bool {
        self.parallel
    }

    closed spec fn spec_fail_fast(&self) -> bool {
        self.fail_fast
    }

    fn name(&self) -> (r: &str) {
        self.name.as_str()
    }

    fn validate(&self, content: &Content) -> (r: GuardrailResult) {
        self.result.clone()
    }

    fn run_parallel(&self) -> (r: bool) {
        self.parallel
    }

    fn fail_fast(&self) -> (r: bool) {
        self.fail_fast
    }
}

} // verus!
