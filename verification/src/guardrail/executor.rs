//! The orchestrator: runs a registry of guardrails against a content value
//! and folds their verdicts into a single outcome.
//!
//! The registry is split into a concurrent-eligible group and a sequential
//! group.  Concurrent-eligible guardrails all validate the same snapshot of
//! the content taken before the phase begins, so none of them observes a
//! sibling's transformation; their verdicts are then folded strictly in
//! registration order, which makes the outcome independent of completion
//! order.  Sequential guardrails run afterwards as a left-to-right fold, each
//! seeing the cumulative effect of every prior guardrail.  A `Critical`
//! failure from a fail-fast guardrail aborts the whole run and discards all
//! partial state.

use vstd::prelude::*;

use crate::guardrail::content::ContentFilter;
use crate::guardrail::error::GuardrailError;
use crate::guardrail::model::{content_eq, Content, ContentV};
use crate::guardrail::pii::PiiRedactor;
use crate::guardrail::traits::{FixedGuardrail, Guardrail, GuardrailResult, GuardrailResultV, Severity};

verus! {

/// An ordered, append-only registry of guardrails, built once and read-only
/// during execution.  Registration order is significant: it is the tie-break
/// and reporting order.
pub struct GuardrailSet<G: Guardrail> {
    guardrails: Vec<G>,
}

impl<G: Guardrail> View for GuardrailSet<G> {
    type V = Seq<G>;

    closed spec fn view(&self) -> Seq<G> {
        self.guardrails@
    }
}

impl<G: Guardrail> GuardrailSet<G> {
    /// The empty registry.
    pub fn new() -> (r: Self)
        ensures
            r@ == Seq::<G>::empty(),
    {
        GuardrailSet { guardrails: Vec::new() }
    }

    /// This registry with one more guardrail appended.
    pub fn with(self, guardrail: G) -> (r: Self)
        ensures
            r@ == self@.push(guardrail),
    {
        let mut guardrails = self.guardrails;
        guardrails.push(guardrail);
        GuardrailSet { guardrails }
    }

    /// The registered guardrails, in registration order.
    pub fn guardrails(&self) -> (r: &Vec<G>)
        ensures
            r@ == self@,
    {
        &self.guardrails
    }

    /// Whether the registry is empty.
    pub fn is_empty(&self) -> (r: bool)
        ensures
            r == (self@.len() == 0),
    {
        self.guardrails.is_empty()
    }
}

impl<G: Guardrail> Default for GuardrailSet<G> {
    /// The empty registry.
    fn default() -> (r: Self)
        ensures
            r@ == Seq::<G>::empty(),
    {
        Self::new()
    }
}

/// Any of the crate's guardrails, for registries that mix different kinds.
///
/// Users with guardrails of their own implement [`Guardrail`] for their own
/// enum of them in the same way.
pub enum AnyGuardrail {
    /// A content filter.
    Filter(ContentFilter),
    /// A PII redactor.
    Redactor(PiiRedactor),
    /// A fixed-verdict guardrail.
    Fixed(FixedGuardrail),
}

impl Guardrail for AnyGuardrail {
    open spec fn spec_name(&self) -> Seq<char> {
        match self {
            AnyGuardrail::Filter(g) => g.spec_name(),
            AnyGuardrail::Redactor(g) => g.spec_name(),
            AnyGuardrail::Fixed(g) => g.spec_name(),
        }
    }

    open spec fn spec_validate(&self, content: ContentV) -> GuardrailResultV {
        match self {
            AnyGuardrail::Filter(g) => g.spec_validate(content),
            AnyGuardrail::Redactor(g) => g.spec_validate(content),
            AnyGuardrail::Fixed(g) => g.spec_validate(content),
        }
    }

    open spec fn spec_run_parallel(&self) -> bool {
        match self {
            AnyGuardrail::Filter(g) => g.spec_run_parallel(),
            AnyGuardrail::Redactor(g) => g.spec_run_parallel(),
            AnyGuardrail::Fixed(g) => g.spec_run_parallel(),
        }
    }

    open spec fn spec_fail_fast(&self) -> bool {
        match self {
            AnyGuardrail::Filter(g) => g.spec_fail_fast(),
            AnyGuardrail::Redactor(g) => g.spec_fail_fast(),
            AnyGuardrail::Fixed(g) => g.spec_fail_fast(),
        }
    }

    fn name(&self) -> (r: &str) {
        match self {
            AnyGuardrail::Filter(g) => g.name(),
            AnyGuardrail::Redactor(g) => g.name(),
            AnyGuardrail::Fixed(g) => g.name(),
        }
    }

    fn validate(&self, content: &Content) -> (r: GuardrailResult) {
        match self {
            AnyGuardrail::Filter(g) => g.validate(content),
            AnyGuardrail::Redactor(g) => g.validate(content),
            AnyGuardrail::Fixed(g) => g.validate(content),
        }
    }

    fn run_parallel(&self) -> (r: bool) {
        match self {
            AnyGuardrail::Filter(g) => g.run_parallel(),
            AnyGuardrail::Redactor(g) => g.run_parallel(),
            AnyGuardrail::Fixed(g) => g.run_parallel(),
        }
    }

    fn fail_fast(&self) -> (r: bool) {
        match self {
            AnyGuardrail::Filter(g) => g.fail_fast(),
            AnyGuardrail::Redactor(g) => g.fail_fast(),
            AnyGuardrail::Fixed(g) => g.fail_fast(),
        }
    }
}

/// One recorded failure: guardrail name, reason, severity.
pub type FailureV = (Seq<char>, Seq<char>, Severity);

/// The view of recorded failures.
pub open spec fn failures_view(failures: Seq<(String, String, Severity)>) -> Seq<FailureV> {
    failures.map_values(|f: (String, String, Severity)| (f.0@, f.1@, f.2))
}

/// Result of running a guardrail set.
pub struct ExecutionResult {
    /// Whether the run passed: no failures, or only `Low`-severity ones.
    pub passed: bool,
    /// The final content, if it differs by value from the input; `None`
    /// otherwise.
    pub transformed_content: Option<Content>,
    /// Every recorded failure, in registration order (concurrent group
    /// first).
    pub failures: Vec<(String, String, Severity)>,
}

/// Mathematical model of an [`ExecutionResult`].
#[verifier::ext_equal]
pub struct ExecutionResultV {
    pub passed: bool,
    pub transformed_content: Option<ContentV>,
    pub failures: Seq<FailureV>,
}

impl View for ExecutionResult {
    type V = ExecutionResultV;

    open spec fn view(&self) -> ExecutionResultV {
        ExecutionResultV {
            passed: self.passed,
            transformed_content: match self.transformed_content {
                Some(ref c) => Some(c@),
                None => None,
            },
            failures: failures_view(self.failures@),
        }
    }
}

/// The cause of an aborted run: the offending guardrail's name, reason and
/// severity.
#[verifier::ext_equal]
pub struct AbortV {
    pub name: Seq<char>,
    pub reason: Seq<char>,
    pub severity: Severity,
}

/// Whether every recorded failure is of `Low` severity.
pub open spec fn spec_all_low(failures: Seq<FailureV>) -> bool {
    forall|j: int| 0 <= j < failures.len() ==> (#[trigger] failures[j]).2 == Severity::Low
}

/// The concurrent phase, from guardrail `i` on: every concurrent-eligible
/// guardrail validates the same `snapshot`; verdicts are folded in
/// registration order over the current content and recorded failures.
pub open spec fn spec_phase_concurrent<G: Guardrail>(
    gs: Seq<G>,
    snapshot: ContentV,
    i: int,
    current: ContentV,
    failures: Seq<FailureV>,
) -> Result<(ContentV, Seq<FailureV>), AbortV>
    decreases gs.len() - i,
{
    if !(0 <= i < gs.len()) {
        Ok((current, failures))
    } else if !gs[i].spec_run_parallel() {
        spec_phase_concurrent(gs, snapshot, i + 1, current, failures)
    } else {
        match gs[i].spec_validate(snapshot) {
            GuardrailResultV::Pass => spec_phase_concurrent(gs, snapshot, i + 1, current, failures),
            GuardrailResultV::Fail { reason, severity } => {
                if severity == Severity::Critical && gs[i].spec_fail_fast() {
                    Err(AbortV { name: gs[i].spec_name(), reason, severity })
                } else {
                    spec_phase_concurrent(
                        gs,
                        snapshot,
                        i + 1,
                        current,
                        failures.push((gs[i].spec_name(), reason, severity)),
                    )
                }
            },
            GuardrailResultV::Transform { new_content, .. } => spec_phase_concurrent(
                gs,
                snapshot,
                i + 1,
                new_content,
                failures,
            ),
        }
    }
}

/// The sequential phase, from guardrail `i` on: a strict left-to-right fold;
/// each sequential guardrail validates the current (possibly already
/// transformed) content.
pub open spec fn spec_phase_sequential<G: Guardrail>(
    gs: Seq<G>,
    i: int,
    current: ContentV,
    failures: Seq<FailureV>,
) -> Result<(ContentV, Seq<FailureV>), AbortV>
    decreases gs.len() - i,
{
    if !(0 <= i < gs.len()) {
        Ok((current, failures))
    } else if gs[i].spec_run_parallel() {
        spec_phase_sequential(gs, i + 1, current, failures)
    } else {
        match gs[i].spec_validate(current) {
            GuardrailResultV::Pass => spec_phase_sequential(gs, i + 1, current, failures),
            GuardrailResultV::Fail { reason, severity } => {
                if severity == Severity::Critical && gs[i].spec_fail_fast() {
                    Err(AbortV { name: gs[i].spec_name(), reason, severity })
                } else {
                    spec_phase_sequential(
                        gs,
                        i + 1,
                        current,
                        failures.push((gs[i].spec_name(), reason, severity)),
                    )
                }
            },
            GuardrailResultV::Transform { new_content, .. } => spec_phase_sequential(
                gs,
                i + 1,
                new_content,
                failures,
            ),
        }
    }
}

/// The outcome of running the registry `gs` against `content`.
///
/// An empty registry passes immediately with no transformation and no
/// failures.  Otherwise the concurrent phase runs first (against a snapshot
/// of the input), then the sequential phase; either may abort on a
/// `Critical` failure of a fail-fast guardrail, discarding all partial
/// state.  The run passes when no failure above `Low` severity was recorded,
/// and reports the final content only when it differs by value from the
/// input.
pub open spec fn spec_run<G: Guardrail>(gs: Seq<G>, content: ContentV) -> Result<
    ExecutionResultV,
    AbortV,
> {
    if gs.len() == 0 {
        Ok(
            ExecutionResultV {
                passed: true,
                transformed_content: None,
                failures: Seq::empty(),
            },
        )
    } else {
        let concurrent = spec_phase_concurrent(gs, content, 0, content, Seq::empty());
        if concurrent is Err {
            Err(concurrent->Err_0)
        } else {
            let sequential = spec_phase_sequential(
                gs,
                0,
                concurrent->Ok_0.0,
                concurrent->Ok_0.1,
            );
            if sequential is Err {
                Err(sequential->Err_0)
            } else {
                let final_content = sequential->Ok_0.0;
                let all_failures = sequential->Ok_0.1;
                Ok(
                    ExecutionResultV {
                        passed: all_failures.len() == 0 || spec_all_low(all_failures),
                        transformed_content: if final_content != content {
                            Some(final_content)
                        } else {
                            None
                        },
                        failures: all_failures,
                    },
                )
            }
        }
    }
}

/// An aborted concurrent phase decides the whole run.
proof fn lemma_run_abort_concurrent<G: Guardrail>(gs: Seq<G>, content: ContentV, abort: AbortV)
    requires
        gs.len() > 0,
        spec_phase_concurrent(gs, content, 0, content, Seq::empty()) == Err::<
            (ContentV, Seq<FailureV>),
            AbortV,
        >(abort),
    ensures
        spec_run(gs, content) == Err::<ExecutionResultV, AbortV>(abort),
{
}

/// An aborted sequential phase decides the whole run.
proof fn lemma_run_abort_sequential<G: Guardrail>(
    gs: Seq<G>,
    content: ContentV,
    current1: ContentV,
    failures1: Seq<FailureV>,
    abort: AbortV,
)
    requires
        gs.len() > 0,
        spec_phase_concurrent(gs, content, 0, content, Seq::empty()) == Ok::<
            (ContentV, Seq<FailureV>),
            AbortV,
        >((current1, failures1)),
        spec_phase_sequential(gs, 0, current1, failures1) == Err::<
            (ContentV, Seq<FailureV>),
            AbortV,
        >(abort),
    ensures
        spec_run(gs, content) == Err::<ExecutionResultV, AbortV>(abort),
{
}

/// Two completed phases assemble into the run's aggregated result.
proof fn lemma_run_complete<G: Guardrail>(
    gs: Seq<G>,
    content: ContentV,
    current1: ContentV,
    failures1: Seq<FailureV>,
    final_content: ContentV,
    all_failures: Seq<FailureV>,
)
    requires
        gs.len() > 0,
        spec_phase_concurrent(gs, content, 0, content, Seq::empty()) == Ok::<
            (ContentV, Seq<FailureV>),
            AbortV,
        >((current1, failures1)),
        spec_phase_sequential(gs, 0, current1, failures1) == Ok::<
            (ContentV, Seq<FailureV>),
            AbortV,
        >((final_content, all_failures)),
    ensures
        spec_run(gs, content) == Ok::<ExecutionResultV, AbortV>(
            ExecutionResultV {
                passed: all_failures.len() == 0 || spec_all_low(all_failures),
                transformed_content: if final_content != content {
                    Some(final_content)
                } else {
                    None
                },
                failures: all_failures,
            },
        ),
{
}

/// Executor for running a guardrail set: a pure, stateless orchestration
/// function.
pub struct GuardrailExecutor;

impl GuardrailExecutor {
    /// Run all guardrails of `guardrails` against `content` and fold their
    /// verdicts into one outcome, exactly as [`spec_run`] describes; a
    /// `Critical` failure of a fail-fast guardrail aborts the run with
    /// `GuardrailError::ValidationFailed`.
    #[verifier::rlimit(100)]
    pub fn run<G: Guardrail>(guardrails: &GuardrailSet<G>, content: &Content) -> (r: Result<
        ExecutionResult,
        GuardrailError,
    >)
        ensures
            ({
                let outcome = spec_run(guardrails@, content@);
                &&& r is Ok <==> outcome is Ok
                &&& r is Ok ==> r->Ok_0@ == outcome->Ok_0
                &&& r is Err ==> match r->Err_0 {
                    GuardrailError::ValidationFailed { name, reason, severity } => {
                        &&& name@ == outcome->Err_0.name
                        &&& reason@ == outcome->Err_0.reason
                        &&& severity == outcome->Err_0.severity
                    },
                    _ => false,
                }
            }),
    {
        let ghost gs = guardrails@;
        if guardrails.is_empty() {
            let r = ExecutionResult {
                passed: true,
                transformed_content: None,
                failures: Vec::new(),
            };
            proof {
                assert(failures_view(Seq::empty()) =~= Seq::<FailureV>::empty());
                assert(r@ =~= spec_run(gs, content@)->Ok_0);
            }
            return Ok(r);
        }

        let list = guardrails.guardrails();
        let mut current = content.clone();
        let mut failures: Vec<(String, String, Severity)> = Vec::new();

        // Concurrent phase: every concurrent-eligible guardrail validates
        // the same snapshot (the input content); verdicts are folded in
        // registration order.
        let mut i: usize = 0;
        proof {
            assert(failures_view(failures@) =~= Seq::<FailureV>::empty());
        }
        while i < list.len()
            invariant
                i <= list.len(),
                gs == list@,
                gs == guardrails@,
                gs.len() > 0,
                spec_phase_concurrent(gs, content@, 0, content@, Seq::empty())
                    == spec_phase_concurrent(
                    gs,
                    content@,
                    i as int,
                    current@,
                    failures_view(failures@),
                ),
            decreases list.len() - i,
        {
            let g = &list[i];
            let ghost pre_current = current@;
            let ghost pre_failures = failures_view(failures@);
            if g.run_parallel() {
                match g.validate(content) {
                    GuardrailResult::Pass => {},
                    GuardrailResult::Fail { reason, severity } => {
                        if severity == Severity::Critical && g.fail_fast() {
                            proof {
                                assert(spec_phase_concurrent(
                                    gs,
                                    content@,
                                    i as int,
                                    pre_current,
                                    pre_failures,
                                ) == Err::<(ContentV, Seq<FailureV>), AbortV>(
                                    AbortV {
                                        name: gs[i as int].spec_name(),
                                        reason: reason@,
                                        severity,
                                    },
                                ));
                                lemma_run_abort_concurrent(
                                    gs,
                                    content@,
                                    AbortV {
                                        name: gs[i as int].spec_name(),
                                        reason: reason@,
                                        severity,
                                    },
                                );
                            }
                            let err_name = g.name().to_owned();
                            return Err(
                                GuardrailError::ValidationFailed {
                                    name: err_name,
                                    reason,
                                    severity,
                                },
                            );
                        }
                        failures.push((g.name().to_owned(), reason.clone(), severity));
                        proof {
                            assert(failures_view(failures@) =~= pre_failures.push((
                                gs[i as int].spec_name(),
                                reason@,
                                severity,
                            )));
                        }
                    },
                    GuardrailResult::Transform { new_content, .. } => {
                        current = new_content;
                    },
                }
            }
            proof {
                assert(spec_phase_concurrent(gs, content@, i as int, pre_current, pre_failures)
                    == spec_phase_concurrent(
                    gs,
                    content@,
                    i + 1,
                    current@,
                    failures_view(failures@),
                ));
            }
            i = i + 1;
        }

        let ghost after_concurrent = spec_phase_concurrent(gs, content@, 0, content@, Seq::empty());
        proof {
            assert(after_concurrent == Ok::<_, AbortV>((
                current@,
                failures_view(failures@),
            )));
        }
        let ghost current1 = current@;
        let ghost failures1 = failures_view(failures@);

        // Sequential phase: a strict left-to-right fold over the current
        // content.
        let mut i: usize = 0;
        while i < list.len()
            invariant
                i <= list.len(),
                gs == list@,
                gs == guardrails@,
                gs.len() > 0,
                spec_phase_concurrent(gs, content@, 0, content@, Seq::empty()) == Ok::<
                    (ContentV, Seq<FailureV>),
                    AbortV,
                >((current1, failures1)),
                spec_phase_sequential(gs, 0, current1, failures1) == spec_phase_sequential(
                    gs,
                    i as int,
                    current@,
                    failures_view(failures@),
                ),
            decreases list.len() - i,
        {
            let g = &list[i];
            let ghost pre_current = current@;
            let ghost pre_failures = failures_view(failures@);
            if !g.run_parallel() {
                match g.validate(&current) {
                    GuardrailResult::Pass => {},
                    GuardrailResult::Fail { reason, severity } => {
                        if severity == Severity::Critical && g.fail_fast() {
                            proof {
                                assert(spec_phase_sequential(
                                    gs,
                                    i as int,
                                    pre_current,
                                    pre_failures,
                                ) == Err::<(ContentV, Seq<FailureV>), AbortV>(
                                    AbortV {
                                        name: gs[i as int].spec_name(),
                                        reason: reason@,
                                        severity,
                                    },
                                ));
                                lemma_run_abort_sequential(
                                    gs,
                                    content@,
                                    current1,
                                    failures1,
                                    AbortV {
                                        name: gs[i as int].spec_name(),
                                        reason: reason@,
                                        severity,
                                    },
                                );
                            }
                            let err_name = g.name().to_owned();
                            return Err(
                                GuardrailError::ValidationFailed {
                                    name: err_name,
                                    reason,
                                    severity,
                                },
                            );
                        }
                        failures.push((g.name().to_owned(), reason.clone(), severity));
                        proof {
                            assert(failures_view(failures@) =~= pre_failures.push((
                                gs[i as int].spec_name(),
                                reason@,
                                severity,
                            )));
                        }
                    },
                    GuardrailResult::Transform { new_content, .. } => {
                        current = new_content;
                    },
                }
            }
            proof {
                assert(spec_phase_sequential(gs, i as int, pre_current, pre_failures)
                    == spec_phase_sequential(gs, i + 1, current@, failures_view(failures@)));
            }
            i = i + 1;
        }

        let ghost final_current = current@;
        proof {
            assert(spec_phase_sequential(gs, 0, current1, failures1) == Ok::<_, AbortV>((
                final_current,
                failures_view(failures@),
            )));
        }

        // A run passes when no failure above Low severity was recorded.
        let mut all_low = true;
        let mut j: usize = 0;
        while j < failures.len()
            invariant
                j <= failures.len(),
                all_low == spec_all_low(failures_view(failures@).take(j as int)),
            decreases failures.len() - j,
        {
            if !matches!(failures[j].2, Severity::Low) {
                all_low = false;
                proof {
                    assert(failures_view(failures@).take(j + 1)[j as int].2 != Severity::Low);
                }
            }
            proof {
                if all_low {
                    assert forall|k: int| 0 <= k < j + 1 implies (#[trigger] failures_view(
                        failures@,
                    ).take(j + 1)[k]).2 == Severity::Low by {
                        if k < j {
                            assert(failures_view(failures@).take(j as int)[k] == failures_view(
                                failures@,
                            ).take(j + 1)[k]);
                        }
                    }
                }
            }
            j = j + 1;
        }
        proof {
            assert(failures_view(failures@).take(failures@.len() as int) =~= failures_view(
                failures@,
            ));
        }
        let passed = failures.is_empty() || all_low;

        // Report the content only if it was transformed, by deep value
        // comparison with the input.
        let transformed = if !content_eq(&current, content) {
            Some(current)
        } else {
            None
        };

        let r = ExecutionResult { passed, transformed_content: transformed, failures };
        proof {
            lemma_run_complete(
                gs,
                content@,
                current1,
                failures1,
                final_current,
                failures_view(r.failures@),
            );
            assert(r@ =~= spec_run(gs, content@)->Ok_0);
        }
        Ok(r)
    }
}

/// Law: an empty registry passes, with no transformation and no failures.
pub proof fn lemma_empty_registry_passes<G: Guardrail>(content: ContentV)
    ensures
        spec_run(Seq::<G>::empty(), content) == Ok::<ExecutionResultV, AbortV>(
            ExecutionResultV {
                passed: true,
                transformed_content: None,
                failures: Seq::empty(),
            },
        ),
{
}

/// Law: a registry holding one guardrail that passes on the given content
/// yields exactly the empty-registry outcome.
pub proof fn lemma_single_passing_guardrail<G: Guardrail>(g: G, content: ContentV)
    requires
        g.spec_validate(content) is Pass,
    ensures
        spec_run(seq![g], content) == Ok::<ExecutionResultV, AbortV>(
            ExecutionResultV {
                passed: true,
                transformed_content: None,
                failures: Seq::empty(),
            },
        ),
{
    let gs = seq![g];
    assert(gs[0] == g);
    if g.spec_run_parallel() {
        assert(spec_phase_concurrent(gs, content, 0, content, Seq::empty())
            == spec_phase_concurrent(gs, content, 1, content, Seq::empty()));
    }
    assert(spec_phase_concurrent(gs, content, 0, content, Seq::empty()) == Ok::<
        (ContentV, Seq<FailureV>),
        AbortV,
    >((content, Seq::empty())));
    if !g.spec_run_parallel() {
        assert(spec_phase_sequential(gs, 0, content, Seq::empty())
            == spec_phase_sequential(gs, 1, content, Seq::empty()));
    }
    assert(spec_phase_sequential(gs, 0, content, Seq::empty()) == Ok::<
        (ContentV, Seq<FailureV>),
        AbortV,
    >((content, Seq::empty())));
}

/// Law: a single guardrail failing at `Low` severity still passes overall,
/// but the failure is recorded.
pub proof fn lemma_single_low_failure<G: Guardrail>(g: G, content: ContentV, reason: Seq<char>)
    requires
        g.spec_validate(content) == (GuardrailResultV::Fail {
            reason,
            severity: Severity::Low,
        }),
    ensures
        spec_run(seq![g], content) is Ok,
        spec_run(seq![g], content)->Ok_0.passed,
        spec_run(seq![g], content)->Ok_0.failures == seq![
            (g.spec_name(), reason, Severity::Low),
        ],
        spec_run(seq![g], content)->Ok_0.transformed_content is None,
{
    let gs = seq![g];
    let fails = seq![(g.spec_name(), reason, Severity::Low)];
    assert(gs[0] == g);
    assert(Seq::<FailureV>::empty().push((g.spec_name(), reason, Severity::Low)) =~= fails);
    if g.spec_run_parallel() {
        assert(spec_phase_concurrent(gs, content, 0, content, Seq::empty())
            == spec_phase_concurrent(gs, content, 1, content, fails));
        assert(spec_phase_sequential(gs, 0, content, fails)
            == spec_phase_sequential(gs, 1, content, fails));
    } else {
        assert(spec_phase_concurrent(gs, content, 0, content, Seq::empty())
            == spec_phase_concurrent(gs, content, 1, content, Seq::empty()));
        assert(spec_phase_sequential(gs, 0, content, Seq::empty())
            == spec_phase_sequential(gs, 1, content, fails));
    }
    assert(spec_all_low(fails));
}

/// Law: a single guardrail failing above `Low` severity (here `High`) makes
/// the run fail overall, without aborting.
pub proof fn lemma_single_high_failure<G: Guardrail>(g: G, content: ContentV, reason: Seq<char>)
    requires
        g.spec_validate(content) == (GuardrailResultV::Fail {
            reason,
            severity: Severity::High,
        }),
    ensures
        spec_run(seq![g], content) is Ok,
        !spec_run(seq![g], content)->Ok_0.passed,
        spec_run(seq![g], content)->Ok_0.failures == seq![
            (g.spec_name(), reason, Severity::High),
        ],
{
    let gs = seq![g];
    let fails = seq![(g.spec_name(), reason, Severity::High)];
    assert(gs[0] == g);
    assert(Seq::<FailureV>::empty().push((g.spec_name(), reason, Severity::High)) =~= fails);
    if g.spec_run_parallel() {
        assert(spec_phase_concurrent(gs, content, 0, content, Seq::empty())
            == spec_phase_concurrent(gs, content, 1, content, fails));
        assert(spec_phase_sequential(gs, 0, content, fails)
            == spec_phase_sequential(gs, 1, content, fails));
    } else {
        assert(spec_phase_concurrent(gs, content, 0, content, Seq::empty())
            == spec_phase_concurrent(gs, content, 1, content, Seq::empty()));
        assert(spec_phase_sequential(gs, 0, content, Seq::empty())
            == spec_phase_sequential(gs, 1, content, fails));
    }
    assert(fails[0].2 == Severity::High);
    assert(!spec_all_low(fails));
}

/// Law: a single guardrail failing at `Critical` severity with the fail-fast
/// flag set aborts the run: the caller sees the abort error, never an
/// aggregated result.
pub proof fn lemma_single_critical_fail_fast_aborts<G: Guardrail>(
    g: G,
    content: ContentV,
    reason: Seq<char>,
)
    requires
        g.spec_validate(content) == (GuardrailResultV::Fail {
            reason,
            severity: Severity::Critical,
        }),
        g.spec_fail_fast(),
    ensures
        spec_run(seq![g], content) == Err::<ExecutionResultV, AbortV>(
            AbortV { name: g.spec_name(), reason, severity: Severity::Critical },
        ),
{
    let gs = seq![g];
    assert(gs[0] == g);
    let abort = AbortV { name: g.spec_name(), reason, severity: Severity::Critical };
    if g.spec_run_parallel() {
        assert(spec_phase_concurrent(gs, content, 0, content, Seq::empty()) == Err::<
            (ContentV, Seq<FailureV>),
            AbortV,
        >(abort));
    } else {
        assert(spec_phase_concurrent(gs, content, 0, content, Seq::empty())
            == spec_phase_concurrent(gs, content, 1, content, Seq::empty()));
        assert(spec_phase_sequential(gs, 0, content, Seq::empty()) == Err::<
            (ContentV, Seq<FailureV>),
            AbortV,
        >(abort));
    }
}

/// Law: the outcome is deterministic under concurrency.  Two
/// concurrent-eligible guardrails that both fail at `Medium` severity are
/// reported in registration order — the model folds concurrent verdicts by
/// registration index, never by completion order, so the first-registered
/// guardrail's failure always comes first.
pub proof fn lemma_concurrent_failures_in_registration_order<G: Guardrail>(
    a: G,
    b: G,
    content: ContentV,
    reason_a: Seq<char>,
    reason_b: Seq<char>,
)
    requires
        a.spec_run_parallel(),
        b.spec_run_parallel(),
        a.spec_validate(content) == (GuardrailResultV::Fail {
            reason: reason_a,
            severity: Severity::Medium,
        }),
        b.spec_validate(content) == (GuardrailResultV::Fail {
            reason: reason_b,
            severity: Severity::Medium,
        }),
    ensures
        spec_run(seq![a, b], content) is Ok,
        spec_run(seq![a, b], content)->Ok_0.failures == seq![
            (a.spec_name(), reason_a, Severity::Medium),
            (b.spec_name(), reason_b, Severity::Medium),
        ],
        !spec_run(seq![a, b], content)->Ok_0.passed,
        spec_run(seq![a, b], content)->Ok_0.transformed_content is None,
{
    let gs = seq![a, b];
    assert(gs[0] == a);
    assert(gs[1] == b);
    let fail_a = (a.spec_name(), reason_a, Severity::Medium);
    let fail_b = (b.spec_name(), reason_b, Severity::Medium);
    let fails = seq![fail_a, fail_b];
    assert(Seq::<FailureV>::empty().push(fail_a) =~= seq![fail_a]);
    assert(seq![fail_a].push(fail_b) =~= fails);
    assert(spec_phase_concurrent(gs, content, 0, content, Seq::empty())
        == spec_phase_concurrent(gs, content, 1, content, seq![fail_a]));
    assert(spec_phase_concurrent(gs, content, 1, content, seq![fail_a])
        == spec_phase_concurrent(gs, content, 2, content, fails));
    assert(spec_phase_concurrent(gs, content, 2, content, fails) == Ok::<
        (ContentV, Seq<FailureV>),
        AbortV,
    >((content, fails)));
    assert(spec_phase_sequential(gs, 0, content, fails) == spec_phase_sequential(
        gs,
        1,
        content,
        fails,
    ));
    assert(spec_phase_sequential(gs, 1, content, fails) == spec_phase_sequential(
        gs,
        2,
        content,
        fails,
    ));
    assert(fails[0].2 == Severity::Medium);
    assert(!spec_all_low(fails));
}

} // verus!
