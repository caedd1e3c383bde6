//! Tests of the guardrail executor: outcome aggregation, severity policy,
//! early abort, and deterministic ordering.

use adk::guardrail::error::GuardrailError;
use adk::guardrail::executor::{AnyGuardrail, GuardrailExecutor, GuardrailSet};
use adk::guardrail::model::Content;
use adk::guardrail::traits::{FixedGuardrail, GuardrailResult, Severity};

fn pass_guardrail() -> FixedGuardrail {
    FixedGuardrail::new("pass", GuardrailResult::pass())
}

fn fail_guardrail(severity: Severity) -> FixedGuardrail {
    FixedGuardrail::new("fail", GuardrailResult::fail("test failure", severity))
}

#[test]
fn test_empty_guardrails_pass() {
    let set: GuardrailSet<FixedGuardrail> = GuardrailSet::new();
    let content = Content::new("user").with_text("hello");
    let result = GuardrailExecutor::run(&set, &content).unwrap();
    assert!(result.passed);
    assert!(result.transformed_content.is_none());
    assert!(result.failures.is_empty());
}

#[test]
fn test_pass_guardrail() {
    let set = GuardrailSet::new().with(pass_guardrail());
    let content = Content::new("user").with_text("hello");
    let result = GuardrailExecutor::run(&set, &content).unwrap();
    assert!(result.passed);
    assert!(result.transformed_content.is_none());
    assert!(result.failures.is_empty());
}

#[test]
fn test_fail_guardrail_low_severity() {
    let set = GuardrailSet::new().with(fail_guardrail(Severity::Low));
    let content = Content::new("user").with_text("hello");
    let result = GuardrailExecutor::run(&set, &content).unwrap();
    assert!(result.passed); // Low severity doesn't fail
    assert_eq!(result.failures.len(), 1);
    assert_eq!(
        result.failures[0],
        ("fail".to_string(), "test failure".to_string(), Severity::Low)
    );
}

#[test]
fn test_fail_guardrail_high_severity() {
    let set = GuardrailSet::new().with(fail_guardrail(Severity::High));
    let content = Content::new("user").with_text("hello");
    let result = GuardrailExecutor::run(&set, &content).unwrap();
    assert!(!result.passed);
}

#[test]
fn test_critical_early_exit() {
    let set = GuardrailSet::new().with(fail_guardrail(Severity::Critical));
    let content = Content::new("user").with_text("hello");
    let result = GuardrailExecutor::run(&set, &content);
    assert!(result.is_err());
    match result {
        Err(GuardrailError::ValidationFailed {
            name,
            reason,
            severity,
        }) => {
            assert_eq!(name, "fail");
            assert_eq!(reason, "test failure");
            assert_eq!(severity, Severity::Critical);
        }
        _ => panic!("expected a validation failure"),
    }
}

#[test]
fn test_medium_failure_fails_run_without_abort() {
    let set = GuardrailSet::new().with(fail_guardrail(Severity::Medium));
    let content = Content::new("user").with_text("hello");
    let result = GuardrailExecutor::run(&set, &content).unwrap();
    assert!(!result.passed);
    assert_eq!(result.failures.len(), 1);
}

#[test]
fn test_critical_without_fail_fast_is_recorded() {
    let guardrail = fail_guardrail(Severity::Critical).with_fail_fast(false);
    let set = GuardrailSet::new().with(guardrail);
    let content = Content::new("user").with_text("hello");
    let result = GuardrailExecutor::run(&set, &content).unwrap();
    assert!(!result.passed);
    assert_eq!(result.failures.len(), 1);
    assert_eq!(result.failures[0].2, Severity::Critical);
}

#[test]
fn test_concurrent_failures_reported_in_registration_order() {
    // Both guardrails are concurrent-eligible; failures must appear in
    // registration order, never completion order.
    let a = FixedGuardrail::new("A", GuardrailResult::fail("first registered", Severity::Medium));
    let b = FixedGuardrail::new("B", GuardrailResult::fail("second registered", Severity::Medium));
    let set = GuardrailSet::new().with(a).with(b);
    let content = Content::new("user").with_text("hello");
    let result = GuardrailExecutor::run(&set, &content).unwrap();
    assert!(!result.passed);
    assert_eq!(
        result.failures,
        vec![
            ("A".to_string(), "first registered".to_string(), Severity::Medium),
            ("B".to_string(), "second registered".to_string(), Severity::Medium),
        ]
    );
}

#[test]
fn test_sequential_transform_carries_forward() {
    // A sequential transforming guardrail replaces the content; the result
    // reports the transformed value.
    let replacement = Content::new("user").with_text("replaced");
    let transformer = FixedGuardrail::new(
        "transformer",
        GuardrailResult::transform(replacement, "swap the text"),
    )
    .with_run_parallel(false);
    let set = GuardrailSet::new().with(transformer);
    let content = Content::new("user").with_text("original");
    let result = GuardrailExecutor::run(&set, &content).unwrap();
    assert!(result.passed);
    let transformed = result.transformed_content.expect("content must be transformed");
    assert_eq!(transformed.parts[0].text(), Some("replaced"));
}

#[test]
fn test_transform_to_identical_content_reports_none() {
    // A transform that returns an equal value is not a change: change
    // detection is by deep value comparison.
    let same = Content::new("user").with_text("hello");
    let transformer = FixedGuardrail::new("identity", GuardrailResult::transform(same, "no-op"))
        .with_run_parallel(false);
    let set = GuardrailSet::new().with(transformer);
    let content = Content::new("user").with_text("hello");
    let result = GuardrailExecutor::run(&set, &content).unwrap();
    assert!(result.passed);
    assert!(result.transformed_content.is_none());
}

#[test]
fn test_abort_discards_earlier_failures() {
    let a = FixedGuardrail::new("first", GuardrailResult::fail("recorded", Severity::Medium));
    let b = FixedGuardrail::new("fatal", GuardrailResult::fail("too bad", Severity::Critical));
    let set = GuardrailSet::new().with(a).with(b);
    let content = Content::new("user").with_text("hello");
    match GuardrailExecutor::run(&set, &content) {
        Err(GuardrailError::ValidationFailed { name, .. }) => assert_eq!(name, "fatal"),
        _ => panic!("expected an abort"),
    }
}

#[test]
fn test_guardrail_result_helpers() {
    assert!(GuardrailResult::pass().is_pass());
    assert!(!GuardrailResult::pass().is_fail());
    let fail = GuardrailResult::fail("bad", Severity::Low);
    assert!(fail.is_fail());
    assert!(!fail.is_pass());
    let transform =
        GuardrailResult::transform(Content::new("user").with_text("x"), "replaced");
    assert!(!transform.is_pass());
    assert!(!transform.is_fail());
}

#[test]
fn test_validation_failed_message() {
    let err = GuardrailError::ValidationFailed {
        name: "filter".to_string(),
        reason: "blocked".to_string(),
        severity: Severity::Critical,
    };
    assert_eq!(err.message(), "Guardrail 'filter' failed: blocked");
}

#[test]
fn test_mixed_registry_runs_all_kinds() {
    let set = GuardrailSet::new()
        .with(AnyGuardrail::Fixed(pass_guardrail()))
        .with(AnyGuardrail::Filter(adk::guardrail::content::ContentFilter::max_length(100)));
    let content = Content::new("user").with_text("short enough");
    let result = GuardrailExecutor::run(&set, &content).unwrap();
    assert!(result.passed);
    assert!(result.failures.is_empty());
}

#[test]
fn test_other_error_messages() {
    assert_eq!(
        GuardrailError::Schema("missing field".to_string()).message(),
        "Schema validation error: missing field"
    );
    assert_eq!(
        GuardrailError::Regex("bad pattern".to_string()).message(),
        "Regex error: bad pattern"
    );
    assert_eq!(
        GuardrailError::Internal("oops".to_string()).message(),
        "Internal error: oops"
    );
    assert_eq!(
        GuardrailError::MultipleFailures(vec![]).message(),
        "Multiple guardrails failed"
    );
}
