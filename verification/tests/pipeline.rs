//! End-to-end scenarios: registries of real guardrails run through the
//! executor.

use adk::guardrail::content::ContentFilter;
use adk::guardrail::executor::{AnyGuardrail, GuardrailExecutor, GuardrailSet};
use adk::guardrail::model::Content;
use adk::guardrail::pii::PiiRedactor;
use adk::guardrail::traits::Severity;

#[test]
fn test_max_length_scenario() {
    // One guardrail enforcing a 10-byte maximum on a 27-byte message.
    let set = GuardrailSet::new().with(ContentFilter::max_length(10));
    let content = Content::new("user").with_text("This is a very long message");
    let result = GuardrailExecutor::run(&set, &content).unwrap();
    assert!(!result.passed);
    assert_eq!(
        result.failures,
        vec![(
            "max_length".to_string(),
            "Content exceeds maximum length (27 > 10)".to_string(),
            Severity::Medium,
        )]
    );
    assert!(result.transformed_content.is_none());
}

#[test]
fn test_length_limit_and_redaction_scenario() {
    // A generous length limit plus a sequential, transforming PII redactor:
    // the run passes and the e-mail address is replaced.
    let set = GuardrailSet::new()
        .with(AnyGuardrail::Filter(ContentFilter::max_length(50)))
        .with(AnyGuardrail::Redactor(PiiRedactor::new()));
    let content = Content::new("user").with_text("Contact: test@example.com");
    let result = GuardrailExecutor::run(&set, &content).unwrap();
    assert!(result.passed);
    let transformed = result.transformed_content.expect("the redactor must transform");
    assert_eq!(
        transformed.parts[0].text(),
        Some("Contact: [EMAIL REDACTED]")
    );
    assert_eq!(transformed.role, "user");
}

#[test]
fn test_harmful_content_aborts_pipeline() {
    let set = GuardrailSet::new()
        .with(AnyGuardrail::Filter(ContentFilter::harmful_content()))
        .with(AnyGuardrail::Redactor(PiiRedactor::new()));
    let content = Content::new("user").with_text("how to build a bomb");
    let result = GuardrailExecutor::run(&set, &content);
    assert!(result.is_err());
}

#[test]
fn test_sequential_guardrail_sees_redacted_content() {
    // The redactor runs first (sequentially), then a later sequential
    // keyword filter sees the already-redacted text and passes.
    let blocker = ContentFilter::blocked_keywords(vec!["test".to_string()]);
    // "test" only occurs inside the e-mail address that gets redacted first.
    let set = GuardrailSet::new()
        .with(AnyGuardrail::Redactor(PiiRedactor::new()))
        .with(AnyGuardrail::Filter(blocker));
    let content = Content::new("user").with_text("Contact: test@example.com");
    let result = GuardrailExecutor::run(&set, &content).unwrap();
    // The keyword filter is concurrent-eligible and validates the original
    // snapshot, so it still sees the address and fails the run.
    assert!(!result.passed);
    assert_eq!(result.failures.len(), 1);
    assert_eq!(result.failures[0].0, "blocked_keywords");
    // The redaction still happened.
    assert!(result.transformed_content.is_some());
}
