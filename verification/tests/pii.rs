//! Tests of the PII redaction guardrail.

use adk::guardrail::executor::{GuardrailExecutor, GuardrailSet};
use adk::guardrail::model::Content;
use adk::guardrail::pii::{PiiRedactor, PiiType};
use adk::guardrail::traits::{Guardrail, GuardrailResult};

#[test]
fn test_email_redaction() {
    let redactor = PiiRedactor::new();
    let (result, found) = redactor.redact("Contact me at test@example.com");
    assert_eq!(result, "Contact me at [EMAIL REDACTED]");
    assert!(found.contains(&PiiType::Email));
}

#[test]
fn test_phone_redaction() {
    let redactor = PiiRedactor::new();
    let (result, found) = redactor.redact("Call me at 555-123-4567");
    assert_eq!(result, "Call me at [PHONE REDACTED]");
    assert!(found.contains(&PiiType::Phone));
}

#[test]
fn test_ssn_redaction() {
    let redactor = PiiRedactor::new();
    let (result, found) = redactor.redact("SSN: 123-45-6789");
    assert_eq!(result, "SSN: [SSN REDACTED]");
    assert!(found.contains(&PiiType::Ssn));
}

#[test]
fn test_credit_card_redaction() {
    let redactor = PiiRedactor::new();
    let (result, found) = redactor.redact("Card: 4111-1111-1111-1111");
    assert_eq!(result, "Card: [CREDIT CARD REDACTED]");
    assert!(found.contains(&PiiType::CreditCard));
}

#[test]
fn test_multiple_pii() {
    let redactor = PiiRedactor::new();
    let (result, found) = redactor.redact("Email: a@b.com, Phone: 555-123-4567");
    assert!(result.contains("[EMAIL REDACTED]"));
    assert!(result.contains("[PHONE REDACTED]"));
    assert_eq!(found.len(), 2);
}

#[test]
fn test_no_pii() {
    let redactor = PiiRedactor::new();
    let (result, found) = redactor.redact("Hello world");
    assert_eq!(result, "Hello world");
    assert!(found.is_empty());
}

#[test]
fn test_guardrail_transform() {
    let redactor = PiiRedactor::new();
    let content = Content::new("user").with_text("Email: test@example.com");
    let result = redactor.validate(&content);

    match result {
        GuardrailResult::Transform { new_content, .. } => {
            let text = new_content.parts[0].text().unwrap();
            assert!(text.contains("[EMAIL REDACTED]"));
        }
        _ => panic!("Expected Transform result"),
    }
}

#[test]
fn test_guardrail_pass() {
    let redactor = PiiRedactor::new();
    let content = Content::new("user").with_text("Hello world");
    let result = redactor.validate(&content);
    assert!(result.is_pass());
}

#[test]
fn test_redaction_is_idempotent() {
    // Applying the redactor twice yields the same text as applying it once:
    // the placeholder no longer matches the detection pattern.
    let redactor = PiiRedactor::new();
    let (once, _) = redactor.redact("Email: test@example.com");
    assert_eq!(once, "Email: [EMAIL REDACTED]");
    let (twice, found_again) = redactor.redact(&once);
    assert_eq!(twice, once);
    assert!(found_again.is_empty());
}

#[test]
fn test_redaction_idempotent_through_executor() {
    // The same idempotence, end to end: running the redaction pipeline on
    // already-redacted content reports no transformation.
    let content = Content::new("user").with_text("Email: test@example.com");
    let set = GuardrailSet::new().with(PiiRedactor::new());
    let first = GuardrailExecutor::run(&set, &content).unwrap();
    let transformed = first.transformed_content.expect("first run must transform");
    assert_eq!(
        transformed.parts[0].text(),
        Some("Email: [EMAIL REDACTED]")
    );

    let set = GuardrailSet::new().with(PiiRedactor::new());
    let second = GuardrailExecutor::run(&set, &transformed).unwrap();
    assert!(second.passed);
    assert!(second.transformed_content.is_none());
}

#[test]
fn test_with_types_restricts_detection() {
    let redactor = PiiRedactor::with_types(&[PiiType::Phone]);
    let (result, found) = redactor.redact("Email: a@b.com, Phone: 555-123-4567");
    assert!(result.contains("a@b.com"));
    assert!(result.contains("[PHONE REDACTED]"));
    assert_eq!(found, vec![PiiType::Phone]);
}

#[test]
fn test_ip_address_redaction() {
    let redactor = PiiRedactor::with_types(&[PiiType::IpAddress]);
    let (result, found) = redactor.redact("Server at 192.168.0.1 responded");
    assert_eq!(result, "Server at [IP REDACTED] responded");
    assert_eq!(found, vec![PiiType::IpAddress]);
}

#[test]
fn test_transform_reason_names_types() {
    let redactor = PiiRedactor::new();
    let content = Content::new("user").with_text("Email: test@example.com");
    match redactor.validate(&content) {
        GuardrailResult::Transform { reason, .. } => {
            assert_eq!(reason, "Redacted PII types: Email");
        }
        _ => panic!("Expected Transform result"),
    }
}

#[test]
fn test_redactor_runs_sequentially() {
    let redactor = PiiRedactor::new();
    assert_eq!(redactor.name(), "pii_redactor");
    assert!(!redactor.run_parallel());
    assert!(redactor.fail_fast());
}

#[test]
fn test_non_text_parts_pass_through() {
    let redactor = PiiRedactor::new();
    let mut content = Content::new("user").with_text("Email: test@example.com");
    content.parts.push(adk::guardrail::model::Part::Data {
        mime_type: "image/png".to_string(),
        data: vec![1, 2, 3],
    });
    match redactor.validate(&content) {
        GuardrailResult::Transform { new_content, .. } => {
            assert_eq!(new_content.parts.len(), 2);
            assert!(new_content.parts[1].text().is_none());
        }
        _ => panic!("Expected Transform result"),
    }
}

#[test]
fn test_pattern_and_redaction_accessors() {
    assert_eq!(PiiType::Email.redaction(), "[EMAIL REDACTED]");
    assert!(PiiType::Phone.pattern().contains("[0-9]{3}"));
}
