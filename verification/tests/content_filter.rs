//! Tests of the content filter guardrail.

use adk::guardrail::content::{ContentFilter, ContentFilterConfig};
use adk::guardrail::model::Content;
use adk::guardrail::traits::{Guardrail, GuardrailResult, Severity};

#[test]
fn test_harmful_content_blocks() {
    let filter = ContentFilter::harmful_content();
    let content = Content::new("user").with_text("How to hack a computer");
    let result = filter.validate(&content);
    assert!(result.is_fail());
}

#[test]
fn test_harmful_content_passes() {
    let filter = ContentFilter::harmful_content();
    let content = Content::new("user").with_text("How to bake a cake");
    let result = filter.validate(&content);
    assert!(result.is_pass());
}

#[test]
fn test_on_topic_passes() {
    let filter = ContentFilter::on_topic(
        "cooking",
        vec!["recipe".to_string(), "cook".to_string(), "bake".to_string()],
    );
    let content = Content::new("user").with_text("Give me a recipe for cookies");
    let result = filter.validate(&content);
    assert!(result.is_pass());
}

#[test]
fn test_on_topic_fails() {
    let filter = ContentFilter::on_topic(
        "cooking",
        vec!["recipe".to_string(), "cook".to_string(), "bake".to_string()],
    );
    let content = Content::new("user").with_text("What is the weather today?");
    let result = filter.validate(&content);
    assert!(result.is_fail());
}

#[test]
fn test_max_length() {
    let filter = ContentFilter::max_length(10);
    let content = Content::new("user").with_text("This is a very long message");
    let result = filter.validate(&content);
    assert!(result.is_fail());
}

#[test]
fn test_blocked_keywords() {
    let filter = ContentFilter::blocked_keywords(vec!["forbidden".to_string(), "banned".to_string()]);
    let content = Content::new("user").with_text("This is forbidden content");
    let result = filter.validate(&content);
    assert!(result.is_fail());
}

#[test]
fn test_blocked_keywords_case_insensitive_word_boundary() {
    let filter = ContentFilter::blocked_keywords(vec!["hack".to_string()]);
    // Case-insensitive: "HACK" matches.
    let upper = Content::new("user").with_text("HACK the planet");
    assert!(filter.validate(&upper).is_fail());
    // Word boundaries: "hackathon" does not contain the word "hack".
    let embedded = Content::new("user").with_text("join the hackathon");
    assert!(filter.validate(&embedded).is_pass());
}

#[test]
fn test_blocked_keywords_escape_metacharacters() {
    // The keyword is matched literally, not as a regular expression.
    let filter = ContentFilter::blocked_keywords(vec!["a.b".to_string()]);
    let literal = Content::new("user").with_text("the pair a.b is here");
    assert!(filter.validate(&literal).is_fail());
    let similar = Content::new("user").with_text("the pair axb is here");
    assert!(filter.validate(&similar).is_pass());
}

#[test]
fn test_blocked_reason_counts_patterns() {
    let filter = ContentFilter::blocked_keywords(vec![
        "forbidden".to_string(),
        "banned".to_string(),
    ]);
    let content = Content::new("user").with_text("both forbidden and banned words");
    match filter.validate(&content) {
        GuardrailResult::Fail { reason, severity } => {
            assert_eq!(reason, "Content contains blocked keywords (matched 2 patterns)");
            assert_eq!(severity, Severity::High);
        }
        _ => panic!("expected a failure"),
    }
}

#[test]
fn test_max_length_reason_exact() {
    let filter = ContentFilter::max_length(10);
    let content = Content::new("user").with_text("This is a very long message");
    match filter.validate(&content) {
        GuardrailResult::Fail { reason, severity } => {
            assert_eq!(reason, "Content exceeds maximum length (27 > 10)");
            assert_eq!(severity, Severity::Medium);
        }
        _ => panic!("expected a failure"),
    }
}

#[test]
fn test_min_length_reason_exact() {
    let config = ContentFilterConfig {
        min_length: Some(10),
        ..Default::default()
    };
    let filter = ContentFilter::new("min_length", config);
    let content = Content::new("user").with_text("short");
    match filter.validate(&content) {
        GuardrailResult::Fail { reason, severity } => {
            assert_eq!(reason, "Content below minimum length (5 < 10)");
            assert_eq!(severity, Severity::High);
        }
        _ => panic!("expected a failure"),
    }
}

#[test]
fn test_on_topic_is_case_insensitive() {
    let filter = ContentFilter::on_topic("cooking", vec!["Recipe".to_string()]);
    let content = Content::new("user").with_text("this RECIPE is great");
    assert!(filter.validate(&content).is_pass());
}

#[test]
fn test_off_topic_reason_lists_topics() {
    let filter = ContentFilter::on_topic("cooking", vec!["recipe".to_string(), "bake".to_string()]);
    let content = Content::new("user").with_text("nothing relevant");
    match filter.validate(&content) {
        GuardrailResult::Fail { reason, .. } => {
            assert_eq!(
                reason,
                "Content is off-topic. Expected topics: [\"recipe\", \"bake\"]"
            );
        }
        _ => panic!("expected a failure"),
    }
}

#[test]
fn test_default_config() {
    let config = ContentFilterConfig::default();
    assert!(config.blocked_keywords.is_empty());
    assert!(config.required_topics.is_empty());
    assert!(config.max_length.is_none());
    assert!(config.min_length.is_none());
    assert_eq!(config.severity, Severity::High);
}

#[test]
fn test_filter_name_and_flags() {
    let filter = ContentFilter::harmful_content();
    assert_eq!(filter.name(), "harmful_content");
    assert!(filter.run_parallel());
    assert!(filter.fail_fast());
    let topical = ContentFilter::on_topic("cooking", vec!["recipe".to_string()]);
    assert_eq!(topical.name(), "on_topic_cooking");
}

#[test]
fn test_empty_content_checks_min_only() {
    let filter = ContentFilter::max_length(10);
    let content = Content::new("user");
    assert!(filter.validate(&content).is_pass());
}

#[test]
fn test_multiple_text_parts_joined_with_space() {
    // Two parts of lengths 5 and 5 joined with one space: 11 bytes > 10.
    let filter = ContentFilter::max_length(10);
    let content = Content::new("user").with_text("aaaaa").with_text("bbbbb");
    match filter.validate(&content) {
        GuardrailResult::Fail { reason, .. } => {
            assert_eq!(reason, "Content exceeds maximum length (11 > 10)");
        }
        _ => panic!("expected a failure"),
    }
}
