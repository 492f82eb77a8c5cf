//! Tests of the error taxonomy: retryability per kind, exhaustively, and
//! the rendered messages.

use gorkd::caps::{ErrorContext, LlmError, SearchError, StoreError};
use gorkd::llm_errors::{map_anthropic_error, map_openai_error};

#[test]
fn search_error_is_retryable() {
    assert!(SearchError::RateLimited {
        provider: "tavily".into()
    }
    .is_retryable());
    assert!(SearchError::Timeout { timeout_secs: 30 }.is_retryable());
    assert!(!SearchError::InvalidQuery {
        reason: "empty".into()
    }
    .is_retryable());
}

#[test]
fn llm_error_is_retryable() {
    assert!(LlmError::RateLimited.is_retryable());
    assert!(!LlmError::ContentFiltered {
        reason: "policy".into()
    }
    .is_retryable());
}

#[test]
fn store_error_is_retryable() {
    assert!(StoreError::Connection("timeout".into()).is_retryable());
    assert!(!StoreError::JobNotFound {
        id: "job_123".into()
    }
    .is_retryable());
}

#[test]
fn every_search_error_kind_has_its_verdict() {
    assert!(SearchError::ProviderUnavailable {
        provider: "p".into()
    }
    .is_retryable());
    assert!(SearchError::RateLimited { provider: "p".into() }.is_retryable());
    assert!(SearchError::Timeout { timeout_secs: 1 }.is_retryable());
    assert!(SearchError::Network("down".into()).is_retryable());
    assert!(!SearchError::InvalidQuery { reason: "r".into() }.is_retryable());
    assert!(!SearchError::Provider("boom".into()).is_retryable());
}

#[test]
fn every_llm_error_kind_has_its_verdict() {
    assert!(LlmError::ModelUnavailable { model: "m".into() }.is_retryable());
    assert!(LlmError::RateLimited.is_retryable());
    assert!(LlmError::Timeout { timeout_secs: 1 }.is_retryable());
    assert!(LlmError::Network("down".into()).is_retryable());
    assert!(!LlmError::ContextLengthExceeded {
        max_tokens: 10,
        got_tokens: 20
    }
    .is_retryable());
    assert!(!LlmError::ContentFiltered { reason: "r".into() }.is_retryable());
    assert!(!LlmError::Provider("boom".into()).is_retryable());
}

#[test]
fn every_store_error_kind_has_its_verdict() {
    assert!(StoreError::Connection("c".into()).is_retryable());
    assert!(!StoreError::JobNotFound { id: "j".into() }.is_retryable());
    assert!(!StoreError::Query("q".into()).is_retryable());
    assert!(!StoreError::Serialization("s".into()).is_retryable());
    assert!(!StoreError::Conflict("c".into()).is_retryable());
}

#[test]
fn error_context_displays_correctly() {
    let ctx = ErrorContext {
        operation: "search".into(),
        details: Some("provider timeout".into()),
    };
    assert_eq!(ctx.message(), "during search: provider timeout");

    let ctx_no_details = ErrorContext {
        operation: "store".into(),
        details: None,
    };
    assert_eq!(ctx_no_details.message(), "during store");
}

#[test]
fn error_messages_render_numbers() {
    assert_eq!(
        SearchError::Timeout { timeout_secs: 30 }.message(),
        "search timeout after 30s"
    );
    assert_eq!(
        LlmError::ContextLengthExceeded {
            max_tokens: 128000,
            got_tokens: 150000
        }
        .message(),
        "context length exceeded: 128000 tokens max, got 150000"
    );
    assert_eq!(
        SearchError::ProviderUnavailable {
            provider: "tavily".into()
        }
        .message(),
        "provider not available: tavily"
    );
    assert_eq!(LlmError::RateLimited.message(), "rate limited by provider");
    assert_eq!(
        StoreError::JobNotFound {
            id: "job_abc".into()
        }
        .message(),
        "job not found: job_abc"
    );
}

#[test]
fn maps_openai_rate_limit() {
    let error = map_openai_error(429, "{}");
    assert!(matches!(error, LlmError::RateLimited));
    assert!(error.is_retryable());
}

#[test]
fn maps_openai_unauthorized() {
    let error = map_openai_error(401, "{}");
    assert!(matches!(error, LlmError::Provider(_)));
}

#[test]
fn maps_openai_context_length() {
    let body = r#"{"error":{"message":"context too long","type":"invalid_request_error","code":"context_length_exceeded"}}"#;
    let error = map_openai_error(400, body);
    assert!(matches!(error, LlmError::ContextLengthExceeded { .. }));
}

#[test]
fn maps_openai_missing_model() {
    let body = r#"{"error":{"message":"model gone","type":"invalid_request_error","code":null}}"#;
    let error = map_openai_error(404, body);
    match error {
        LlmError::ModelUnavailable { model } => assert_eq!(model, "model gone"),
        other => panic!("unexpected: {:?}", other.message()),
    }
}

#[test]
fn maps_anthropic_rate_limit() {
    let error = map_anthropic_error(429, "{}");
    assert!(matches!(error, LlmError::RateLimited));
    assert!(error.is_retryable());
}

#[test]
fn maps_anthropic_overloaded() {
    let body = r#"{"type":"error","error":{"type":"overloaded_error","message":"overloaded"}}"#;
    let error = map_anthropic_error(503, body);
    assert!(matches!(error, LlmError::RateLimited));
}

#[test]
fn maps_anthropic_unauthorized() {
    let error = map_anthropic_error(401, "{}");
    assert!(matches!(error, LlmError::Provider(_)));
}

#[test]
fn maps_anthropic_token_overflow() {
    let body =
        r#"{"type":"error","error":{"type":"invalid_request_error","message":"too many tokens"}}"#;
    let error = map_anthropic_error(400, body);
    assert!(matches!(error, LlmError::ContextLengthExceeded { .. }));
}

#[test]
fn unparsed_body_falls_back_to_http_text() {
    let error = map_openai_error(418, "not json");
    match error {
        LlmError::Provider(m) => assert_eq!(m, "HTTP 418: not json"),
        other => panic!("unexpected: {:?}", other.message()),
    }
}
