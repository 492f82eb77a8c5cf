//! Tests of prompt construction, the chat types and the vendor constants.

use gorkd::anthropic::{
    AnthropicMessage, MessageRole as AnthropicRole, MODEL_HAIKU_35, MODEL_SONNET_4,
};
use gorkd::llm_types::{FinishReason, Message, Role, TokenUsage};
use gorkd::openai::{ChatMessage, MessageRole as OpenAiRole, MODEL_GPT_4O, MODEL_GPT_4O_MINI};
use gorkd::prompt::{
    build_synthesis_messages, estimate_messages_tokens, estimate_token_count, format_sources,
    SYNTHESIS_SYSTEM_PROMPT,
};
use gorkd::source::Source;

#[test]
fn builds_synthesis_messages() {
    let sources = vec![
        Source::new("https://example.com/a", "Article A", "Content about topic A"),
        Source::new("https://example.com/b", "Article B", "Content about topic B"),
    ];

    let messages = build_synthesis_messages("What is the topic?", &sources);

    assert_eq!(messages.len(), 2);
    assert!(messages[0].content.contains("research assistant"));
    assert!(messages[1].content.contains("What is the topic?"));
    assert!(messages[1].content.contains("Article A"));
    assert!(messages[1].content.contains("Article B"));
}

#[test]
fn formats_sources() {
    let sources = vec![Source::new(
        "https://rust-lang.org",
        "Rust Language",
        "Rust is a systems programming language.",
    )];

    let formatted = format_sources(&sources);

    assert!(formatted.contains("Rust Language"));
    assert!(formatted.contains("https://rust-lang.org"));
    assert!(formatted.contains("systems programming"));
    assert!(formatted.contains("src_"));
}

#[test]
fn estimates_token_count() {
    let text = "This is a test message";
    let estimate = estimate_token_count(text);
    assert!(estimate > 0);
    assert!(estimate < text.len());
    assert_eq!(estimate, text.len() / 4);
}

#[test]
fn estimates_messages_tokens() {
    let messages = vec![Message::system("12345678"), Message::user("1234")];
    assert_eq!(estimate_messages_tokens(&messages), 2 + 4 + 1 + 4);
}

#[test]
fn system_prompt_includes_citation_instructions() {
    assert!(SYNTHESIS_SYSTEM_PROMPT.contains("cite"));
    assert!(SYNTHESIS_SYSTEM_PROMPT.contains("[source_id]"));
    assert!(SYNTHESIS_SYSTEM_PROMPT.contains("confidence"));
}

#[test]
fn creates_messages() {
    let system = Message::system("You are a helpful assistant");
    let user = Message::user("Hello!");
    let assistant = Message::assistant("Hi there!");

    assert_eq!(system.role, Role::System);
    assert_eq!(user.role, Role::User);
    assert_eq!(assistant.role, Role::Assistant);
}

#[test]
fn token_usage_calculates_total() {
    let usage = TokenUsage {
        prompt_tokens: 100,
        completion_tokens: 50,
    };
    assert_eq!(usage.total(), 150);
}

#[test]
fn finish_reason_parses() {
    assert_eq!(FinishReason::from("stop"), FinishReason::Stop);
    assert_eq!(FinishReason::from("end_turn"), FinishReason::Stop);
    assert_eq!(FinishReason::from("length"), FinishReason::Length);
    assert_eq!(FinishReason::from("max_tokens"), FinishReason::Length);
    assert_eq!(FinishReason::from("unknown"), FinishReason::Unknown);
}

#[test]
fn provider_has_correct_context_window() {
    assert_eq!(gorkd::anthropic::CONTEXT_WINDOW_TOKENS, 200_000);
}

#[test]
fn provider_model_constants_exist() {
    assert!(MODEL_SONNET_4.contains("sonnet"));
    assert!(MODEL_HAIKU_35.contains("haiku"));
}

#[test]
fn mod_provider_has_correct_context_window() {
    assert_eq!(gorkd::openai::CONTEXT_WINDOW_TOKENS, 128_000);
}

#[test]
fn mod_provider_model_constants_exist() {
    assert!(MODEL_GPT_4O.contains("gpt-4o"));
    assert!(MODEL_GPT_4O_MINI.contains("gpt-4o-mini"));
}

#[test]
fn creates_user_message() {
    let msg = AnthropicMessage::user("Hello");
    assert_eq!(msg.role, AnthropicRole::User);
    assert_eq!(msg.content, "Hello");
}

#[test]
fn creates_assistant_message() {
    let msg = AnthropicMessage::assistant("Hi there!");
    assert_eq!(msg.role, AnthropicRole::Assistant);
    assert_eq!(msg.content, "Hi there!");
}

#[test]
fn creates_system_message() {
    let msg = ChatMessage::system("You are helpful.");
    assert_eq!(msg.role, OpenAiRole::System);
    assert_eq!(msg.content, "You are helpful.");
}

#[test]
fn types_creates_user_message() {
    let msg = ChatMessage::user("Hello");
    assert_eq!(msg.role, OpenAiRole::User);
    assert_eq!(msg.content, "Hello");
}

#[test]
fn types_creates_assistant_message() {
    let msg = ChatMessage::assistant("Hi there!");
    assert_eq!(msg.role, OpenAiRole::Assistant);
    assert_eq!(msg.content, "Hi there!");
}

#[test]
fn model_constants_defined() {
    assert_eq!(MODEL_GPT_4O, "gpt-4o");
    assert_eq!(MODEL_GPT_4O_MINI, "gpt-4o-mini");
    assert_eq!(gorkd::openai::CONTEXT_WINDOW_TOKENS, 128_000);
}

#[test]
fn joins_response_text_blocks() {
    let response = gorkd::anthropic::MessagesResponse {
        id: "msg_123".to_string(),
        response_type: "message".to_string(),
        role: AnthropicRole::Assistant,
        content: vec![
            gorkd::anthropic::ContentBlock::Text {
                text: "First part. ".to_string(),
            },
            gorkd::anthropic::ContentBlock::Text {
                text: "Second part.".to_string(),
            },
        ],
        model: MODEL_SONNET_4.to_string(),
        stop_reason: Some(gorkd::anthropic::StopReason::EndTurn),
        usage: gorkd::anthropic::Usage {
            input_tokens: 10,
            output_tokens: 20,
        },
    };
    assert_eq!(response.text_content(), "First part. Second part.");
    assert_eq!(response.usage.total(), 30);
}

#[test]
fn first_choice_carries_text_and_finish_reason() {
    let response = gorkd::openai::ChatCompletionResponse {
        id: "chatcmpl-123".to_string(),
        object: "chat.completion".to_string(),
        created: 1_677_652_288,
        model: "gpt-4o".to_string(),
        choices: vec![gorkd::openai::Choice {
            index: 0,
            message: gorkd::openai::ChoiceMessage {
                role: OpenAiRole::Assistant,
                content: Some("Hello! How can I help you?".to_string()),
            },
            finish_reason: Some(gorkd::openai::FinishReason::Stop),
        }],
        usage: gorkd::openai::Usage {
            prompt_tokens: 10,
            completion_tokens: 8,
            total_tokens: 18,
        },
    };
    assert_eq!(response.text_content(), "Hello! How can I help you?");
    assert_eq!(
        response.finish_reason(),
        Some(&gorkd::openai::FinishReason::Stop)
    );
    assert_eq!(response.usage.total(), 18);
}

#[test]
fn missing_choice_content_reads_empty() {
    let response = gorkd::openai::ChatCompletionResponse {
        id: "chatcmpl-123".to_string(),
        object: "chat.completion".to_string(),
        created: 1,
        model: "gpt-4o".to_string(),
        choices: vec![gorkd::openai::Choice {
            index: 0,
            message: gorkd::openai::ChoiceMessage {
                role: OpenAiRole::Assistant,
                content: None,
            },
            finish_reason: Some(gorkd::openai::FinishReason::ContentFilter),
        }],
        usage: gorkd::openai::Usage {
            prompt_tokens: 10,
            completion_tokens: 0,
            total_tokens: 10,
        },
    };
    assert_eq!(response.text_content(), "");
}
