//! The message types of the second LLM vendor's chat API, as plain values,
//! and its model constants. The HTTP transport lives outside the library.

use vstd::prelude::*;

verus! {

/// The primary model of this vendor.
pub const MODEL_GPT_4O: &'static str = "gpt-4o";

/// The cheap, fast model for simple tasks.
pub const MODEL_GPT_4O_MINI: &'static str = "gpt-4o-mini";

/// The context window of these models, in tokens.
pub const CONTEXT_WINDOW_TOKENS: usize = 128000;

/// Default token budget for one response.
pub const DEFAULT_MAX_TOKENS: usize = 4096;

/// Who speaks a message of this API.
#[derive(Clone, Copy, Debug, PartialEq, Eq, Structural)]
pub enum MessageRole {
    System,
    User,
    Assistant,
}

/// One message of this API.
pub struct ChatMessage {
    pub role: MessageRole,
    pub content: String,
}

impl ChatMessage {
    /// Creates a system message.
    pub fn system(content: &str) -> (r: ChatMessage)
        ensures
            r.role == MessageRole::System,
            r.content@ == content@,
    {
        ChatMessage { role: MessageRole::System, content: content.to_owned() }
    }

    /// Creates a user message.
    pub fn user(content: &str) -> (r: ChatMessage)
        ensures
            r.role == MessageRole::User,
            r.content@ == content@,
    {
        ChatMessage { role: MessageRole::User, content: content.to_owned() }
    }

    /// Creates an assistant message.
    pub fn assistant(content: &str) -> (r: ChatMessage)
        ensures
            r.role == MessageRole::Assistant,
            r.content@ == content@,
    {
        ChatMessage { role: MessageRole::Assistant, content: content.to_owned() }
    }
}

impl Clone for ChatMessage {
    fn clone(&self) -> (r: Self)
        ensures
            r == *self,
    {
        ChatMessage { role: self.role, content: self.content.clone() }
    }
}

/// The response format the API is asked for.
pub struct ResponseFormat {
    pub format_type: String,
}

impl ResponseFormat {
    /// Asks for one JSON object.
    pub fn json() -> (r: ResponseFormat)
        ensures
            r.format_type@ == "json_object"@,
    {
        ResponseFormat { format_type: "json_object".to_owned() }
    }
}

/// Token counts of one call.
#[derive(Clone, Copy)]
pub struct Usage {
    pub prompt_tokens: usize,
    pub completion_tokens: usize,
    pub total_tokens: usize,
}

impl Usage {
    /// The total this vendor reports.
    pub fn total(&self) -> (r: usize)
        ensures
            r == self.total_tokens,
    {
        self.total_tokens
    }
}

/// Why the model stopped.
#[derive(Clone, Copy, Debug, PartialEq, Eq, Structural)]
pub enum FinishReason {
    Stop,
    Length,
    ContentFilter,
    Unknown,
}

/// The message of one choice.
pub struct ChoiceMessage {
    pub role: MessageRole,
    pub content: Option<String>,
}

/// One of the choices of a response.
pub struct Choice {
    pub index: usize,
    pub message: ChoiceMessage,
    pub finish_reason: Option<FinishReason>,
}

/// One response of this API.
pub struct ChatCompletionResponse {
    pub id: String,
    pub object: String,
    pub created: u64,
    pub model: String,
    pub choices: Vec<Choice>,
    pub usage: Usage,
}

impl ChatCompletionResponse {
    /// The text of the first choice, or the empty string without one.
    pub fn text_content(&self) -> (r: String)
        ensures
            self.choices@.len() > 0 && self.choices@[0].message.content is Some ==> (
            self.choices@[0].message.content matches Some(c) && r@ == c@),
            self.choices@.len() == 0 || self.choices@[0].message.content is None ==> r@.len() == 0,
    {
        if self.choices.len() == 0 {
            return String::new();
        }
        match &self.choices[0].message.content {
            Some(c) => c.clone(),
            None => String::new(),
        }
    }

    /// The finish reason of the first choice.
    pub fn finish_reason(&self) -> (r: Option<&FinishReason>)
        ensures
            self.choices@.len() > 0 ==> (match self.choices@[0].finish_reason {
                Some(f) => r matches Some(rf) && *rf == f,
                None => r is None,
            }),
            self.choices@.len() == 0 ==> r is None,
    {
        if self.choices.len() == 0 {
            return None;
        }
        match &self.choices[0].finish_reason {
            Some(f) => Some(f),
            None => None,
        }
    }
}

} // verus!
