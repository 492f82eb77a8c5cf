//! Vendor-neutral chat types: message roles, messages, token usage and the
//! reason a completion stopped.

use vstd::prelude::*;

use crate::strutil::str_eq;

verus! {

/// Who speaks a chat message.
#[derive(Clone, Copy, Debug, PartialEq, Eq, Structural)]
pub enum Role {
    System,
    User,
    Assistant,
}

/// One chat message.
pub struct Message {
    pub role: Role,
    pub content: String,
}

impl Message {
    /// Creates a system message.
    pub fn system(content: &str) -> (r: Message)
        ensures
            r.role == Role::System,
            r.content@ == content@,
    {
        Message { role: Role::System, content: content.to_owned() }
    }

    /// Creates a user message.
    pub fn user(content: &str) -> (r: Message)
        ensures
            r.role == Role::User,
            r.content@ == content@,
    {
        Message { role: Role::User, content: content.to_owned() }
    }

    /// Creates an assistant message.
    pub fn assistant(content: &str) -> (r: Message)
        ensures
            r.role == Role::Assistant,
            r.content@ == content@,
    {
        Message { role: Role::Assistant, content: content.to_owned() }
    }
}

impl Clone for Message {
    fn clone(&self) -> (r: Self)
        ensures
            r == *self,
    {
        Message { role: self.role, content: self.content.clone() }
    }
}

/// How many tokens a completion call consumed.
#[derive(Clone, Copy)]
pub struct TokenUsage {
    pub prompt_tokens: usize,
    pub completion_tokens: usize,
}

impl TokenUsage {
    /// The total number of tokens consumed.
    pub fn total(&self) -> (r: usize)
        requires
            self.prompt_tokens + self.completion_tokens <= usize::MAX,
        ensures
            r == self.prompt_tokens + self.completion_tokens,
    {
        self.prompt_tokens + self.completion_tokens
    }
}

impl Default for TokenUsage {
    /// Usage with zero counters.
    fn default() -> (r: TokenUsage)
        ensures
            r.prompt_tokens == 0,
            r.completion_tokens == 0,
    {
        TokenUsage { prompt_tokens: 0, completion_tokens: 0 }
    }
}

/// Why a completion stopped.
#[derive(Clone, Copy, Debug, PartialEq, Eq, Structural)]
pub enum FinishReason {
    Stop,
    Length,
    ContentFilter,
    Unknown,
}

/// The finish reason a vendor's word names: `stop` and `end_turn` end a
/// turn, `length` and `max_tokens` mark truncation, `content_filter` marks
/// refusal, and every other word is unknown.
pub open spec fn spec_finish_reason(s: Seq<char>) -> FinishReason {
    if s == "stop"@ || s == "end_turn"@ {
        FinishReason::Stop
    } else if s == "length"@ || s == "max_tokens"@ {
        FinishReason::Length
    } else if s == "content_filter"@ {
        FinishReason::ContentFilter
    } else {
        FinishReason::Unknown
    }
}

impl<'a> From<&'a str> for FinishReason {
    fn from(s: &'a str) -> (r: Self) {
        if str_eq(s, "stop") || str_eq(s, "end_turn") {
            FinishReason::Stop
        } else if str_eq(s, "length") || str_eq(s, "max_tokens") {
            FinishReason::Length
        } else if str_eq(s, "content_filter") {
            FinishReason::ContentFilter
        } else {
            FinishReason::Unknown
        }
    }
}

impl<'a> vstd::std_specs::convert::FromSpecImpl<&'a str> for FinishReason {
    open spec fn obeys_from_spec() -> bool {
        true
    }

    open spec fn from_spec(s: &'a str) -> FinishReason {
        spec_finish_reason(s@)
    }
}

/// What a completion call returned: the text, the model that answered, the
/// tokens consumed and why the completion stopped.
pub struct ChatResponse {
    pub content: String,
    pub model: String,
    pub usage: TokenUsage,
    pub finish_reason: FinishReason,
}

impl Clone for ChatResponse {
    fn clone(&self) -> (r: Self)
        ensures
            r == *self,
    {
        ChatResponse {
            content: self.content.clone(),
            model: self.model.clone(),
            usage: self.usage,
            finish_reason: self.finish_reason,
        }
    }
}

} // verus!
