//! The message types of the first LLM vendor's chat API, as plain values,
//! and its model constants. The HTTP transport lives outside the library.

use vstd::prelude::*;
use vstd::string::StringExecFns;

verus! {

/// The primary model.
pub const MODEL_SONNET_4: &'static str = "sonnet-4-20250514";

/// The fast, cheap fallback model.
pub const MODEL_HAIKU_35: &'static str = "haiku-3-5-20241022";

/// The context window of these models, in tokens.
pub const CONTEXT_WINDOW_TOKENS: usize = 200000;

/// Default token budget for one response.
pub const DEFAULT_MAX_TOKENS: usize = 4096;

/// Who speaks a message of this API: the system prompt travels separately.
#[derive(Clone, Copy, Debug, PartialEq, Eq, Structural)]
pub enum MessageRole {
    User,
    Assistant,
}

/// One message of this API.
pub struct AnthropicMessage {
    pub role: MessageRole,
    pub content: String,
}

impl AnthropicMessage {
    /// Creates a user message.
    pub fn user(content: &str) -> (r: AnthropicMessage)
        ensures
            r.role == MessageRole::User,
            r.content@ == content@,
    {
        AnthropicMessage { role: MessageRole::User, content: content.to_owned() }
    }

    /// Creates an assistant message.
    pub fn assistant(content: &str) -> (r: AnthropicMessage)
        ensures
            r.role == MessageRole::Assistant,
            r.content@ == content@,
    {
        AnthropicMessage { role: MessageRole::Assistant, content: content.to_owned() }
    }
}

impl Clone for AnthropicMessage {
    fn clone(&self) -> (r: Self)
        ensures
            r == *self,
    {
        AnthropicMessage { role: self.role, content: self.content.clone() }
    }
}

/// One block of a response; this API answers in text blocks.
pub enum ContentBlock {
    Text { text: String },
}

/// Token counts of one call.
#[derive(Clone, Copy)]
pub struct Usage {
    pub input_tokens: usize,
    pub output_tokens: usize,
}

impl Usage {
    /// The total number of tokens consumed.
    pub fn total(&self) -> (r: usize)
        requires
            self.input_tokens + self.output_tokens <= usize::MAX,
        ensures
            r == self.input_tokens + self.output_tokens,
    {
        self.input_tokens + self.output_tokens
    }
}

/// Why the model stopped.
#[derive(Clone, Copy, Debug, PartialEq, Eq, Structural)]
pub enum StopReason {
    EndTurn,
    MaxTokens,
    StopSequence,
    ToolUse,
    Unknown,
}

/// One response of this API.
pub struct MessagesResponse {
    pub id: String,
    pub response_type: String,
    pub role: MessageRole,
    pub content: Vec<ContentBlock>,
    pub model: String,
    pub stop_reason: Option<StopReason>,
    pub usage: Usage,
}

/// The texts of the content blocks, joined in order.
pub open spec fn blocks_text_spec(blocks: Seq<ContentBlock>) -> Seq<char>
    decreases blocks.len(),
{
    if blocks.len() == 0 {
        Seq::empty()
    } else {
        (match blocks[0] {
            ContentBlock::Text { text } => text@,
        }) + blocks_text_spec(blocks.drop_first())
    }
}

impl MessagesResponse {
    /// Joins the text of all content blocks.
    pub fn text_content(&self) -> (r: String)
        ensures
            r@ == blocks_text_spec(self.content@),
    {
        let mut r = String::new();
        let mut i: usize = 0;
        proof {
            lemma_blocks_text_take(self.content@, 0);
        }
        while i < self.content.len()
            invariant
                0 <= i <= self.content@.len(),
                r@ == blocks_text_spec(self.content@.take(i as int)),
            decreases self.content@.len() - i,
        {
            match &self.content[i] {
                ContentBlock::Text { text } => {
                    r.append(text.as_str());
                },
            }
            proof {
                lemma_blocks_text_take(self.content@, i + 1);
            }
            i += 1;
        }
        proof {
            assert(self.content@.take(self.content@.len() as int) =~= self.content@);
        }
        r
    }
}

/// The joined text of the first `n` blocks extends, block by block.
proof fn lemma_blocks_text_take(blocks: Seq<ContentBlock>, n: int)
    requires
        0 <= n <= blocks.len(),
    ensures
        blocks_text_spec(blocks.take(n)) == if n == 0 {
            Seq::<char>::empty()
        } else {
            blocks_text_spec(blocks.take(n - 1)) + (match blocks[n - 1] {
                ContentBlock::Text { text } => text@,
            })
        },
    decreases n,
{
    if n == 0 {
        assert(blocks.take(0) =~= Seq::<ContentBlock>::empty());
    } else if n == 1 {
        assert(blocks.take(1)[0] == blocks[0]);
        assert(blocks.take(1).drop_first() =~= Seq::<ContentBlock>::empty());
        assert(blocks.take(0) =~= Seq::<ContentBlock>::empty());
        assert(blocks_text_spec(blocks.take(1)) =~= blocks_text_spec(blocks.take(0)) + (
        match blocks[0] {
            ContentBlock::Text { text } => text@,
        }));
    } else {
        lemma_blocks_text_take(blocks.drop_first(), n - 1);
        lemma_blocks_text_take(blocks.drop_first(), n - 2);
        assert(blocks.take(n).drop_first() =~= blocks.drop_first().take(n - 1));
        assert(blocks.take(n - 1).drop_first() =~= blocks.drop_first().take(n - 2));
        assert(blocks.take(n)[0] == blocks[0]);
        assert(blocks.take(n - 1)[0] == blocks[0]);
        assert(blocks.drop_first()[n - 2] == blocks[n - 1]);
        assert(blocks_text_spec(blocks.take(n)) =~= blocks_text_spec(blocks.take(n - 1)) + (
        match blocks[n - 1] {
            ContentBlock::Text { text } => text@,
        }));
    }
}

} // verus!
