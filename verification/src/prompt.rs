//! Prompt construction for answer synthesis: the fixed system instruction
//! and the user message that enumerates the sources; and rough token
//! estimates for sizing prompts.

use vstd::prelude::*;
use vstd::string::StringExecFns;
use vstd::string::StringSliceAdditionalSpecFns;

use crate::llm_types::Message;
use crate::llm_types::Role;
use crate::source::Source;

verus! {

/// The fixed system instruction for answer synthesis: answer only from the
/// provided sources, cite every claim with a source-id tag, surface
/// disagreement, declare insufficiency, and reply as a single JSON object
/// with exactly the expected fields.
pub const SYNTHESIS_SYSTEM_PROMPT: &'static str = r#"You are a research assistant that synthesizes information from multiple sources to answer questions accurately and with citations.

Your task is to analyze the provided sources and create a well-researched answer.

Guidelines:
1. ONLY use information from the provided sources - never make up facts
2. ALWAYS cite your sources using [source_id] format for each claim
3. If sources conflict, acknowledge the disagreement and present both views
4. If sources are insufficient to answer the question, say so clearly
5. Be concise but thorough - prioritize accuracy over brevity

Response format (JSON):
{
  "summary": "A 1-2 sentence direct answer to the question",
  "detail": "A detailed explanation with inline citations [src_xxx]",
  "citations": [
    {"claim": "Specific claim made", "source_id": "src_xxx", "quote": "Optional direct quote from source"}
  ],
  "confidence": "high|medium|low|insufficient",
  "limitations": ["Any caveats or limitations about the answer"]
}"#;

/// How one source is written into the prompt: its identifier in brackets,
/// its title, its URL and its content.
pub open spec fn source_block_spec(s: Source) -> Seq<char> {
    "["@ + s.id@ + "] "@ + s.title@ + "\nURL: "@ + s.url@ + "\nContent:\n"@ + s.content@ + "\n"@
}

/// The source blocks joined by a separator line.
pub open spec fn format_sources_spec(sources: Seq<Source>) -> Seq<char>
    decreases sources.len(),
{
    if sources.len() == 0 {
        Seq::empty()
    } else if sources.len() == 1 {
        source_block_spec(sources[0])
    } else {
        source_block_spec(sources[0]) + "\n---\n"@ + format_sources_spec(sources.drop_first())
    }
}

/// The user message for one synthesis call: the question, the sources, and
/// the instruction to answer in the JSON format.
pub open spec fn user_prompt_spec(query: Seq<char>, sources: Seq<Source>) -> Seq<char> {
    "Question: "@ + query + "\n\nSources:\n"@ + format_sources_spec(sources)
        + "\n\nProvide your analysis in the specified JSON format."@
}

/// Writes one source into prompt form.
fn source_block(s: &Source) -> (r: String)
    ensures
        r@ == source_block_spec(*s),
{
    let mut text = "[".to_owned();
    text.append(s.id.as_str());
    text.append("] ");
    text.append(s.title.as_str());
    text.append("\nURL: ");
    text.append(s.url.as_str());
    text.append("\nContent:\n");
    text.append(s.content.as_str());
    text.append("\n");
    text
}

/// Writes the sources from position `from` on into prompt form.
fn format_sources_from(sources: &Vec<Source>, from: usize) -> (r: String)
    requires
        from <= sources@.len(),
    ensures
        r@ == format_sources_spec(sources@.skip(from as int)),
    decreases sources@.len() - from,
{
    proof {
        if from < sources@.len() {
            assert(sources@.skip(from as int)[0] == sources@[from as int]);
            assert(sources@.skip(from as int).drop_first() =~= sources@.skip(from + 1));
        }
    }
    if from == sources.len() {
        let r = String::new();
        assert(r@ =~= format_sources_spec(sources@.skip(from as int)));
        r
    } else {
        let mut text = source_block(&sources[from]);
        if from + 1 < sources.len() {
            text.append("\n---\n");
            let rest = format_sources_from(sources, from + 1);
            text.append(rest.as_str());
        }
        text
    }
}

/// Writes all sources into prompt form, separated by rule lines.
pub fn format_sources(sources: &Vec<Source>) -> (r: String)
    ensures
        r@ == format_sources_spec(sources@),
{
    let r = format_sources_from(sources, 0);
    proof {
        assert(sources@.skip(0) =~= sources@);
    }
    r
}

/// Builds the two-message synthesis prompt: the fixed system instruction,
/// then a user message naming the question and enumerating the sources.
pub fn build_synthesis_messages(query: &str, sources: &Vec<Source>) -> (r: Vec<Message>)
    ensures
        r@.len() == 2,
        r@[0].role == Role::System,
        r@[0].content@ == SYNTHESIS_SYSTEM_PROMPT@,
        r@[1].role == Role::User,
        r@[1].content@ == user_prompt_spec(query@, sources@),
{
    let sources_text = format_sources(sources);
    let mut user_prompt = "Question: ".to_owned();
    user_prompt.append(query);
    user_prompt.append("\n\nSources:\n");
    user_prompt.append(sources_text.as_str());
    user_prompt.append("\n\nProvide your analysis in the specified JSON format.");
    let mut messages: Vec<Message> = Vec::new();
    messages.push(Message::system(SYNTHESIS_SYSTEM_PROMPT));
    messages.push(Message { role: Role::User, content: user_prompt });
    messages
}

/// A rough token estimate for a text: one token per four characters.
pub fn estimate_token_count(text: &str) -> (r: usize)
    ensures
        r == (text@.len() as int) / 4,
{
    text.unicode_len() / 4
}

/// The token estimate of a message list from position `from` on: each
/// message estimates as its text plus an overhead of four.
pub open spec fn messages_estimate_spec(messages: Seq<Message>) -> int
    decreases messages.len(),
{
    if messages.len() == 0 {
        0int
    } else {
        (messages[0].content@.len() as int) / 4 + 4 + messages_estimate_spec(
            messages.drop_first(),
        )
    }
}

/// Estimates the messages from position `from` on, saturating at the
/// largest machine value.
fn estimate_messages_from(messages: &Vec<Message>, from: usize) -> (r: usize)
    requires
        from <= messages@.len(),
    ensures
        r == vstd::math::min(
            messages_estimate_spec(messages@.skip(from as int)),
            usize::MAX as int,
        ),
    decreases messages@.len() - from,
{
    proof {
        if from < messages@.len() {
            assert(messages@.skip(from as int)[0] == messages@[from as int]);
            assert(messages@.skip(from as int).drop_first() =~= messages@.skip(from + 1));
        }
    }
    if from == messages.len() {
        0
    } else {
        let head = messages[from].content.as_str().unicode_len() / 4;
        let rest = estimate_messages_from(messages, from + 1);
        head.saturating_add(4).saturating_add(rest)
    }
}

/// Estimates the tokens of a whole message list: one token per four
/// characters of each message, plus an overhead of four per message,
/// saturating at the largest machine value.
pub fn estimate_messages_tokens(messages: &Vec<Message>) -> (r: usize)
    ensures
        r == vstd::math::min(messages_estimate_spec(messages@), usize::MAX as int),
{
    let r = estimate_messages_from(messages, 0);
    proof {
        assert(messages@.skip(0) =~= messages@);
    }
    r
}

} // verus!
