//! Answer synthesis: bounds the context, short-circuits on an empty source
//! list, and otherwise asks the synthesis capability.

use vstd::prelude::*;

use crate::answer::Confidence;
use crate::answer::ResearchAnswer;
use crate::answer::spec_is_answerable;
use crate::caps::LlmError;
use crate::caps::LlmProvider;
use crate::source::clone_sources;
use crate::source::Source;

verus! {

/// How the synthesizer bounds its context.
#[derive(Clone, Copy)]
pub struct SynthesizerConfig {
    /// The most sources one synthesis call may see; the earliest,
    /// highest-ranked sources are kept.
    pub max_context_sources: usize,
}

impl Default for SynthesizerConfig {
    /// At most five sources per call.
    fn default() -> (r: SynthesizerConfig)
        ensures
            r.max_context_sources == 5,
    {
        SynthesizerConfig { max_context_sources: 5 }
    }
}

/// Synthesizes an answer for a query from ranked sources. With no sources
/// at all, synthesis short-circuits to an `Insufficient` answer without
/// invoking the provider; otherwise the provider sees at most
/// `max_context_sources` sources, the earliest kept.
pub fn synthesize_answer<P: LlmProvider>(
    provider: &mut P,
    config: &SynthesizerConfig,
    query: &str,
    sources: &Vec<Source>,
) -> (r: Result<ResearchAnswer, LlmError>)
    ensures
        sources@.len() == 0 ==> *final(provider) == *old(provider) && (r matches Ok(ans)
            && ans.confidence == Confidence::Insufficient && !spec_is_answerable(&ans)
            && ans.citations@.len() == 0),
{
    if sources.len() == 0 {
        return Ok(
            ResearchAnswer::new(
                "Unable to provide an answer without sources.",
                "No sources were provided for analysis.",
                Confidence::Insufficient,
                provider.model_id(),
            ),
        );
    }
    let mut context = clone_sources(sources);
    context.truncate(config.max_context_sources);
    provider.synthesize(query, &context)
}

/// Runs synthesis against one provider.
pub struct Synthesizer<P> {
    provider: P,
    config: SynthesizerConfig,
}

impl<P: LlmProvider> Synthesizer<P> {
    /// The configuration the synthesizer runs with.
    pub closed spec fn spec_config(&self) -> SynthesizerConfig {
        self.config
    }

    /// Creates a synthesizer over a provider.
    pub fn new(provider: P, config: SynthesizerConfig) -> (r: Synthesizer<P>)
        ensures
            r.spec_config() == config,
    {
        Synthesizer { provider, config }
    }

    /// The provider the synthesizer runs against.
    pub fn provider(&self) -> &P {
        &self.provider
    }

    /// Synthesizes an answer; see `synthesize_answer`.
    pub fn synthesize(&mut self, query: &str, sources: &Vec<Source>) -> (r: Result<
        ResearchAnswer,
        LlmError,
    >)
        ensures
            final(self).spec_config() == old(self).spec_config(),
            sources@.len() == 0 ==> *final(self) == *old(self) && (r matches Ok(ans)
                && ans.confidence == Confidence::Insufficient && !spec_is_answerable(&ans)
                && ans.citations@.len() == 0),
    {
        synthesize_answer(&mut self.provider, &self.config, query, sources)
    }
}

} // verus!
