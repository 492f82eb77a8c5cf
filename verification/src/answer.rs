//! The synthesized answer: summary, detail, citations, confidence and
//! synthesis metadata.

use vstd::prelude::*;

use crate::id::SourceId;
use crate::strutil::clone_strings;

verus! {

/// How confident the synthesis stage is in its answer.
#[derive(Clone, Copy, Debug, PartialEq, Eq, Structural)]
pub enum Confidence {
    High,
    Medium,
    Low,
    Insufficient,
}

/// One claim of the answer, bound to the source that supports it.
pub struct Citation {
    pub claim: String,
    pub source_id: SourceId,
    pub quote: Option<String>,
}

/// The mathematical value of a citation.
pub ghost struct CitationView {
    pub claim: Seq<char>,
    pub source_id: Seq<char>,
    pub quote: Option<Seq<char>>,
}

impl View for Citation {
    type V = CitationView;

    open spec fn view(&self) -> CitationView {
        CitationView {
            claim: self.claim@,
            source_id: self.source_id@,
            quote: match self.quote {
                Some(q) => Some(q@),
                None => None,
            },
        }
    }
}

impl Citation {
    /// Creates a citation without a quote.
    pub fn new(claim: &str, source_id: SourceId) -> (r: Citation)
        ensures
            r.claim@ == claim@,
            r.source_id == source_id,
            r.quote is None,
    {
        Citation { claim: claim.to_owned(), source_id, quote: None }
    }

    /// Attaches a direct quote from the source.
    pub fn with_quote(self, quote: &str) -> (r: Citation)
        ensures
            r.claim == self.claim,
            r.source_id == self.source_id,
            r.quote matches Some(q) && q@ == quote@,
    {
        Citation { quote: Some(quote.to_owned()), ..self }
    }
}

impl Clone for Citation {
    fn clone(&self) -> (r: Self)
        ensures
            r == *self,
    {
        Citation {
            claim: self.claim.clone(),
            source_id: self.source_id.clone(),
            quote: match &self.quote {
                Some(q) => Some(q.clone()),
                None => None,
            },
        }
    }
}

/// Facts about one synthesis call: the model used, tokens spent, duration.
pub struct SynthesisMetadata {
    pub model: String,
    pub tokens_used: usize,
    pub synthesis_duration_ms: u64,
}

impl SynthesisMetadata {
    /// Creates metadata for the given model with zero counters.
    pub fn new(model: &str) -> (r: SynthesisMetadata)
        ensures
            r.model@ == model@,
            r.tokens_used == 0,
            r.synthesis_duration_ms == 0,
    {
        SynthesisMetadata { model: model.to_owned(), tokens_used: 0, synthesis_duration_ms: 0 }
    }

    /// Records the number of tokens the call used.
    pub fn with_tokens_used(self, tokens: usize) -> (r: SynthesisMetadata)
        ensures
            r.model == self.model,
            r.tokens_used == tokens,
            r.synthesis_duration_ms == self.synthesis_duration_ms,
    {
        SynthesisMetadata { tokens_used: tokens, ..self }
    }

    /// Records how long the call took, in milliseconds.
    pub fn with_duration(self, duration_ms: u64) -> (r: SynthesisMetadata)
        ensures
            r.model == self.model,
            r.tokens_used == self.tokens_used,
            r.synthesis_duration_ms == duration_ms,
    {
        SynthesisMetadata { synthesis_duration_ms: duration_ms, ..self }
    }
}

impl Clone for SynthesisMetadata {
    fn clone(&self) -> (r: Self)
        ensures
            r == *self,
    {
        SynthesisMetadata {
            model: self.model.clone(),
            tokens_used: self.tokens_used,
            synthesis_duration_ms: self.synthesis_duration_ms,
        }
    }
}

/// The answer the pipeline returns for one research job.
pub struct ResearchAnswer {
    pub summary: String,
    pub detail: String,
    pub citations: Vec<Citation>,
    pub confidence: Confidence,
    pub limitations: Vec<String>,
    pub synthesis_metadata: SynthesisMetadata,
}

/// An answer may be presented as a direct answer unless its confidence is
/// `Insufficient`.
pub open spec fn spec_is_answerable(a: &ResearchAnswer) -> bool {
    !(a.confidence is Insufficient)
}

impl ResearchAnswer {
    /// Creates an answer without citations or limitations.
    pub fn new(summary: &str, detail: &str, confidence: Confidence, model: &str) -> (r:
        ResearchAnswer)
        ensures
            r.summary@ == summary@,
            r.detail@ == detail@,
            r.citations@.len() == 0,
            r.confidence == confidence,
            r.limitations@.len() == 0,
            r.synthesis_metadata.model@ == model@,
            r.synthesis_metadata.tokens_used == 0,
            r.synthesis_metadata.synthesis_duration_ms == 0,
    {
        ResearchAnswer {
            summary: summary.to_owned(),
            detail: detail.to_owned(),
            citations: Vec::new(),
            confidence,
            limitations: Vec::new(),
            synthesis_metadata: SynthesisMetadata::new(model),
        }
    }

    /// Replaces the citation list.
    pub fn with_citations(self, citations: Vec<Citation>) -> (r: ResearchAnswer)
        ensures
            r == (ResearchAnswer { citations, ..self }),
    {
        ResearchAnswer { citations, ..self }
    }

    /// Appends one citation.
    pub fn add_citation(&mut self, citation: Citation)
        ensures
            final(self).citations@ == old(self).citations@.push(citation),
            final(self).summary == old(self).summary,
            final(self).detail == old(self).detail,
            final(self).confidence == old(self).confidence,
            final(self).limitations == old(self).limitations,
            final(self).synthesis_metadata == old(self).synthesis_metadata,
    {
        self.citations.push(citation);
    }

    /// Replaces the limitation list.
    pub fn with_limitations(self, limitations: Vec<String>) -> (r: ResearchAnswer)
        ensures
            r == (ResearchAnswer { limitations, ..self }),
    {
        ResearchAnswer { limitations, ..self }
    }

    /// Appends one limitation.
    pub fn add_limitation(&mut self, limitation: &str)
        ensures
            final(self).limitations@.len() == old(self).limitations@.len() + 1,
            final(self).limitations@.last()@ == limitation@,
            final(self).limitations@.take(old(self).limitations@.len() as int) == old(
                self,
            ).limitations@,
            final(self).summary == old(self).summary,
            final(self).detail == old(self).detail,
            final(self).citations == old(self).citations,
            final(self).confidence == old(self).confidence,
            final(self).synthesis_metadata == old(self).synthesis_metadata,
    {
        self.limitations.push(limitation.to_owned());
        assert(self.limitations@.take(old(self).limitations@.len() as int) =~= old(
            self,
        ).limitations@);
    }

    /// Replaces the synthesis metadata.
    pub fn with_metadata(self, metadata: SynthesisMetadata) -> (r: ResearchAnswer)
        ensures
            r == (ResearchAnswer { synthesis_metadata: metadata, ..self }),
    {
        ResearchAnswer { synthesis_metadata: metadata, ..self }
    }

    /// Whether the answer can be presented as a direct answer.
    pub fn is_answerable(&self) -> (r: bool)
        ensures
            r == spec_is_answerable(self),
    {
        !matches!(self.confidence, Confidence::Insufficient)
    }
}

/// Two answers agree field by field; the vectors agree element by element.
pub open spec fn answer_equiv(a: &ResearchAnswer, b: &ResearchAnswer) -> bool {
    a.summary == b.summary && a.detail == b.detail && a.citations@ == b.citations@ && a.confidence
        == b.confidence && a.limitations@ == b.limitations@ && a.synthesis_metadata
        == b.synthesis_metadata
}

impl Clone for ResearchAnswer {
    fn clone(&self) -> (r: Self)
        ensures
            answer_equiv(&r, self),
    {
        let mut citations: Vec<Citation> = Vec::new();
        let mut i: usize = 0;
        while i < self.citations.len()
            invariant
                0 <= i <= self.citations@.len(),
                citations@ =~= self.citations@.take(i as int),
            decreases self.citations@.len() - i,
        {
            citations.push(self.citations[i].clone());
            assert(citations@ =~= self.citations@.take(i + 1));
            i += 1;
        }
        assert(citations@ =~= self.citations@);
        ResearchAnswer {
            summary: self.summary.clone(),
            detail: self.detail.clone(),
            citations,
            confidence: self.confidence,
            limitations: clone_strings(&self.limitations),
            synthesis_metadata: self.synthesis_metadata.clone(),
        }
    }
}

} // verus!
