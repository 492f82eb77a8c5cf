//! The capability contracts the pipeline consumes — search, synthesis,
//! storage — and the error taxonomy they share. Each error kind carries a
//! fixed retryability verdict; the registries base every fallback decision
//! on it.

use vstd::prelude::*;
use vstd::string::StringExecFns;

use crate::answer::ResearchAnswer;
use crate::id::JobId;
use crate::job::JobView;
use crate::job::ResearchJob;
use crate::search::SearchQuery;
use crate::source::clamp_score;
use crate::source::source_wf;
use crate::source::Source;
use crate::strutil::decimal_digits;
use crate::strutil::u64_to_string;

verus! {

/// Why a search call failed.
#[derive(Debug)]
pub enum SearchError {
    /// The provider could not be reached or refused service.
    ProviderUnavailable { provider: String },
    /// The provider rate-limited the caller.
    RateLimited { provider: String },
    /// The call ran out of time.
    Timeout { timeout_secs: u64 },
    /// The provider rejected the query itself.
    InvalidQuery { reason: String },
    /// The network failed.
    Network(String),
    /// The provider reported some other error.
    Provider(String),
}

/// The search error kinds that may be retried against another provider:
/// the transient and capacity kinds.
pub open spec fn search_error_retryable(e: &SearchError) -> bool {
    match e {
        SearchError::ProviderUnavailable { .. } => true,
        SearchError::RateLimited { .. } => true,
        SearchError::Timeout { .. } => true,
        SearchError::Network(_) => true,
        SearchError::InvalidQuery { .. } => false,
        SearchError::Provider(_) => false,
    }
}

/// The human-readable message of a search error.
pub open spec fn search_error_message_spec(e: &SearchError) -> Seq<char> {
    match e {
        SearchError::ProviderUnavailable { provider } => "provider not available: "@ + provider@,
        SearchError::RateLimited { provider } => "rate limited by provider: "@ + provider@,
        SearchError::Timeout { timeout_secs } => "search timeout after "@ + decimal_digits(
            *timeout_secs as nat,
        ) + "s"@,
        SearchError::InvalidQuery { reason } => "invalid query: "@ + reason@,
        SearchError::Network(m) => "network error: "@ + m@,
        SearchError::Provider(m) => "provider error: "@ + m@,
    }
}

impl SearchError {
    /// Whether a fallback provider may be tried after this error.
    pub fn is_retryable(&self) -> (r: bool)
        ensures
            r == search_error_retryable(self),
    {
        matches!(
            self,
            SearchError::ProviderUnavailable { .. } | SearchError::RateLimited { .. }
                | SearchError::Timeout { .. } | SearchError::Network(_)
        )
    }

    /// Renders the error for humans.
    pub fn message(&self) -> (r: String)
        ensures
            r@ == search_error_message_spec(self),
    {
        match self {
            SearchError::ProviderUnavailable { provider } => {
                let mut s = "provider not available: ".to_owned();
                s.append(provider.as_str());
                s
            },
            SearchError::RateLimited { provider } => {
                let mut s = "rate limited by provider: ".to_owned();
                s.append(provider.as_str());
                s
            },
            SearchError::Timeout { timeout_secs } => {
                let mut s = "search timeout after ".to_owned();
                s.append(u64_to_string(*timeout_secs).as_str());
                s.append("s");
                s
            },
            SearchError::InvalidQuery { reason } => {
                let mut s = "invalid query: ".to_owned();
                s.append(reason.as_str());
                s
            },
            SearchError::Network(m) => {
                let mut s = "network error: ".to_owned();
                s.append(m.as_str());
                s
            },
            SearchError::Provider(m) => {
                let mut s = "provider error: ".to_owned();
                s.append(m.as_str());
                s
            },
        }
    }
}

impl Clone for SearchError {
    fn clone(&self) -> (r: Self)
        ensures
            r == *self,
    {
        match self {
            SearchError::ProviderUnavailable { provider } => SearchError::ProviderUnavailable {
                provider: provider.clone(),
            },
            SearchError::RateLimited { provider } => SearchError::RateLimited {
                provider: provider.clone(),
            },
            SearchError::Timeout { timeout_secs } => SearchError::Timeout {
                timeout_secs: *timeout_secs,
            },
            SearchError::InvalidQuery { reason } => SearchError::InvalidQuery {
                reason: reason.clone(),
            },
            SearchError::Network(m) => SearchError::Network(m.clone()),
            SearchError::Provider(m) => SearchError::Provider(m.clone()),
        }
    }
}

/// Why a synthesis call failed.
#[derive(Debug)]
pub enum LlmError {
    /// No provider is registered under the requested model.
    ModelUnavailable { model: String },
    /// The provider rate-limited the caller.
    RateLimited,
    /// The prompt exceeded the model's context window.
    ContextLengthExceeded { max_tokens: usize, got_tokens: usize },
    /// The provider refused the content.
    ContentFiltered { reason: String },
    /// The call ran out of time.
    Timeout { timeout_secs: u64 },
    /// The network failed.
    Network(String),
    /// The provider reported some other error.
    Provider(String),
}

/// The synthesis error kinds that may be retried against a fallback model:
/// the transient and capacity kinds.
pub open spec fn llm_error_retryable(e: &LlmError) -> bool {
    match e {
        LlmError::ModelUnavailable { .. } => true,
        LlmError::RateLimited => true,
        LlmError::Timeout { .. } => true,
        LlmError::Network(_) => true,
        LlmError::ContextLengthExceeded { .. } => false,
        LlmError::ContentFiltered { .. } => false,
        LlmError::Provider(_) => false,
    }
}

/// The human-readable message of a synthesis error.
pub open spec fn llm_error_message_spec(e: &LlmError) -> Seq<char> {
    match e {
        LlmError::ModelUnavailable { model } => "model not available: "@ + model@,
        LlmError::RateLimited => "rate limited by provider"@,
        LlmError::ContextLengthExceeded { max_tokens, got_tokens } => "context length exceeded: "@
            + decimal_digits(*max_tokens as nat) + " tokens max, got "@ + decimal_digits(
            *got_tokens as nat,
        ),
        LlmError::ContentFiltered { reason } => "content filtered: "@ + reason@,
        LlmError::Timeout { timeout_secs } => "synthesis timeout after "@ + decimal_digits(
            *timeout_secs as nat,
        ) + "s"@,
        LlmError::Network(m) => "network error: "@ + m@,
        LlmError::Provider(m) => "provider error: "@ + m@,
    }
}

impl LlmError {
    /// Whether a fallback model may be tried after this error.
    pub fn is_retryable(&self) -> (r: bool)
        ensures
            r == llm_error_retryable(self),
    {
        matches!(
            self,
            LlmError::ModelUnavailable { .. } | LlmError::RateLimited | LlmError::Timeout { .. }
                | LlmError::Network(_)
        )
    }

    /// Renders the error for humans.
    pub fn message(&self) -> (r: String)
        ensures
            r@ == llm_error_message_spec(self),
    {
        match self {
            LlmError::ModelUnavailable { model } => {
                let mut s = "model not available: ".to_owned();
                s.append(model.as_str());
                s
            },
            LlmError::RateLimited => "rate limited by provider".to_owned(),
            LlmError::ContextLengthExceeded { max_tokens, got_tokens } => {
                let mut s = "context length exceeded: ".to_owned();
                s.append(crate::strutil::usize_to_string(*max_tokens).as_str());
                s.append(" tokens max, got ");
                s.append(crate::strutil::usize_to_string(*got_tokens).as_str());
                s
            },
            LlmError::ContentFiltered { reason } => {
                let mut s = "content filtered: ".to_owned();
                s.append(reason.as_str());
                s
            },
            LlmError::Timeout { timeout_secs } => {
                let mut s = "synthesis timeout after ".to_owned();
                s.append(u64_to_string(*timeout_secs).as_str());
                s.append("s");
                s
            },
            LlmError::Network(m) => {
                let mut s = "network error: ".to_owned();
                s.append(m.as_str());
                s
            },
            LlmError::Provider(m) => {
                let mut s = "provider error: ".to_owned();
                s.append(m.as_str());
                s
            },
        }
    }
}

impl Clone for LlmError {
    fn clone(&self) -> (r: Self)
        ensures
            r == *self,
    {
        match self {
            LlmError::ModelUnavailable { model } => LlmError::ModelUnavailable {
                model: model.clone(),
            },
            LlmError::RateLimited => LlmError::RateLimited,
            LlmError::ContextLengthExceeded { max_tokens, got_tokens } => {
                LlmError::ContextLengthExceeded {
                    max_tokens: *max_tokens,
                    got_tokens: *got_tokens,
                }
            },
            LlmError::ContentFiltered { reason } => LlmError::ContentFiltered {
                reason: reason.clone(),
            },
            LlmError::Timeout { timeout_secs } => LlmError::Timeout {
                timeout_secs: *timeout_secs,
            },
            LlmError::Network(m) => LlmError::Network(m.clone()),
            LlmError::Provider(m) => LlmError::Provider(m.clone()),
        }
    }
}

/// Why a storage call failed.
#[derive(Debug)]
pub enum StoreError {
    /// No job is stored under the identifier.
    JobNotFound { id: String },
    /// The store could not be reached.
    Connection(String),
    /// A storage query failed.
    Query(String),
    /// A value could not be encoded or decoded.
    Serialization(String),
    /// The write conflicted with existing state.
    Conflict(String),
}

/// The storage error kinds that may be retried: only a connection failure.
pub open spec fn store_error_retryable(e: &StoreError) -> bool {
    match e {
        StoreError::Connection(_) => true,
        _ => false,
    }
}

/// The human-readable message of a storage error.
pub open spec fn store_error_message_spec(e: &StoreError) -> Seq<char> {
    match e {
        StoreError::JobNotFound { id } => "job not found: "@ + id@,
        StoreError::Connection(m) => "connection failed: "@ + m@,
        StoreError::Query(m) => "query failed: "@ + m@,
        StoreError::Serialization(m) => "serialization failed: "@ + m@,
        StoreError::Conflict(m) => "conflict: "@ + m@,
    }
}

impl StoreError {
    /// Whether the call may be retried after this error.
    pub fn is_retryable(&self) -> (r: bool)
        ensures
            r == store_error_retryable(self),
    {
        matches!(self, StoreError::Connection(_))
    }

    /// Renders the error for humans.
    pub fn message(&self) -> (r: String)
        ensures
            r@ == store_error_message_spec(self),
    {
        match self {
            StoreError::JobNotFound { id } => {
                let mut s = "job not found: ".to_owned();
                s.append(id.as_str());
                s
            },
            StoreError::Connection(m) => {
                let mut s = "connection failed: ".to_owned();
                s.append(m.as_str());
                s
            },
            StoreError::Query(m) => {
                let mut s = "query failed: ".to_owned();
                s.append(m.as_str());
                s
            },
            StoreError::Serialization(m) => {
                let mut s = "serialization failed: ".to_owned();
                s.append(m.as_str());
                s
            },
            StoreError::Conflict(m) => {
                let mut s = "conflict: ".to_owned();
                s.append(m.as_str());
                s
            },
        }
    }
}

/// The operation an error arose in, for error reports.
pub struct ErrorContext {
    pub operation: String,
    pub details: Option<String>,
}

/// The human-readable rendering of an error context.
pub open spec fn error_context_message_spec(c: &ErrorContext) -> Seq<char> {
    match c.details {
        Some(d) => "during "@ + c.operation@ + ": "@ + d@,
        None => "during "@ + c.operation@,
    }
}

impl ErrorContext {
    /// Renders the context for humans.
    pub fn message(&self) -> (r: String)
        ensures
            r@ == error_context_message_spec(self),
    {
        let mut s = "during ".to_owned();
        s.append(self.operation.as_str());
        match &self.details {
            Some(d) => {
                s.append(": ");
                s.append(d.as_str());
            },
            None => {},
        }
        s
    }
}

/// One raw result a search provider returned.
pub struct SearchResult {
    pub url: String,
    pub title: String,
    pub snippet: String,
    pub score: u32,
}

impl SearchResult {
    /// Creates a result with a zero score.
    pub fn new(url: &str, title: &str, snippet: &str) -> (r: SearchResult)
        ensures
            r.url@ == url@,
            r.title@ == title@,
            r.snippet@ == snippet@,
            r.score == 0,
    {
        SearchResult {
            url: url.to_owned(),
            title: title.to_owned(),
            snippet: snippet.to_owned(),
            score: 0,
        }
    }

    /// Records the relevance score, clamped into `0 ..= SCORE_ONE`.
    pub fn with_score(self, score: u32) -> (r: SearchResult)
        ensures
            r.score == clamp_score(score),
            r.url == self.url,
            r.title == self.title,
            r.snippet == self.snippet,
    {
        let clamped = if score > crate::source::SCORE_ONE {
            crate::source::SCORE_ONE
        } else {
            score
        };
        SearchResult { score: clamped, ..self }
    }

    /// Turns the result into a source carrying the given content and the
    /// result's score.
    pub fn into_source(self, content: String) -> (r: Source)
        ensures
            r.url@ == self.url@,
            r.title@ == self.title@,
            r.content@ == content@,
            r.relevance_score == clamp_score(self.score),
            source_wf(&r),
    {
        Source::new(self.url.as_str(), self.title.as_str(), content.as_str())
            .with_relevance_score(self.score)
    }
}

impl Clone for SearchResult {
    fn clone(&self) -> (r: Self)
        ensures
            r == *self,
    {
        SearchResult {
            url: self.url.clone(),
            title: self.title.clone(),
            snippet: self.snippet.clone(),
            score: self.score,
        }
    }
}

/// The search capability: one call per query, many vendors behind it.
pub trait SearchProvider {
    /// Runs one search query.
    fn search(&mut self, query: &SearchQuery) -> Result<Vec<SearchResult>, SearchError>;

    /// The identifier of this provider.
    fn provider_id(&self) -> &str;

    /// Whether the provider honors the recency filter. Unsupported filters
    /// are ignored, never rejected.
    fn supports_recency_filter(&self) -> bool;

    /// Whether the provider honors the domain filters. Unsupported filters
    /// are ignored, never rejected.
    fn supports_domain_filter(&self) -> bool;
}

/// The synthesis capability: one call per answer, many vendors behind it.
pub trait LlmProvider {
    /// Synthesizes a cited answer for the query from the sources.
    fn synthesize(&mut self, query: &str, sources: &Vec<Source>) -> Result<
        ResearchAnswer,
        LlmError,
    >;

    /// The identifier of the model this provider answers with.
    fn model_id(&self) -> &str;

    /// The name of the vendor behind this provider.
    fn provider_name(&self) -> &str;

    /// The size of the model's context window, in tokens.
    fn max_context_tokens(&self) -> usize;

    /// Whether the provider can stream tokens.
    fn supports_streaming(&self) -> bool;
}

/// The storage capability. The two spec functions give the stored state:
/// jobs and source lists, each keyed by job identifier.
pub trait Store {
    /// The stored jobs, keyed by identifier.
    spec fn jobs(&self) -> Map<Seq<char>, JobView>;

    /// The stored source lists, keyed by job identifier.
    spec fn sources(&self) -> Map<Seq<char>, Seq<Source>>;

    /// Stores a new job. A duplicate identifier is a conflict.
    fn create_job(&mut self, job: &ResearchJob) -> (r: Result<(), StoreError>)
        ensures
            old(self).jobs().contains_key(job.id@) ==> (r matches Err(e) && e is Conflict),
            r is Ok ==> !old(self).jobs().contains_key(job.id@) && final(self).jobs() == old(
                self,
            ).jobs().insert(job.id@, job@) && final(self).sources() == old(self).sources(),
            r is Err ==> final(self).jobs() == old(self).jobs() && final(self).sources() == old(
                self,
            ).sources(),
    ;

    /// Reads a job back, or `None` when the identifier is unknown.
    fn get_job(&self, id: &JobId) -> (r: Result<Option<ResearchJob>, StoreError>)
        ensures
            r matches Ok(found) ==> match found {
                Some(job) => self.jobs().contains_key(id@) && job@ == self.jobs()[id@],
                None => !self.jobs().contains_key(id@),
            },
    ;

    /// Replaces a stored job. An unknown identifier is not found.
    fn update_job(&mut self, job: &ResearchJob) -> (r: Result<(), StoreError>)
        ensures
            !old(self).jobs().contains_key(job.id@) ==> (r matches Err(e) && e is JobNotFound),
            r is Ok ==> old(self).jobs().contains_key(job.id@) && final(self).jobs() == old(
                self,
            ).jobs().insert(job.id@, job@) && final(self).sources() == old(self).sources(),
            r is Err ==> final(self).jobs() == old(self).jobs() && final(self).sources() == old(
                self,
            ).sources(),
    ;

    /// Lists stored jobs, newest first, `limit` at a time from `offset`.
    fn list_jobs(&self, limit: usize, offset: usize) -> (r: Result<Vec<ResearchJob>, StoreError>)
        ensures
            r matches Ok(jobs) ==> jobs@.len() == vstd::math::min(
                limit as int,
                vstd::math::max(0int, self.jobs().dom().len() as int - offset as int),
            ) && forall|i: int|
                0 <= i < jobs@.len() ==> self.jobs().contains_key(#[trigger] jobs@[i].id@)
                    && jobs@[i]@ == self.jobs()[jobs@[i].id@],
            r matches Ok(jobs) ==> forall|i: int, j: int|
                0 <= i < j < jobs@.len() ==> #[trigger] jobs@[i].created_at
                    >= #[trigger] jobs@[j].created_at,
    ;

    /// Replaces the source list of a job wholesale.
    fn store_sources(&mut self, job_id: &JobId, sources: &Vec<Source>) -> (r: Result<
        (),
        StoreError,
    >)
        ensures
            r is Ok ==> final(self).sources() == old(self).sources().insert(job_id@, sources@)
                && final(self).jobs() == old(self).jobs(),
            r is Err ==> final(self).jobs() == old(self).jobs() && final(self).sources() == old(
                self,
            ).sources(),
    ;

    /// Reads the source list of a job; an unknown identifier yields the
    /// empty list.
    fn get_sources(&self, job_id: &JobId) -> (r: Result<Vec<Source>, StoreError>)
        ensures
            r matches Ok(sources) ==> if self.sources().contains_key(job_id@) {
                sources@ == self.sources()[job_id@]
            } else {
                sources@.len() == 0
            },
    ;
}

} // verus!
