//! Search planning values: queries, filters, providers and the plan itself.

use vstd::prelude::*;

use crate::strutil::clone_strings;

verus! {

/// How recent the results should be.
#[derive(Clone, Copy, Debug, PartialEq, Eq, Structural)]
pub enum Recency {
    Day,
    Week,
    Month,
    Year,
    Any,
}

/// What kind of content the caller prefers.
#[derive(Clone, Copy, Debug, PartialEq, Eq, Structural)]
pub enum ContentType {
    News,
    Academic,
    General,
    Blog,
    Forum,
}

/// Optional filters a search query carries. Providers that do not support a
/// filter ignore it silently.
pub struct SearchFilters {
    pub recency: Option<Recency>,
    pub include_domains: Option<Vec<String>>,
    pub exclude_domains: Option<Vec<String>>,
    pub content_type: Option<ContentType>,
}

/// Filters with nothing set.
pub open spec fn spec_empty_filters(f: &SearchFilters) -> bool {
    f.recency is None && f.include_domains is None && f.exclude_domains is None
        && f.content_type is None
}

impl SearchFilters {
    /// Creates filters with nothing set.
    pub fn new() -> (r: SearchFilters)
        ensures
            spec_empty_filters(&r),
    {
        SearchFilters {
            recency: None,
            include_domains: None,
            exclude_domains: None,
            content_type: None,
        }
    }

    /// Sets the recency filter.
    pub fn with_recency(self, recency: Recency) -> (r: SearchFilters)
        ensures
            r.recency == Some(recency),
            r.include_domains == self.include_domains,
            r.exclude_domains == self.exclude_domains,
            r.content_type == self.content_type,
    {
        SearchFilters { recency: Some(recency), ..self }
    }

    /// Restricts results to the given domains.
    pub fn include_domains(self, domains: Vec<String>) -> (r: SearchFilters)
        ensures
            r.include_domains == Some(domains),
            r.recency == self.recency,
            r.exclude_domains == self.exclude_domains,
            r.content_type == self.content_type,
    {
        SearchFilters { include_domains: Some(domains), ..self }
    }

    /// Excludes results from the given domains.
    pub fn exclude_domains(self, domains: Vec<String>) -> (r: SearchFilters)
        ensures
            r.exclude_domains == Some(domains),
            r.recency == self.recency,
            r.include_domains == self.include_domains,
            r.content_type == self.content_type,
    {
        SearchFilters { exclude_domains: Some(domains), ..self }
    }

    /// Sets the preferred content type.
    pub fn with_content_type(self, content_type: ContentType) -> (r: SearchFilters)
        ensures
            r.content_type == Some(content_type),
            r.recency == self.recency,
            r.include_domains == self.include_domains,
            r.exclude_domains == self.exclude_domains,
    {
        SearchFilters { content_type: Some(content_type), ..self }
    }
}

impl Default for SearchFilters {
    fn default() -> (r: SearchFilters)
        ensures
            spec_empty_filters(&r),
    {
        SearchFilters::new()
    }
}

/// Two filter sets agree field by field; the domain lists agree element by
/// element.
pub open spec fn filters_equiv(a: &SearchFilters, b: &SearchFilters) -> bool {
    a.recency == b.recency && a.content_type == b.content_type && (a.include_domains is Some
        <==> b.include_domains is Some) && (a.include_domains matches Some(x)
        ==> b.include_domains matches Some(y) && x@ == y@) && (a.exclude_domains is Some
        <==> b.exclude_domains is Some) && (a.exclude_domains matches Some(x)
        ==> b.exclude_domains matches Some(y) && x@ == y@)
}

impl Clone for SearchFilters {
    fn clone(&self) -> (r: Self)
        ensures
            filters_equiv(&r, self),
    {
        SearchFilters {
            recency: self.recency,
            include_domains: match &self.include_domains {
                Some(d) => Some(clone_strings(d)),
                None => None,
            },
            exclude_domains: match &self.exclude_domains {
                Some(d) => Some(clone_strings(d)),
                None => None,
            },
            content_type: self.content_type,
        }
    }
}

/// One query text with its filters.
pub struct SearchQuery {
    pub text: String,
    pub filters: SearchFilters,
}

impl SearchQuery {
    /// Creates a query with empty filters.
    pub fn new(text: &str) -> (r: SearchQuery)
        ensures
            r.text@ == text@,
            spec_empty_filters(&r.filters),
    {
        SearchQuery { text: text.to_owned(), filters: SearchFilters::new() }
    }

    /// Replaces the filters.
    pub fn with_filters(self, filters: SearchFilters) -> (r: SearchQuery)
        ensures
            r.text == self.text,
            r.filters == filters,
    {
        SearchQuery { filters, ..self }
    }
}

/// Two queries agree in text and filters.
pub open spec fn query_equiv(a: &SearchQuery, b: &SearchQuery) -> bool {
    a.text == b.text && filters_equiv(&a.filters, &b.filters)
}

impl Clone for SearchQuery {
    fn clone(&self) -> (r: Self)
        ensures
            query_equiv(&r, self),
    {
        SearchQuery { text: self.text.clone(), filters: self.filters.clone() }
    }
}

/// The identifier of a search provider.
pub struct ProviderId(pub String);

impl ProviderId {
    /// Creates a provider identifier.
    pub fn new(id: &str) -> (r: ProviderId)
        ensures
            r.0@ == id@,
    {
        ProviderId(id.to_owned())
    }

    /// The identifier as a string slice.
    pub fn as_str(&self) -> (r: &str)
        ensures
            r@ == self.0@,
    {
        self.0.as_str()
    }
}

impl Clone for ProviderId {
    fn clone(&self) -> (r: Self)
        ensures
            r == *self,
    {
        ProviderId(self.0.clone())
    }
}

impl PartialEq for ProviderId {
    fn eq(&self, other: &ProviderId) -> (r: bool) {
        self.0 == other.0
    }
}

impl vstd::std_specs::cmp::PartialEqSpecImpl for ProviderId {
    open spec fn obeys_eq_spec() -> bool {
        true
    }

    open spec fn eq_spec(&self, other: &ProviderId) -> bool {
        self.0@ == other.0@
    }
}

/// How many sources an execution keeps unless configured otherwise.
pub const DEFAULT_MAX_SOURCES: usize = 10;

/// How many seconds a search call may take unless configured otherwise.
pub const DEFAULT_TIMEOUT_SECS: u64 = 30;

/// One search execution: the query texts, the providers to ask in order,
/// how many sources to keep, and a timeout in seconds.
pub struct SearchPlan {
    pub queries: Vec<SearchQuery>,
    pub providers: Vec<ProviderId>,
    pub max_sources: usize,
    pub timeout_secs: u64,
}

impl SearchPlan {
    /// Creates a plan with the default source bound and timeout.
    pub fn new(queries: Vec<SearchQuery>, providers: Vec<ProviderId>) -> (r: SearchPlan)
        ensures
            r.queries == queries,
            r.providers == providers,
            r.max_sources == DEFAULT_MAX_SOURCES,
            r.timeout_secs == DEFAULT_TIMEOUT_SECS,
    {
        SearchPlan {
            queries,
            providers,
            max_sources: DEFAULT_MAX_SOURCES,
            timeout_secs: DEFAULT_TIMEOUT_SECS,
        }
    }

    /// Bounds how many sources the execution keeps.
    pub fn with_max_sources(self, max: usize) -> (r: SearchPlan)
        ensures
            r.max_sources == max,
            r.queries == self.queries,
            r.providers == self.providers,
            r.timeout_secs == self.timeout_secs,
    {
        SearchPlan { max_sources: max, ..self }
    }

    /// Sets the timeout, in seconds.
    pub fn with_timeout(self, timeout_secs: u64) -> (r: SearchPlan)
        ensures
            r.timeout_secs == timeout_secs,
            r.queries == self.queries,
            r.providers == self.providers,
            r.max_sources == self.max_sources,
    {
        SearchPlan { timeout_secs, ..self }
    }
}

} // verus!
