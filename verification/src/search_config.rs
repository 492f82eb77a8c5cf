//! Search configuration values: which providers have credentials, and the
//! shared timeout and result bound. Reading the environment happens outside
//! the library; the values live here.

use vstd::prelude::*;

verus! {

/// Why the search configuration was rejected.
pub enum ConfigError {
    /// No provider has a credential or address.
    NoProvidersConfigured,
    /// The metasearch instance address did not parse as a URL.
    InvalidSearxngUrl(String),
    /// Some other value was rejected.
    InvalidValue { name: String, reason: String },
}

/// The search configuration: optional credentials per provider, a timeout
/// and a result bound.
pub struct SearchConfig {
    pub tavily_api_key: Option<String>,
    pub exa_api_key: Option<String>,
    pub searxng_url: Option<String>,
    pub timeout_secs: u64,
    pub max_results: usize,
}

impl SearchConfig {
    /// Whether the first vendor has a credential.
    pub fn has_tavily(&self) -> (r: bool)
        ensures
            r == (self.tavily_api_key is Some),
    {
        self.tavily_api_key.is_some()
    }

    /// Whether the semantic-search vendor has a credential.
    pub fn has_exa(&self) -> (r: bool)
        ensures
            r == (self.exa_api_key is Some),
    {
        self.exa_api_key.is_some()
    }

    /// Whether a metasearch instance is configured.
    pub fn has_searxng(&self) -> (r: bool)
        ensures
            r == (self.searxng_url is Some),
    {
        self.searxng_url.is_some()
    }

    /// The identifiers of the configured providers, in priority order.
    pub fn available_providers(&self) -> (r: Vec<&'static str>)
        ensures
            r@.len() == (if self.tavily_api_key is Some {
                1int
            } else {
                0int
            }) + (if self.exa_api_key is Some {
                1int
            } else {
                0int
            }) + (if self.searxng_url is Some {
                1int
            } else {
                0int
            }),
            self.tavily_api_key is Some ==> r@[0]@ == "tavily"@,
            self.exa_api_key is Some ==> r@[if self.tavily_api_key is Some {
                1int
            } else {
                0int
            }]@ == "exa"@,
            self.searxng_url is Some ==> r@[r@.len() - 1]@ == "searxng"@,
    {
        let mut providers: Vec<&'static str> = Vec::new();
        if self.tavily_api_key.is_some() {
            providers.push("tavily");
        }
        if self.exa_api_key.is_some() {
            providers.push("exa");
        }
        if self.searxng_url.is_some() {
            providers.push("searxng");
        }
        providers
    }
}

impl Default for SearchConfig {
    /// No providers, the default timeout and result bound.
    fn default() -> (r: SearchConfig)
        ensures
            r.tavily_api_key is None,
            r.exa_api_key is None,
            r.searxng_url is None,
            r.timeout_secs == 30,
            r.max_results == 10,
    {
        SearchConfig {
            tavily_api_key: None,
            exa_api_key: None,
            searxng_url: None,
            timeout_secs: 30,
            max_results: 10,
        }
    }
}

} // verus!
