//! A search provider that walks a provider list in priority order: it stops
//! at the first success, continues past retryable failures, stops at once
//! on a non-retryable one, and reports the last error when every provider
//! failed.

use vstd::prelude::*;

use crate::caps::SearchError;
use crate::caps::SearchProvider;
use crate::caps::SearchResult;
use crate::search::SearchQuery;

verus! {

/// Tries providers in priority order, once each, for the same query.
pub struct FallbackSearchProvider<P> {
    providers: Vec<P>,
}

impl<P: SearchProvider> FallbackSearchProvider<P> {
    /// How many providers the list holds.
    pub closed spec fn spec_len(&self) -> int {
        self.providers@.len() as int
    }

    /// Creates a fallback provider over an ordered provider list.
    pub fn new(providers: Vec<P>) -> (r: FallbackSearchProvider<P>)
        ensures
            r.spec_len() == providers@.len(),
    {
        FallbackSearchProvider { providers }
    }
}

impl<P: SearchProvider> SearchProvider for FallbackSearchProvider<P> {
    fn search(&mut self, query: &SearchQuery) -> (r: Result<Vec<SearchResult>, SearchError>)
        ensures
            final(self).spec_len() == old(self).spec_len(),
            old(self).spec_len() == 0 ==> (r matches Err(e) && e matches
                SearchError::ProviderUnavailable { provider } && provider@ == "none"@),
    {
        if self.providers.len() == 0 {
            return Err(SearchError::ProviderUnavailable { provider: "none".to_owned() });
        }
        let mut last_error: Option<SearchError> = None;
        let mut i: usize = 0;
        let n = self.providers.len();
        while i < n
            invariant
                0 <= i <= n,
                n == self.providers@.len(),
                self.providers@.len() == old(self).providers@.len(),
                i > 0 ==> last_error is Some,
            decreases n - i,
        {
            match self.providers[i].search(query) {
                Ok(results) => {
                    return Ok(results);
                },
                Err(e) => {
                    if e.is_retryable() {
                        last_error = Some(e);
                    } else {
                        return Err(e);
                    }
                },
            }
            i += 1;
        }
        match last_error {
            Some(e) => Err(e),
            None => Err(SearchError::ProviderUnavailable { provider: "all".to_owned() }),
        }
    }

    fn provider_id(&self) -> &str {
        "fallback"
    }

    fn supports_recency_filter(&self) -> bool {
        if self.providers.len() == 0 {
            false
        } else {
            self.providers[0].supports_recency_filter()
        }
    }

    fn supports_domain_filter(&self) -> bool {
        if self.providers.len() == 0 {
            false
        } else {
            self.providers[0].supports_domain_filter()
        }
    }
}

} // verus!
