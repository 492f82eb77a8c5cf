//! Query planning: turns the job's query text into a search plan.

use vstd::prelude::*;

use crate::search::ProviderId;
use crate::search::SearchPlan;
use crate::search::SearchQuery;
use crate::search::spec_empty_filters;
use crate::search::DEFAULT_MAX_SOURCES;
use crate::search::DEFAULT_TIMEOUT_SECS;
use crate::strutil::clone_strings;

verus! {

/// How the planner builds plans.
pub struct PlannerConfig {
    /// The most query texts one plan may carry.
    pub max_queries: usize,
    /// The providers every plan names, in fallback order.
    pub default_providers: Vec<String>,
}

impl Default for PlannerConfig {
    /// At most three queries, against the first-choice provider.
    fn default() -> (r: PlannerConfig)
        ensures
            r.max_queries == 3,
            r.default_providers@.len() == 1,
            r.default_providers@[0]@ == "tavily"@,
    {
        let mut default_providers: Vec<String> = Vec::new();
        default_providers.push("tavily".to_owned());
        PlannerConfig { max_queries: 3, default_providers }
    }
}

impl Clone for PlannerConfig {
    fn clone(&self) -> (r: Self)
        ensures
            r.max_queries == self.max_queries,
            r.default_providers@ == self.default_providers@,
    {
        PlannerConfig {
            max_queries: self.max_queries,
            default_providers: clone_strings(&self.default_providers),
        }
    }
}

/// Builds search plans from query texts.
pub struct Planner {
    config: PlannerConfig,
}

impl Planner {
    /// The configuration the planner runs with.
    pub closed spec fn spec_config(&self) -> PlannerConfig {
        self.config
    }

    /// Creates a planner.
    pub fn new(config: PlannerConfig) -> (r: Planner)
        ensures
            r.spec_config() == config,
    {
        Planner { config }
    }

    /// Plans one search: the query as its single text, the configured
    /// providers in order, and the default source bound and timeout.
    pub fn plan(&self, query: &str) -> (r: SearchPlan)
        ensures
            r.queries@.len() == 1,
            r.queries@[0].text@ == query@,
            spec_empty_filters(&r.queries@[0].filters),
            r.providers@.len() == self.spec_config().default_providers@.len(),
            forall|i: int|
                0 <= i < r.providers@.len() ==> (#[trigger] r.providers@[i]).0@
                    == self.spec_config().default_providers@[i]@,
            r.max_sources == DEFAULT_MAX_SOURCES,
            r.timeout_secs == DEFAULT_TIMEOUT_SECS,
    {
        let mut queries: Vec<SearchQuery> = Vec::new();
        queries.push(SearchQuery::new(query));
        let mut providers: Vec<ProviderId> = Vec::new();
        let mut i: usize = 0;
        while i < self.config.default_providers.len()
            invariant
                0 <= i <= self.config.default_providers@.len(),
                providers@.len() == i,
                forall|j: int|
                    0 <= j < i ==> (#[trigger] providers@[j]).0@
                        == self.config.default_providers@[j]@,
            decreases self.config.default_providers@.len() - i,
        {
            providers.push(ProviderId::new(self.config.default_providers[i].as_str()));
            i += 1;
        }
        SearchPlan::new(queries, providers)
    }
}

} // verus!
