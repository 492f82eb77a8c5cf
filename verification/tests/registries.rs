//! Tests of the two provider registries and their fallback semantics: the
//! one-shot model fallback and the ordered search-provider walk.

use gorkd::answer::{Confidence, ResearchAnswer};
use gorkd::caps::{LlmError, LlmProvider, SearchError, SearchProvider, SearchResult};
use gorkd::fallback::FallbackSearchProvider;
use gorkd::llm_registry::LlmRegistry;
use gorkd::search::SearchQuery;
use gorkd::search_registry::ProviderRegistry;
use gorkd::source::Source;

/// A synthesis provider that answers or fails with one fixed error, and
/// counts its calls.
struct ScriptedLlm {
    model_id: String,
    calls: usize,
    error: Option<LlmError>,
}

impl ScriptedLlm {
    fn new(model_id: &str) -> Self {
        ScriptedLlm {
            model_id: model_id.to_string(),
            calls: 0,
            error: None,
        }
    }

    fn with_error(mut self, error: LlmError) -> Self {
        self.error = Some(error);
        self
    }
}

impl LlmProvider for ScriptedLlm {
    fn synthesize(
        &mut self,
        _query: &str,
        _sources: &Vec<Source>,
    ) -> Result<ResearchAnswer, LlmError> {
        self.calls += 1;
        match &self.error {
            Some(e) => Err(e.clone()),
            None => Ok(ResearchAnswer::new(
                "summary",
                "detail",
                Confidence::High,
                &self.model_id,
            )),
        }
    }

    fn model_id(&self) -> &str {
        &self.model_id
    }

    fn provider_name(&self) -> &str {
        "scripted"
    }

    fn max_context_tokens(&self) -> usize {
        128_000
    }

    fn supports_streaming(&self) -> bool {
        false
    }
}

#[test]
fn creates_empty_registry() {
    let registry: LlmRegistry<ScriptedLlm> = LlmRegistry::new();
    assert!(registry.is_empty());
    assert_eq!(registry.len(), 0);
    assert!(registry.default().is_none());
}

#[test]
fn registers_and_retrieves_provider() {
    let mut registry = LlmRegistry::new();
    registry.register("test-model", ScriptedLlm::new("test-model"));

    assert!(!registry.is_empty());
    assert_eq!(registry.len(), 1);
    assert!(registry.get("test-model").is_some());
    assert!(registry.get("nonexistent").is_none());
}

#[test]
fn first_registered_becomes_default() {
    let mut registry = LlmRegistry::new();
    registry.register("first", ScriptedLlm::new("first"));
    registry.register("second", ScriptedLlm::new("second"));

    assert_eq!(registry.default_model_id().map(|s| s.as_str()), Some("first"));
}

#[test]
fn can_override_default() {
    let mut registry = LlmRegistry::new();
    registry.register("first", ScriptedLlm::new("first"));
    registry.register("second", ScriptedLlm::new("second"));
    registry.set_default("second");

    assert_eq!(
        registry.default_model_id().map(|s| s.as_str()),
        Some("second")
    );
}

#[test]
fn builder_creates_registry() {
    let registry = LlmRegistry::builder()
        .register("model-a", ScriptedLlm::new("model-a"))
        .register("model-b", ScriptedLlm::new("model-b"))
        .default_model("model-b")
        .fallback_model("model-a")
        .build();

    assert_eq!(registry.len(), 2);
    assert_eq!(
        registry.default_model_id().map(|s| s.as_str()),
        Some("model-b")
    );
    assert_eq!(
        registry.fallback_model_id().map(|s| s.as_str()),
        Some("model-a")
    );
}

#[test]
fn lists_available_models() {
    let mut registry = LlmRegistry::new();
    registry.register("alpha", ScriptedLlm::new("alpha"));
    registry.register("beta", ScriptedLlm::new("beta"));

    let models = registry.available_models();
    assert_eq!(models.len(), 2);
    assert!(models.contains(&"alpha".to_string()));
    assert!(models.contains(&"beta".to_string()));
}

#[test]
fn synthesize_uses_specified_model() {
    let mut registry = LlmRegistry::builder()
        .register("primary", ScriptedLlm::new("primary"))
        .register("secondary", ScriptedLlm::new("secondary"))
        .default_model("primary")
        .build();

    let result = registry.synthesize_with_fallback("query", &vec![], Some("secondary"));

    assert!(result.is_ok());
    assert_eq!(registry.get("primary").unwrap().calls, 0);
    assert_eq!(registry.get("secondary").unwrap().calls, 1);
}

#[test]
fn synthesize_uses_default_when_no_model_specified() {
    let mut registry = LlmRegistry::builder()
        .register("primary", ScriptedLlm::new("primary"))
        .default_model("primary")
        .build();

    let result = registry.synthesize_with_fallback("query", &vec![], None);

    assert!(result.is_ok());
    assert_eq!(registry.get("primary").unwrap().calls, 1);
}

#[test]
fn synthesize_falls_back_on_retryable_error() {
    let mut registry = LlmRegistry::builder()
        .register(
            "primary",
            ScriptedLlm::new("primary").with_error(LlmError::RateLimited),
        )
        .register("fallback", ScriptedLlm::new("fallback"))
        .default_model("primary")
        .fallback_model("fallback")
        .build();

    let result = registry.synthesize_with_fallback("query", &vec![], None);

    assert!(result.is_ok());
    assert_eq!(registry.get("primary").unwrap().calls, 1);
    assert_eq!(registry.get("fallback").unwrap().calls, 1);
}

#[test]
fn synthesize_does_not_fallback_on_non_retryable_error() {
    let mut registry = LlmRegistry::builder()
        .register(
            "primary",
            ScriptedLlm::new("primary").with_error(LlmError::ContentFiltered {
                reason: "policy violation".to_string(),
            }),
        )
        .register("fallback", ScriptedLlm::new("fallback"))
        .default_model("primary")
        .fallback_model("fallback")
        .build();

    let result = registry.synthesize_with_fallback("query", &vec![], None);

    assert!(result.is_err());
    assert_eq!(registry.get("primary").unwrap().calls, 1);
    assert_eq!(registry.get("fallback").unwrap().calls, 0);
}

#[test]
fn synthesize_returns_error_when_model_not_found() {
    let mut registry = LlmRegistry::builder()
        .register("existing", ScriptedLlm::new("existing"))
        .build();

    let result = registry.synthesize_with_fallback("query", &vec![], Some("nonexistent"));

    assert!(matches!(result, Err(LlmError::ModelUnavailable { .. })));
}

#[test]
fn synthesize_returns_error_when_no_default() {
    let mut registry: LlmRegistry<ScriptedLlm> = LlmRegistry::new();

    let result = registry.synthesize_with_fallback("query", &vec![], None);

    match result {
        Err(LlmError::ModelUnavailable { model }) => {
            assert_eq!(model, "no default model configured")
        }
        _ => panic!("expected a model-unavailable error"),
    }
}

#[test]
fn fallback_not_used_when_same_as_primary() {
    let mut registry = LlmRegistry::builder()
        .register(
            "same",
            ScriptedLlm::new("same").with_error(LlmError::RateLimited),
        )
        .default_model("same")
        .fallback_model("same")
        .build();

    let result = registry.synthesize_with_fallback("query", &vec![], None);

    assert!(result.is_err());
    assert_eq!(registry.get("same").unwrap().calls, 1);
}

#[test]
fn fallback_on_timeout_error() {
    let mut registry = LlmRegistry::builder()
        .register(
            "primary",
            ScriptedLlm::new("primary").with_error(LlmError::Timeout { timeout_secs: 30 }),
        )
        .register("fallback", ScriptedLlm::new("fallback"))
        .default_model("primary")
        .fallback_model("fallback")
        .build();

    let result = registry.synthesize_with_fallback("query", &vec![], None);

    assert!(result.is_ok());
    assert_eq!(registry.get("fallback").unwrap().calls, 1);
}

#[test]
fn fallback_on_network_error() {
    let mut registry = LlmRegistry::builder()
        .register(
            "primary",
            ScriptedLlm::new("primary").with_error(LlmError::Network("connection refused".into())),
        )
        .register("fallback", ScriptedLlm::new("fallback"))
        .default_model("primary")
        .fallback_model("fallback")
        .build();

    let result = registry.synthesize_with_fallback("query", &vec![], None);

    assert!(result.is_ok());
}

#[test]
fn no_fallback_on_context_length_exceeded() {
    let mut registry = LlmRegistry::builder()
        .register(
            "primary",
            ScriptedLlm::new("primary").with_error(LlmError::ContextLengthExceeded {
                max_tokens: 128000,
                got_tokens: 150000,
            }),
        )
        .register("fallback", ScriptedLlm::new("fallback"))
        .default_model("primary")
        .fallback_model("fallback")
        .build();

    let result = registry.synthesize_with_fallback("query", &vec![], None);

    assert!(result.is_err());
    assert_eq!(registry.get("fallback").unwrap().calls, 0);
}

/// A search provider that always fails with one fixed error.
struct FailingSearch {
    id: String,
    error: SearchError,
    calls: usize,
}

impl FailingSearch {
    fn new(id: &str, error: SearchError) -> Self {
        FailingSearch {
            id: id.to_string(),
            error,
            calls: 0,
        }
    }
}

impl SearchProvider for FailingSearch {
    fn search(&mut self, _query: &SearchQuery) -> Result<Vec<SearchResult>, SearchError> {
        self.calls += 1;
        Err(self.error.clone())
    }

    fn provider_id(&self) -> &str {
        &self.id
    }

    fn supports_recency_filter(&self) -> bool {
        false
    }

    fn supports_domain_filter(&self) -> bool {
        false
    }
}

/// A search provider that always answers with one canned result.
struct SucceedingSearch {
    id: String,
    calls: usize,
}

impl SucceedingSearch {
    fn new(id: &str) -> Self {
        SucceedingSearch {
            id: id.to_string(),
            calls: 0,
        }
    }
}

impl SearchProvider for SucceedingSearch {
    fn search(&mut self, _query: &SearchQuery) -> Result<Vec<SearchResult>, SearchError> {
        self.calls += 1;
        Ok(vec![SearchResult::new(
            "https://example.com",
            "Test",
            "Content",
        )])
    }

    fn provider_id(&self) -> &str {
        &self.id
    }

    fn supports_recency_filter(&self) -> bool {
        false
    }

    fn supports_domain_filter(&self) -> bool {
        false
    }
}

/// Either of the two scripted search providers, so one list can mix them.
enum ScriptedSearch {
    Failing(FailingSearch),
    Succeeding(SucceedingSearch),
}

impl SearchProvider for ScriptedSearch {
    fn search(&mut self, query: &SearchQuery) -> Result<Vec<SearchResult>, SearchError> {
        match self {
            ScriptedSearch::Failing(p) => p.search(query),
            ScriptedSearch::Succeeding(p) => p.search(query),
        }
    }

    fn provider_id(&self) -> &str {
        match self {
            ScriptedSearch::Failing(p) => p.provider_id(),
            ScriptedSearch::Succeeding(p) => p.provider_id(),
        }
    }

    fn supports_recency_filter(&self) -> bool {
        false
    }

    fn supports_domain_filter(&self) -> bool {
        false
    }
}

#[test]
fn returns_error_when_no_providers() {
    let mut fallback: FallbackSearchProvider<ScriptedSearch> = FallbackSearchProvider::new(vec![]);
    let query = SearchQuery::new("test");

    let result = fallback.search(&query);
    assert!(matches!(
        result,
        Err(SearchError::ProviderUnavailable { .. })
    ));
}

#[test]
fn uses_first_provider_on_success() {
    let mut fallback = FallbackSearchProvider::new(vec![
        ScriptedSearch::Succeeding(SucceedingSearch::new("first")),
        ScriptedSearch::Succeeding(SucceedingSearch::new("second")),
    ]);
    let query = SearchQuery::new("test");

    let result = fallback.search(&query).unwrap();
    assert_eq!(result.len(), 1);
}

#[test]
fn falls_back_on_retryable_error() {
    let mut fallback = FallbackSearchProvider::new(vec![
        ScriptedSearch::Failing(FailingSearch::new(
            "first",
            SearchError::RateLimited {
                provider: "first".to_string(),
            },
        )),
        ScriptedSearch::Succeeding(SucceedingSearch::new("second")),
    ]);
    let query = SearchQuery::new("test");

    let result = fallback.search(&query).unwrap();
    assert_eq!(result.len(), 1);
}

#[test]
fn stops_on_non_retryable_error() {
    let mut fallback = FallbackSearchProvider::new(vec![
        ScriptedSearch::Failing(FailingSearch::new(
            "first",
            SearchError::InvalidQuery {
                reason: "bad query".to_string(),
            },
        )),
        ScriptedSearch::Succeeding(SucceedingSearch::new("second")),
    ]);
    let query = SearchQuery::new("test");

    let result = fallback.search(&query);
    assert!(matches!(result, Err(SearchError::InvalidQuery { .. })));
}

#[test]
fn returns_last_error_when_all_fail() {
    let mut fallback = FallbackSearchProvider::new(vec![
        ScriptedSearch::Failing(FailingSearch::new(
            "first",
            SearchError::Timeout { timeout_secs: 30 },
        )),
        ScriptedSearch::Failing(FailingSearch::new(
            "second",
            SearchError::RateLimited {
                provider: "second".to_string(),
            },
        )),
    ]);
    let query = SearchQuery::new("test");

    let result = fallback.search(&query);
    assert!(matches!(result, Err(SearchError::RateLimited { .. })));
}

#[test]
fn provider_id_is_fallback() {
    let fallback: FallbackSearchProvider<ScriptedSearch> = FallbackSearchProvider::new(vec![]);
    assert_eq!(fallback.provider_id(), "fallback");
}

#[test]
fn search_registry_keeps_registration_order() {
    let mut registry = ProviderRegistry::new();
    registry.register("zebra", SucceedingSearch::new("zebra"));
    registry.register("alpha", SucceedingSearch::new("alpha"));
    registry.register("middle", SucceedingSearch::new("middle"));

    assert_eq!(registry.list(), vec!["zebra", "alpha", "middle"]);
}

#[test]
fn search_registry_overwrite_keeps_order() {
    let mut registry = ProviderRegistry::new();
    registry.register("test", SucceedingSearch::new("old"));
    registry.register("test", SucceedingSearch::new("new"));

    assert_eq!(registry.len(), 1);
    let provider = registry.get("test").unwrap();
    assert_eq!(provider.id, "new");
    assert_eq!(registry.list(), vec!["test"]);
}

#[test]
fn search_registry_default_is_first_registered() {
    let mut registry = ProviderRegistry::new();
    registry.register("first", SucceedingSearch::new("first"));
    registry.register("second", SucceedingSearch::new("second"));

    let default = registry.default_provider().unwrap();
    assert_eq!(default.id, "first");
}

#[test]
fn search_registry_empty_has_no_default() {
    let registry: ProviderRegistry<SucceedingSearch> = ProviderRegistry::new();
    assert!(registry.default_provider().is_none());
    assert!(registry.is_empty());
}
