//! Tests of the vendor request mappings and the search configuration.

use gorkd::caps::SearchError;
use gorkd::planner::{Planner, PlannerConfig};
use gorkd::search::{ContentType, Recency, SearchFilters, SearchQuery};
use gorkd::search_config::SearchConfig;
use gorkd::tavily::{SearchDepth, TimeRange, Topic};

#[test]
fn maps_all_recency_values() {
    assert_eq!(gorkd::searxng::map_recency(&Recency::Day), Some("day"));
    assert_eq!(gorkd::searxng::map_recency(&Recency::Week), Some("week"));
    assert_eq!(gorkd::searxng::map_recency(&Recency::Month), Some("month"));
    assert_eq!(gorkd::searxng::map_recency(&Recency::Year), Some("year"));
    assert_eq!(gorkd::searxng::map_recency(&Recency::Any), None);
}

#[test]
fn maps_all_content_types() {
    assert_eq!(gorkd::searxng::map_content_type(&ContentType::News), "news");
    assert_eq!(
        gorkd::searxng::map_content_type(&ContentType::Academic),
        "science"
    );
    assert_eq!(
        gorkd::searxng::map_content_type(&ContentType::General),
        "general"
    );
    assert_eq!(
        gorkd::searxng::map_content_type(&ContentType::Blog),
        "general"
    );
    assert_eq!(
        gorkd::searxng::map_content_type(&ContentType::Forum),
        "general"
    );
}

#[test]
fn builds_query_with_no_domains() {
    let result = gorkd::searxng::build_query_with_domains("rust", &None);
    assert_eq!(result, "rust");
}

#[test]
fn builds_query_with_empty_domains() {
    let result = gorkd::searxng::build_query_with_domains("rust", &Some(vec![]));
    assert_eq!(result, "rust");
}

#[test]
fn builds_query_with_single_domain() {
    let result = gorkd::searxng::build_query_with_domains(
        "rust",
        &Some(vec!["rust-lang.org".to_string()]),
    );
    assert_eq!(result, "rust site:rust-lang.org");
}

#[test]
fn builds_query_with_multiple_domains() {
    let result = gorkd::searxng::build_query_with_domains(
        "rust",
        &Some(vec!["rust-lang.org".to_string(), "crates.io".to_string()]),
    );
    assert_eq!(result, "rust (site:rust-lang.org OR site:crates.io)");
}

#[test]
fn tavily_maps_all_recency_values() {
    assert!(matches!(
        gorkd::tavily::map_recency(&Recency::Day),
        TimeRange::Day
    ));
    assert!(matches!(
        gorkd::tavily::map_recency(&Recency::Week),
        TimeRange::Week
    ));
    assert!(matches!(
        gorkd::tavily::map_recency(&Recency::Month),
        TimeRange::Month
    ));
    assert!(matches!(
        gorkd::tavily::map_recency(&Recency::Year),
        TimeRange::Year
    ));
    assert!(matches!(
        gorkd::tavily::map_recency(&Recency::Any),
        TimeRange::Year
    ));
}

#[test]
fn maps_content_types_to_topics() {
    assert!(matches!(
        gorkd::tavily::map_content_type(&ContentType::News),
        Topic::News
    ));
    assert!(matches!(
        gorkd::tavily::map_content_type(&ContentType::General),
        Topic::General
    ));
    assert!(matches!(
        gorkd::tavily::map_content_type(&ContentType::Academic),
        Topic::General
    ));
}

#[test]
fn builds_basic_tavily_request() {
    let query = SearchQuery::new("test query");
    let request = gorkd::tavily::build_request(&query, SearchDepth::Basic);

    assert_eq!(request.query, "test query");
    assert!(matches!(request.search_depth, SearchDepth::Basic));
    assert_eq!(request.max_results, 10);
    assert!(request.topic.is_none());
    assert!(request.time_range.is_none());
}

#[test]
fn builds_tavily_request_with_filters() {
    let query = SearchQuery::new("test").with_filters(
        SearchFilters::new()
            .with_recency(Recency::Week)
            .include_domains(vec!["rust-lang.org".to_string(), "crates.io".to_string()])
            .exclude_domains(vec!["spam.example".to_string()])
            .with_content_type(ContentType::News),
    );
    let request = gorkd::tavily::build_request(&query, SearchDepth::Advanced);

    assert!(matches!(request.time_range, Some(TimeRange::Week)));
    assert!(matches!(request.topic, Some(Topic::News)));
    assert_eq!(
        request.include_domains,
        Some(vec!["rust-lang.org".to_string(), "crates.io".to_string()])
    );
    assert_eq!(
        request.exclude_domains,
        Some(vec!["spam.example".to_string()])
    );
    assert!(matches!(request.search_depth, SearchDepth::Advanced));
}

#[test]
fn tavily_maps_http_errors() {
    assert!(matches!(
        gorkd::tavily::map_http_error(401),
        SearchError::ProviderUnavailable { .. }
    ));
    assert!(matches!(
        gorkd::tavily::map_http_error(429),
        SearchError::RateLimited { .. }
    ));
    assert!(matches!(
        gorkd::tavily::map_http_error(400),
        SearchError::InvalidQuery { .. }
    ));
    assert!(matches!(
        gorkd::tavily::map_http_error(500),
        SearchError::Provider(_)
    ));
}

#[test]
fn exa_recency_windows() {
    assert_eq!(gorkd::exa::recency_days_back(&Recency::Day), 1);
    assert_eq!(gorkd::exa::recency_days_back(&Recency::Week), 7);
    assert_eq!(gorkd::exa::recency_days_back(&Recency::Month), 30);
    assert_eq!(gorkd::exa::recency_days_back(&Recency::Year), 365);
    assert_eq!(gorkd::exa::recency_days_back(&Recency::Any), 0);
}

#[test]
fn builds_exa_request_with_start_date() {
    let query = SearchQuery::new("semantic").with_filters(
        SearchFilters::new().with_recency(Recency::Week),
    );
    let request = gorkd::exa::build_request(
        &query,
        gorkd::exa::SearchType::Auto,
        Some("2024-01-01T00:00:00.000Z".to_string()),
    );

    assert_eq!(request.query, "semantic");
    assert_eq!(
        request.start_published_date,
        Some("2024-01-01T00:00:00.000Z".to_string())
    );
    assert_eq!(request.num_results, 10);
    assert!(request.text);
}

#[test]
fn exa_request_without_recency_has_no_start_date() {
    let query = SearchQuery::new("semantic");
    let request = gorkd::exa::build_request(
        &query,
        gorkd::exa::SearchType::Neural,
        Some("2024-01-01T00:00:00.000Z".to_string()),
    );
    assert_eq!(request.start_published_date, None);
}

#[test]
fn searxng_maps_http_errors() {
    assert!(matches!(
        gorkd::searxng::map_http_error(403),
        SearchError::ProviderUnavailable { .. }
    ));
    assert!(matches!(
        gorkd::searxng::map_http_error(429),
        SearchError::RateLimited { .. }
    ));
    assert!(matches!(
        gorkd::searxng::map_http_error(502),
        SearchError::ProviderUnavailable { .. }
    ));
}

#[test]
fn default_config_has_no_providers() {
    let config = SearchConfig::default();
    assert!(!config.has_tavily());
    assert!(!config.has_exa());
    assert!(!config.has_searxng());
    assert!(config.available_providers().is_empty());
}

#[test]
fn lists_available_providers() {
    let config = SearchConfig {
        tavily_api_key: Some("key1".to_string()),
        exa_api_key: Some("key2".to_string()),
        searxng_url: None,
        timeout_secs: 30,
        max_results: 10,
    };
    let providers = config.available_providers();
    assert_eq!(providers, vec!["tavily", "exa"]);
}

#[test]
fn planner_creates_search_plan() {
    let planner = Planner::new(PlannerConfig::default());
    let plan = planner.plan("What is Rust?");

    assert_eq!(plan.queries.len(), 1);
    assert_eq!(plan.queries[0].text, "What is Rust?");
    assert!(!plan.providers.is_empty());
}

#[test]
fn planner_uses_configured_providers() {
    let config = PlannerConfig {
        max_queries: 3,
        default_providers: vec!["exa".to_string(), "searxng".to_string()],
    };
    let planner = Planner::new(config);
    let plan = planner.plan("test");

    assert_eq!(plan.providers.len(), 2);
    assert_eq!(plan.providers[0].as_str(), "exa");
    assert_eq!(plan.providers[1].as_str(), "searxng");
}
