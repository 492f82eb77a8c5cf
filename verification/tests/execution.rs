//! Tests of search execution, synthesis, the in-memory store and the whole
//! pipeline, including the two end-to-end scenarios.

use gorkd::answer::Confidence;
use gorkd::caps::{SearchResult, Store};
use gorkd::executor::{Executor, ExecutorConfig};
use gorkd::job::{JobStatus, ResearchJob};
use gorkd::mock::{MockLlmProvider, MockSearchProvider, MockStore};
use gorkd::pipeline::{Pipeline, PipelineError};
use gorkd::search::{ProviderId, SearchPlan, SearchQuery};
use gorkd::source::Source;
use gorkd::synthesizer::{Synthesizer, SynthesizerConfig};

fn test_plan() -> SearchPlan {
    SearchPlan::new(
        vec![SearchQuery::new("test")],
        vec![ProviderId::new("mock")],
    )
}

#[test]
fn executor_returns_sources() {
    let provider = MockSearchProvider::new("mock");
    let mut executor = Executor::new(provider, ExecutorConfig::default());

    let sources = executor.execute(&test_plan()).unwrap();
    assert!(!sources.is_empty());
}

#[test]
fn executor_deduplicates_by_url() {
    let results = vec![
        SearchResult::new("https://example.com/1", "Title 1", "Snippet 1").with_score(900),
        SearchResult::new("https://example.com/1", "Title 1 Dup", "Snippet 1 Dup").with_score(800),
        SearchResult::new("https://example.com/2", "Title 2", "Snippet 2").with_score(700),
    ];

    let provider = MockSearchProvider::new("mock").with_results(results);
    let mut executor = Executor::new(provider, ExecutorConfig::default());

    let sources = executor.execute(&test_plan()).unwrap();
    assert_eq!(sources.len(), 2);
}

#[test]
fn executor_keeps_first_seen_duplicate() {
    let results = vec![
        SearchResult::new("https://example.com/1", "First Title", "A").with_score(500),
        SearchResult::new("https://example.com/1", "Second Title", "B").with_score(900),
    ];

    let provider = MockSearchProvider::new("mock").with_results(results);
    let mut executor = Executor::new(provider, ExecutorConfig::default());

    let sources = executor.execute(&test_plan()).unwrap();
    assert_eq!(sources.len(), 1);
    assert_eq!(sources[0].title, "First Title");
    assert_eq!(sources[0].relevance_score, 500);
}

#[test]
fn executor_limits_results() {
    let provider = MockSearchProvider::new("mock");
    let config = ExecutorConfig {
        max_sources: 2,
        min_score: 0,
    };
    let mut executor = Executor::new(provider, config);

    let sources = executor.execute(&test_plan()).unwrap();
    assert!(sources.len() <= 2);
}

#[test]
fn executor_filters_by_min_score() {
    let results = vec![
        SearchResult::new("https://example.com/1", "Title 1", "Snippet 1").with_score(900),
        SearchResult::new("https://example.com/2", "Title 2", "Snippet 2").with_score(300),
    ];

    let provider = MockSearchProvider::new("mock").with_results(results);
    let config = ExecutorConfig {
        max_sources: 10,
        min_score: 500,
    };
    let mut executor = Executor::new(provider, config);

    let sources = executor.execute(&test_plan()).unwrap();
    assert_eq!(sources.len(), 1);
    assert!(sources[0].relevance_score >= 500);
}

#[test]
fn executor_keeps_results_at_the_minimum() {
    let results = vec![
        SearchResult::new("https://example.com/1", "At", "A").with_score(500),
        SearchResult::new("https://example.com/2", "Above", "B").with_score(501),
        SearchResult::new("https://example.com/3", "Below", "C").with_score(499),
    ];

    let provider = MockSearchProvider::new("mock").with_results(results);
    let config = ExecutorConfig {
        max_sources: 10,
        min_score: 500,
    };
    let mut executor = Executor::new(provider, config);

    let sources = executor.execute(&test_plan()).unwrap();
    assert_eq!(sources.len(), 2);
    assert!(sources.iter().all(|s| s.relevance_score >= 500));
}

#[test]
fn executor_sorts_by_relevance() {
    let results = vec![
        SearchResult::new("https://example.com/1", "Title 1", "Snippet 1").with_score(500),
        SearchResult::new("https://example.com/2", "Title 2", "Snippet 2").with_score(900),
        SearchResult::new("https://example.com/3", "Title 3", "Snippet 3").with_score(700),
    ];

    let provider = MockSearchProvider::new("mock").with_results(results);
    let mut executor = Executor::new(provider, ExecutorConfig::default());

    let sources = executor.execute(&test_plan()).unwrap();
    assert_eq!(sources[0].relevance_score, 900);
    assert_eq!(sources[1].relevance_score, 700);
    assert_eq!(sources[2].relevance_score, 500);
}

#[test]
fn executor_aborts_on_provider_error() {
    let provider = MockSearchProvider::new("mock").fail_after(0);
    let mut executor = Executor::new(provider, ExecutorConfig::default());
    assert!(executor.execute(&test_plan()).is_err());
}

#[test]
fn search_result_converts_to_source() {
    let result = SearchResult::new("https://example.com", "Title", "Snippet").with_score(800);
    let source = result.into_source("Full content here".to_string());

    assert_eq!(source.url, "https://example.com");
    assert_eq!(source.title, "Title");
    assert_eq!(source.content, "Full content here");
    assert_eq!(source.relevance_score, 800);
}

#[test]
fn search_result_clamps_score() {
    let result = SearchResult::new("https://example.com", "Title", "Snippet").with_score(1500);
    assert_eq!(result.score, 1000);
}

fn create_test_sources() -> Vec<Source> {
    vec![
        Source::new("https://example.com/1", "Source 1", "Content about the topic"),
        Source::new("https://example.com/2", "Source 2", "More relevant content"),
        Source::new("https://example.com/3", "Source 3", "Additional information"),
    ]
}

#[test]
fn synthesizer_generates_answer() {
    let provider = MockLlmProvider::new("mock-gpt-4");
    let mut synthesizer = Synthesizer::new(provider, SynthesizerConfig::default());
    let sources = create_test_sources();

    let answer = synthesizer.synthesize("What is Rust?", &sources).unwrap();

    assert!(!answer.summary.is_empty());
    assert!(!answer.detail.is_empty());
    assert!(answer.is_answerable());
}

#[test]
fn synthesizer_limits_context_sources() {
    let provider = MockLlmProvider::new("mock-gpt-4");
    let config = SynthesizerConfig {
        max_context_sources: 2,
    };
    let mut synthesizer = Synthesizer::new(provider, config);

    let mut sources = create_test_sources();
    sources.extend(create_test_sources());

    let answer = synthesizer.synthesize("test", &sources).unwrap();
    assert!(answer.is_answerable());
    assert!(answer.citations.len() <= 2);
}

#[test]
fn synthesizer_returns_insufficient_for_empty_sources() {
    let provider = MockLlmProvider::new("mock-gpt-4");
    let mut synthesizer = Synthesizer::new(provider, SynthesizerConfig::default());

    let answer = synthesizer.synthesize("test", &vec![]).unwrap();

    assert_eq!(answer.confidence, Confidence::Insufficient);
    assert!(!answer.is_answerable());
    assert_eq!(synthesizer.provider().call_count(), 0);
}

#[test]
fn mock_search_tracks_call_count() {
    let mut provider = MockSearchProvider::new("mock");
    let query = SearchQuery::new("test");

    assert_eq!(provider.call_count(), 0);

    gorkd::caps::SearchProvider::search(&mut provider, &query).unwrap();
    assert_eq!(provider.call_count(), 1);

    gorkd::caps::SearchProvider::search(&mut provider, &query).unwrap();
    assert_eq!(provider.call_count(), 2);
}

#[test]
fn mock_search_fails_after_n_calls() {
    let mut provider = MockSearchProvider::new("mock").fail_after(2);
    let query = SearchQuery::new("test");

    assert!(gorkd::caps::SearchProvider::search(&mut provider, &query).is_ok());
    assert!(gorkd::caps::SearchProvider::search(&mut provider, &query).is_ok());
    assert!(gorkd::caps::SearchProvider::search(&mut provider, &query).is_err());
}

#[test]
fn mock_llm_fails_after_n_calls() {
    let mut provider = MockLlmProvider::new("mock-gpt-4");
    provider = provider.fail_after(1);
    let sources = create_test_sources();

    assert!(gorkd::caps::LlmProvider::synthesize(&mut provider, "query", &sources).is_ok());
    assert!(gorkd::caps::LlmProvider::synthesize(&mut provider, "query", &sources).is_err());
}

#[test]
fn mock_llm_respects_configured_confidence() {
    let mut provider = MockLlmProvider::new("mock-gpt-4").with_confidence(Confidence::Low);
    let sources = create_test_sources();

    let answer = gorkd::caps::LlmProvider::synthesize(&mut provider, "query", &sources).unwrap();
    assert_eq!(answer.confidence, Confidence::Low);
}

#[test]
fn mock_store_creates_and_retrieves_job() {
    let mut store = MockStore::new();
    let job = ResearchJob::new("What is Rust?").unwrap();
    let job_id = job.id.clone();

    store.create_job(&job).unwrap();
    let retrieved = store.get_job(&job_id).unwrap();

    assert!(retrieved.is_some());
    assert_eq!(retrieved.unwrap().query, "What is Rust?");
}

#[test]
fn mock_store_rejects_duplicate_job() {
    let mut store = MockStore::new();
    let job = ResearchJob::new("test").unwrap();

    store.create_job(&job).unwrap();
    let result = store.create_job(&job);

    assert!(matches!(result, Err(gorkd::caps::StoreError::Conflict(_))));
}

#[test]
fn mock_store_updates_job() {
    let mut store = MockStore::new();
    let mut job = ResearchJob::new("test").unwrap();
    let job_id = job.id.clone();

    store.create_job(&job).unwrap();

    job.transition_to(JobStatus::Searching);
    store.update_job(&job).unwrap();

    let retrieved = store.get_job(&job_id).unwrap().unwrap();
    assert_eq!(retrieved.status, JobStatus::Searching);
}

#[test]
fn mock_store_returns_none_for_missing_job() {
    let store = MockStore::new();
    let job_id = gorkd::id::JobId::new();

    let result = store.get_job(&job_id).unwrap();
    assert!(result.is_none());
}

#[test]
fn mock_store_stores_and_retrieves_sources() {
    let mut store = MockStore::new();
    let job = ResearchJob::new("test").unwrap();
    let job_id = job.id.clone();

    store.create_job(&job).unwrap();

    let sources = vec![
        Source::new("https://example.com/1", "Source 1", "Content 1"),
        Source::new("https://example.com/2", "Source 2", "Content 2"),
    ];

    store.store_sources(&job_id, &sources).unwrap();
    let retrieved = store.get_sources(&job_id).unwrap();

    assert_eq!(retrieved.len(), 2);
}

#[test]
fn mock_store_lists_jobs_with_pagination() {
    let mut store = MockStore::new();

    for i in 0..5 {
        let job = ResearchJob::new(&format!("query {}", i)).unwrap();
        store.create_job(&job).unwrap();
    }

    let page1 = store.list_jobs(2, 0).unwrap();
    let page2 = store.list_jobs(2, 2).unwrap();
    let page3 = store.list_jobs(2, 4).unwrap();

    assert_eq!(page1.len(), 2);
    assert_eq!(page2.len(), 2);
    assert_eq!(page3.len(), 1);
}

#[test]
fn mock_store_tracks_counts() {
    let mut store = MockStore::new();
    let job = ResearchJob::new("test").unwrap();

    assert_eq!(store.job_count(), 0);

    store.create_job(&job).unwrap();
    assert_eq!(store.job_count(), 1);
}

#[test]
fn pipeline_runs_full_flow() {
    let mut store = MockStore::new();
    let search = MockSearchProvider::new("mock");
    let llm = MockLlmProvider::new("mock-gpt-4");

    let job = ResearchJob::new("What is Rust?").unwrap();
    store.create_job(&job).unwrap();

    let mut pipeline = Pipeline::new(store, search, llm);
    let result = pipeline.run(job).unwrap();

    assert_eq!(result.job.status, JobStatus::Completed);
    assert!(!result.sources.is_empty());
    assert!(result.sources.len() >= 1 && result.sources.len() <= 10);
    assert!(!result.answer.summary.is_empty());
    assert!(result.answer.is_answerable());
}

#[test]
fn pipeline_updates_job_status() {
    let mut store = MockStore::new();
    let search = MockSearchProvider::new("mock");
    let llm = MockLlmProvider::new("mock-gpt-4");

    let job = ResearchJob::new("Test query").unwrap();
    let job_id = job.id.clone();
    store.create_job(&job).unwrap();

    let mut pipeline = Pipeline::new(store, search, llm);
    pipeline.run(job).unwrap();

    let final_job = pipeline.store().get_job(&job_id).unwrap().unwrap();
    assert_eq!(final_job.status, JobStatus::Completed);
}

#[test]
fn pipeline_stores_sources() {
    let mut store = MockStore::new();
    let search = MockSearchProvider::new("mock");
    let llm = MockLlmProvider::new("mock-gpt-4");

    let job = ResearchJob::new("Test query").unwrap();
    let job_id = job.id.clone();
    store.create_job(&job).unwrap();

    let mut pipeline = Pipeline::new(store, search, llm);
    pipeline.run(job).unwrap();

    let sources = pipeline.store().get_sources(&job_id).unwrap();
    assert!(!sources.is_empty());
}

#[test]
fn pipeline_fails_without_sources() {
    let mut store = MockStore::new();
    let search = MockSearchProvider::new("mock").with_results(vec![]);
    let llm = MockLlmProvider::new("mock-gpt-4");

    let job = ResearchJob::new("What is Rust?").unwrap();
    let job_id = job.id.clone();
    store.create_job(&job).unwrap();

    let mut pipeline = Pipeline::new(store, search, llm);
    let result = pipeline.run(job);

    assert!(matches!(result, Err(PipelineError::NoSources)));
    let failed_job = pipeline.store().get_job(&job_id).unwrap().unwrap();
    assert_eq!(failed_job.status, JobStatus::Failed);
    assert_eq!(
        failed_job.error_message,
        Some("No sources found for query".to_string())
    );
    assert!(pipeline.store().get_sources(&job_id).unwrap().is_empty());
    assert_eq!(
        PipelineError::NoSources.message(),
        "no sources found for query"
    );
}

#[test]
fn executor_keeps_tie_order() {
    let results = vec![
        SearchResult::new("https://example.com/1", "First Tie", "A").with_score(700),
        SearchResult::new("https://example.com/2", "Top", "B").with_score(900),
        SearchResult::new("https://example.com/3", "Second Tie", "C").with_score(700),
        SearchResult::new("https://example.com/4", "Third Tie", "D").with_score(700),
    ];

    let provider = MockSearchProvider::new("mock").with_results(results);
    let mut executor = Executor::new(provider, ExecutorConfig::default());

    let sources = executor.execute(&test_plan()).unwrap();
    assert_eq!(sources[0].title, "Top");
    assert_eq!(sources[1].title, "First Tie");
    assert_eq!(sources[2].title, "Second Tie");
    assert_eq!(sources[3].title, "Third Tie");
}

#[test]
fn pipeline_persists_search_stage_failure() {
    let mut store = MockStore::new();
    let search = MockSearchProvider::new("mock").fail_after(0);
    let llm = MockLlmProvider::new("mock-gpt-4");

    let job = ResearchJob::new("Test query").unwrap();
    let job_id = job.id.clone();
    store.create_job(&job).unwrap();

    let mut pipeline = Pipeline::new(store, search, llm);
    let result = pipeline.run(job);

    let message = match result {
        Err(PipelineError::Search(m)) => m,
        _ => panic!("expected a search-stage failure"),
    };
    assert_eq!(message, "rate limited by provider: mock");
    let failed_job = pipeline.store().get_job(&job_id).unwrap().unwrap();
    assert_eq!(failed_job.status, JobStatus::Failed);
    assert_eq!(failed_job.error_message, Some(message));
    assert!(pipeline.store().get_sources(&job_id).unwrap().is_empty());
}

#[test]
fn pipeline_persists_synthesis_stage_failure() {
    let mut store = MockStore::new();
    let search = MockSearchProvider::new("mock");
    let llm = MockLlmProvider::new("mock-gpt-4").fail_after(0);

    let job = ResearchJob::new("Test query").unwrap();
    let job_id = job.id.clone();
    store.create_job(&job).unwrap();

    let mut pipeline = Pipeline::new(store, search, llm);
    let result = pipeline.run(job);

    let message = match result {
        Err(PipelineError::Synthesis(m)) => m,
        _ => panic!("expected a synthesis-stage failure"),
    };
    assert_eq!(message, "rate limited by provider");
    let failed_job = pipeline.store().get_job(&job_id).unwrap().unwrap();
    assert_eq!(failed_job.status, JobStatus::Failed);
    assert_eq!(failed_job.error_message, Some(message));
    // the sources found before the failure stay persisted
    assert!(!pipeline.store().get_sources(&job_id).unwrap().is_empty());
}
