//! Tests of the domain entities: identifiers, jobs, queries, plans,
//! sources and answers.

use gorkd::answer::{Citation, Confidence, ResearchAnswer, SynthesisMetadata};
use gorkd::errors::{validate_query, QueryError, MAX_QUERY_LENGTH};
use gorkd::id::{JobId, SourceId, NANOID_LENGTH};
use gorkd::job::{JobStatus, ResearchJob};
use gorkd::query::{QueryIntent, QuestionType};
use gorkd::search::{
    ContentType, ProviderId, Recency, SearchFilters, SearchPlan, SearchQuery, DEFAULT_MAX_SOURCES,
    DEFAULT_TIMEOUT_SECS,
};
use gorkd::source::{extract_domain, Source, SourceCollection, SourceMetadata};

#[test]
fn creates_citation() {
    let source_id = SourceId::new();
    let citation = Citation::new("Rust is memory-safe", source_id.clone())
        .with_quote("Rust guarantees memory safety without garbage collection");

    assert_eq!(citation.source_id, source_id);
    assert!(citation.quote.is_some());
}

#[test]
fn creates_answer() {
    let answer = ResearchAnswer::new(
        "Yes, Rust is memory-safe.",
        "Detailed explanation...",
        Confidence::High,
        "gpt-4",
    );

    assert!(answer.is_answerable());
    assert!(answer.citations.is_empty());
}

#[test]
fn insufficient_confidence_not_answerable() {
    let answer = ResearchAnswer::new(
        "Unable to determine.",
        "Not enough sources.",
        Confidence::Insufficient,
        "gpt-4",
    );

    assert!(!answer.is_answerable());
}

#[test]
fn adds_citations() {
    let mut answer = ResearchAnswer::new("Summary", "Detail", Confidence::High, "gpt-4");
    answer.add_citation(Citation::new("Claim 1", SourceId::new()));
    answer.add_citation(Citation::new("Claim 2", SourceId::new()));

    assert_eq!(answer.citations.len(), 2);
}

#[test]
fn synthesis_metadata_records_counters() {
    let metadata = SynthesisMetadata::new("gpt-4")
        .with_tokens_used(500)
        .with_duration(250);
    assert_eq!(metadata.model, "gpt-4");
    assert_eq!(metadata.tokens_used, 500);
    assert_eq!(metadata.synthesis_duration_ms, 250);
}

#[test]
fn validate_query_accepts_valid_query() {
    assert!(validate_query("What is Rust?").is_ok());
}

#[test]
fn validate_query_rejects_empty() {
    assert!(matches!(validate_query(""), Err(QueryError::Empty)));
}

#[test]
fn validate_query_rejects_too_long() {
    let long_query = "a".repeat(MAX_QUERY_LENGTH + 1);
    assert!(matches!(
        validate_query(&long_query),
        Err(QueryError::TooLong { .. })
    ));
}

#[test]
fn validate_query_accepts_max_length() {
    let max_query = "a".repeat(MAX_QUERY_LENGTH);
    assert!(validate_query(&max_query).is_ok());
}

#[test]
fn too_long_error_renders_counts() {
    let long_query = "a".repeat(MAX_QUERY_LENGTH + 1);
    let err = validate_query(&long_query).unwrap_err();
    assert_eq!(
        err.message(),
        "query exceeds maximum length of 2000 characters (got 2001)"
    );
}

#[test]
fn job_id_has_correct_prefix() {
    let id = JobId::new();
    assert!(id.as_str().starts_with(JobId::prefix()));
}

#[test]
fn job_id_has_correct_length() {
    let id = JobId::new();
    assert_eq!(id.as_str().len(), JobId::prefix().len() + NANOID_LENGTH);
}

#[test]
fn job_id_parses_valid_string() {
    let id = JobId::new();
    let parsed: JobId = id.to_string().parse().unwrap();
    assert_eq!(id, parsed);
}

#[test]
fn job_id_rejects_wrong_prefix() {
    let result: Result<JobId, _> = "src_abc123abc123".parse();
    assert!(matches!(
        result,
        Err(gorkd::errors::IdParseError::InvalidPrefix { .. })
    ));
}

#[test]
fn job_id_rejects_wrong_length() {
    let result: Result<JobId, _> = "job_short".parse();
    assert!(matches!(
        result,
        Err(gorkd::errors::IdParseError::InvalidLength { .. })
    ));
}

#[test]
fn source_id_has_correct_prefix() {
    let id = SourceId::new();
    assert!(id.as_str().starts_with(SourceId::prefix()));
}

#[test]
fn source_id_has_correct_length() {
    let id = SourceId::new();
    assert_eq!(id.as_str().len(), SourceId::prefix().len() + NANOID_LENGTH);
}

#[test]
fn source_id_parses_valid_string() {
    let id = SourceId::new();
    let parsed: SourceId = id.to_string().parse().unwrap();
    assert_eq!(id, parsed);
}

#[test]
fn status_is_terminal_for_completed() {
    assert!(JobStatus::Completed.is_terminal());
    assert!(JobStatus::Failed.is_terminal());
}

#[test]
fn status_is_active_for_pending() {
    assert!(JobStatus::Pending.is_active());
    assert!(JobStatus::Searching.is_active());
}

#[test]
fn creates_job_with_valid_query() {
    let job = ResearchJob::new("What is Rust?").unwrap();
    assert_eq!(job.query, "What is Rust?");
    assert_eq!(job.status, JobStatus::Pending);
    assert!(job.id.as_str().starts_with("job_"));
}

#[test]
fn rejects_empty_query() {
    let result = ResearchJob::new("");
    assert!(matches!(result, Err(QueryError::Empty)));
}

#[test]
fn transition_updates_status() {
    let mut job = ResearchJob::new("test").unwrap();
    job.transition_to(JobStatus::Searching);
    assert_eq!(job.status, JobStatus::Searching);
}

#[test]
fn fail_sets_error_message() {
    let mut job = ResearchJob::new("test").unwrap();
    job.fail("Something went wrong");
    assert_eq!(job.status, JobStatus::Failed);
    assert_eq!(job.error_message, Some("Something went wrong".to_string()));
}

#[test]
fn creates_basic_intent() {
    let intent = QueryIntent::new(QuestionType::Factual);
    assert_eq!(intent.question_type, QuestionType::Factual);
    assert_eq!(intent.language, "en");
    assert!(intent.entities.is_empty());
}

#[test]
fn builds_intent_with_entities() {
    let intent = QueryIntent::new(QuestionType::Comparison)
        .with_entities(vec!["Rust".to_string(), "Go".to_string()])
        .with_language("en");
    assert_eq!(intent.entities, vec!["Rust", "Go"]);
}

#[test]
fn creates_search_query() {
    let query = SearchQuery::new("Rust programming language");
    assert_eq!(query.text, "Rust programming language");
}

#[test]
fn builds_filters() {
    let filters = SearchFilters::new()
        .with_recency(Recency::Week)
        .include_domains(vec!["rust-lang.org".to_string()])
        .with_content_type(ContentType::News);

    assert_eq!(filters.recency, Some(Recency::Week));
    assert_eq!(
        filters.include_domains,
        Some(vec!["rust-lang.org".to_string()])
    );
}

#[test]
fn creates_search_plan() {
    let queries = vec![SearchQuery::new("test")];
    let providers = vec![ProviderId::new("tavily")];
    let plan = SearchPlan::new(queries, providers);

    assert_eq!(plan.max_sources, DEFAULT_MAX_SOURCES);
    assert_eq!(plan.timeout_secs, DEFAULT_TIMEOUT_SECS);
}

#[test]
fn creates_source() {
    let source = Source::new(
        "https://rust-lang.org/about",
        "About Rust",
        "Rust is a systems programming language.",
    );
    assert!(source.id.as_str().starts_with("src_"));
    assert_eq!(source.metadata.domain, "rust-lang.org");
}

#[test]
fn clamps_relevance_score() {
    let source = Source::new("https://example.com", "Test", "Content").with_relevance_score(1500);
    assert_eq!(source.relevance_score, 1000);

    let source = Source::new("https://example.com", "Test", "Content").with_relevance_score(800);
    assert_eq!(source.relevance_score, 800);
}

#[test]
fn extracts_domain_from_url() {
    assert_eq!(
        extract_domain("https://rust-lang.org/about"),
        Some("rust-lang.org".to_string())
    );
    assert_eq!(
        extract_domain("http://example.com"),
        Some("example.com".to_string())
    );
}

#[test]
fn source_collection_tracks_count() {
    let sources = vec![
        Source::new("https://a.com", "A", "Content A"),
        Source::new("https://b.com", "B", "Content B"),
    ];
    let collection = SourceCollection::new(sources);
    assert_eq!(collection.len(), 2);
    assert!(!collection.is_empty());
}

#[test]
fn source_metadata_builders_record_fields() {
    let metadata = SourceMetadata::new("example.com")
        .with_published_at(1_700_000_000_000)
        .with_author("An Author")
        .with_word_count(420);
    assert_eq!(metadata.domain, "example.com");
    assert_eq!(metadata.published_at, Some(1_700_000_000_000));
    assert_eq!(metadata.author, Some("An Author".to_string()));
    assert_eq!(metadata.word_count, 420);
}
