//! Tests of JSON extraction from free model text and of answer assembly:
//! citation resolution, confidence mapping, and the two failure kinds.

use gorkd::answer::Confidence;
use gorkd::parser::{extract_json, parse_confidence, parse_synthesis_response, ParseError};
use gorkd::source::Source;

fn test_sources() -> Vec<Source> {
    vec![
        Source::new("https://example.com/a", "Source A", "Content A"),
        Source::new("https://example.com/b", "Source B", "Content B"),
    ]
}

#[test]
fn parses_clean_json() {
    let sources = test_sources();
    let json = format!(
        r#"{{
            "summary": "Test summary",
            "detail": "Test detail with citation [{}]",
            "citations": [
                {{"claim": "Test claim", "source_id": "{}", "quote": "exact quote"}}
            ],
            "confidence": "high",
            "limitations": ["Limited data"]
        }}"#,
        sources[0].id.as_str(),
        sources[0].id.as_str()
    );

    let answer = parse_synthesis_response(&json, &sources, "sonnet-4", 100).unwrap();
    assert_eq!(answer.summary, "Test summary");
    assert_eq!(answer.confidence, Confidence::High);
    assert_eq!(answer.citations.len(), 1);
    assert!(answer.citations[0].quote.is_some());
    assert_eq!(answer.limitations.len(), 1);
}

#[test]
fn parses_json_in_code_block() {
    let sources = test_sources();
    let text = format!(
        "Here is my analysis:\n\n```json\n{{\n    \"summary\": \"Summary\",\n    \"detail\": \"Detail\",\n    \"citations\": [{{\"claim\": \"Claim\", \"source_id\": \"{}\"}}],\n    \"confidence\": \"medium\",\n    \"limitations\": []\n}}\n```",
        sources[0].id.as_str()
    );

    let answer = parse_synthesis_response(&text, &sources, "sonnet-4", 50).unwrap();
    assert_eq!(answer.summary, "Summary");
    assert_eq!(answer.confidence, Confidence::Medium);
}

#[test]
fn parses_json_with_surrounding_text() {
    let sources = test_sources();
    let text = "Let me analyze that for you.\n\n{\n    \"summary\": \"Extracted summary\",\n    \"detail\": \"Extracted detail\",\n    \"citations\": [],\n    \"confidence\": \"low\",\n    \"limitations\": []\n}\n\nHope this helps!";

    let answer = parse_synthesis_response(text, &sources, "sonnet-4", 75).unwrap();
    assert_eq!(answer.summary, "Extracted summary");
    assert_eq!(answer.confidence, Confidence::Low);
}

#[test]
fn skips_citations_with_unknown_source_ids() {
    let sources = test_sources();
    let json = format!(
        r#"{{
            "summary": "Summary",
            "detail": "Detail",
            "citations": [
                {{"claim": "Valid", "source_id": "{}"}},
                {{"claim": "Invalid", "source_id": "src_nonexistent"}}
            ],
            "confidence": "high",
            "limitations": []
        }}"#,
        sources[0].id.as_str()
    );

    let answer = parse_synthesis_response(&json, &sources, "sonnet-4", 100).unwrap();
    assert_eq!(answer.citations.len(), 1);
    assert_eq!(answer.citations[0].claim, "Valid");
}

#[test]
fn retained_citations_keep_claim_and_quote() {
    let sources = test_sources();
    let json = format!(
        r#"{{
            "summary": "Summary",
            "detail": "Detail",
            "citations": [
                {{"claim": "First", "source_id": "{}", "quote": "Q1"}},
                {{"claim": "Dropped", "source_id": "src_nonexistent"}},
                {{"claim": "Second", "source_id": "{}"}}
            ],
            "confidence": "high",
            "limitations": []
        }}"#,
        sources[0].id.as_str(),
        sources[1].id.as_str()
    );

    let answer = parse_synthesis_response(&json, &sources, "sonnet-4", 100).unwrap();
    assert_eq!(answer.citations.len(), 2);
    assert_eq!(answer.citations[0].claim, "First");
    assert_eq!(answer.citations[0].quote, Some("Q1".to_string()));
    assert_eq!(answer.citations[0].source_id, sources[0].id);
    assert_eq!(answer.citations[1].claim, "Second");
    assert_eq!(answer.citations[1].quote, None);
    assert_eq!(answer.citations[1].source_id, sources[1].id);
}

#[test]
fn handles_missing_limitations() {
    let sources = test_sources();
    let json = r#"{
        "summary": "Summary",
        "detail": "Detail",
        "citations": [],
        "confidence": "high"
    }"#;

    let answer = parse_synthesis_response(json, &sources, "sonnet-4", 100).unwrap();
    assert!(answer.limitations.is_empty());
}

#[test]
fn defaults_to_medium_confidence_for_unknown() {
    let sources = test_sources();
    let json = r#"{
        "summary": "Summary",
        "detail": "Detail",
        "citations": [],
        "confidence": "uncertain",
        "limitations": []
    }"#;

    let answer = parse_synthesis_response(json, &sources, "sonnet-4", 100).unwrap();
    assert_eq!(answer.confidence, Confidence::Medium);
}

#[test]
fn returns_error_for_no_json() {
    let sources = test_sources();
    let text = "This response contains no JSON at all.";

    let result = parse_synthesis_response(text, &sources, "sonnet-4", 100);
    assert!(matches!(result, Err(ParseError::NoJsonFound)));
}

#[test]
fn returns_error_for_invalid_json() {
    let sources = test_sources();
    let text = r#"{"summary": "Missing fields"}"#;

    let result = parse_synthesis_response(text, &sources, "sonnet-4", 100);
    assert!(matches!(result, Err(ParseError::InvalidJson(_))));
}

#[test]
fn extracts_json_correctly() {
    assert!(extract_json(r#"{"key": "value"}"#).is_some());
    assert!(extract_json("```json\n{\"key\": \"value\"}\n```").is_some());
    assert!(extract_json("```\n{\"key\": \"value\"}\n```").is_some());
    assert!(extract_json("text before {\"key\": \"value\"} text after").is_some());
    assert!(extract_json("no json here").is_none());
}

#[test]
fn four_embeddings_extract_the_same_object() {
    let object = r#"{"summary": "S", "detail": "D", "citations": [], "confidence": "high", "limitations": []}"#;
    let bare = extract_json(object).unwrap();
    let json_fence = extract_json(&format!("```json\n{}\n```", object)).unwrap();
    let plain_fence = extract_json(&format!("```\n{}\n```", object)).unwrap();
    let in_prose = extract_json(&format!("Sure! Here you go:\n\n{}\n\nAnything else?", object))
        .unwrap();
    assert_eq!(bare, object);
    assert_eq!(json_fence, object);
    assert_eq!(plain_fence, object);
    assert_eq!(in_prose, object);
}

#[test]
fn four_embeddings_parse_to_the_same_answer() {
    let sources = test_sources();
    let object = format!(
        r#"{{"summary": "S", "detail": "D", "citations": [{{"claim": "C", "source_id": "{}"}}], "confidence": "low", "limitations": ["L"]}}"#,
        sources[0].id.as_str()
    );
    let texts = [
        object.clone(),
        format!("```json\n{}\n```", object),
        format!("```\n{}\n```", object),
        format!("prose before\n{}\nprose after", object),
    ];
    for text in texts.iter() {
        let answer = parse_synthesis_response(text, &sources, "m", 1).unwrap();
        assert_eq!(answer.summary, "S");
        assert_eq!(answer.detail, "D");
        assert_eq!(answer.confidence, Confidence::Low);
        assert_eq!(answer.citations.len(), 1);
        assert_eq!(answer.citations[0].claim, "C");
        assert_eq!(answer.limitations, vec!["L".to_string()]);
    }
}

#[test]
fn confidence_words_map_case_insensitively() {
    assert_eq!(parse_confidence("high"), Confidence::High);
    assert_eq!(parse_confidence("HIGH"), Confidence::High);
    assert_eq!(parse_confidence("Medium"), Confidence::Medium);
    assert_eq!(parse_confidence("LoW"), Confidence::Low);
    assert_eq!(parse_confidence("Insufficient"), Confidence::Insufficient);
}

#[test]
fn unknown_confidence_words_default_to_medium() {
    assert_eq!(parse_confidence("uncertain"), Confidence::Medium);
    assert_eq!(parse_confidence(""), Confidence::Medium);
    assert_eq!(parse_confidence("very high"), Confidence::Medium);
    assert_eq!(parse_confidence("hig"), Confidence::Medium);
}

#[test]
fn unterminated_fence_falls_through_to_brace_span() {
    let text = "```json\n{\"summary\": \"S\", \"detail\": \"D\", \"citations\": [], \"confidence\": \"high\", \"limitations\": []}";
    let extracted = extract_json(text).unwrap();
    assert!(extracted.starts_with('{'));
    assert!(extracted.ends_with('}'));
}

#[test]
fn null_quote_reads_as_no_quote() {
    let sources = test_sources();
    let json = format!(
        r#"{{"summary": "S", "detail": "D", "citations": [{{"claim": "C", "source_id": "{}", "quote": null}}], "confidence": "high", "limitations": []}}"#,
        sources[0].id.as_str()
    );
    let answer = parse_synthesis_response(&json, &sources, "m", 1).unwrap();
    assert_eq!(answer.citations.len(), 1);
    assert_eq!(answer.citations[0].quote, None);
}
