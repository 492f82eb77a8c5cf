//! Core of a research pipeline: domain entities, search execution and
//! ranking, answer synthesis with lenient JSON extraction and citation
//! resolution, and provider registries with one-shot fallback.

pub mod answer;
pub mod anthropic;
pub mod caps;
pub mod errors;
pub mod exa;
pub mod executor;
pub mod fallback;
pub mod id;
pub mod job;
pub mod jsonval;
pub mod kvmap;
pub mod llm_errors;
pub mod llm_registry;
pub mod llm_types;
pub mod mock;
pub mod openai;
pub mod parser;
pub mod pipeline;
pub mod planner;
pub mod prompt;
pub mod query;
pub mod search;
pub mod search_config;
pub mod search_registry;
pub mod searxng;
pub mod source;
pub mod strutil;
pub mod synthesizer;
pub mod tavily;
