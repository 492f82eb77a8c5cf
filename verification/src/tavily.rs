//! The request shape and filter mappings of the first search vendor's API.
//! The HTTP transport lives outside the library; building and mapping a
//! request is pure and verified here.

use vstd::prelude::*;

use crate::caps::SearchError;
use crate::search::ContentType;
use crate::search::Recency;
use crate::search::SearchQuery;
use crate::strutil::clone_strings;
use crate::strutil::decimal_digits;
use crate::strutil::u64_to_string;
use vstd::string::StringExecFns;

verus! {

/// How hard the vendor should search: deeper is slower and dearer.
#[derive(Clone, Copy, Debug, PartialEq, Eq, Structural)]
pub enum SearchDepth {
    Basic,
    Advanced,
    Fast,
}

/// The topic category of a search.
#[derive(Clone, Copy, Debug, PartialEq, Eq, Structural)]
pub enum Topic {
    General,
    News,
    Finance,
}

/// The time window of a search.
#[derive(Clone, Copy, Debug, PartialEq, Eq, Structural)]
pub enum TimeRange {
    Day,
    Week,
    Month,
    Year,
}

/// The request body of this vendor's search call, as plain values.
pub struct TavilyRequest {
    pub query: String,
    pub search_depth: SearchDepth,
    pub max_results: u8,
    pub topic: Option<Topic>,
    pub time_range: Option<TimeRange>,
    pub include_domains: Option<Vec<String>>,
    pub exclude_domains: Option<Vec<String>>,
    pub include_answer: bool,
    pub include_raw_content: bool,
}

/// The time range a recency filter maps to; any-time widens to a year.
pub open spec fn spec_map_recency(recency: Recency) -> TimeRange {
    match recency {
        Recency::Day => TimeRange::Day,
        Recency::Week => TimeRange::Week,
        Recency::Month => TimeRange::Month,
        Recency::Year => TimeRange::Year,
        Recency::Any => TimeRange::Year,
    }
}

/// Maps a recency filter to this vendor's time range.
pub fn map_recency(recency: &Recency) -> (r: TimeRange)
    ensures
        r == spec_map_recency(*recency),
{
    match recency {
        Recency::Day => TimeRange::Day,
        Recency::Week => TimeRange::Week,
        Recency::Month => TimeRange::Month,
        Recency::Year => TimeRange::Year,
        Recency::Any => TimeRange::Year,
    }
}

/// The topic a content-type filter maps to; only news has its own topic.
pub open spec fn spec_map_content_type(content_type: ContentType) -> Topic {
    match content_type {
        ContentType::News => Topic::News,
        _ => Topic::General,
    }
}

/// Maps a content-type filter to this vendor's topic.
pub fn map_content_type(content_type: &ContentType) -> (r: Topic)
    ensures
        r == spec_map_content_type(*content_type),
{
    match content_type {
        ContentType::News => Topic::News,
        _ => Topic::General,
    }
}

/// Builds this vendor's request for one query: ten results at the given
/// depth, with the query's filters mapped where set and empty domain lists
/// treated as absent.
pub fn build_request(query: &SearchQuery, depth: SearchDepth) -> (r: TavilyRequest)
    ensures
        r.query@ == query.text@,
        r.search_depth == depth,
        r.max_results == 10,
        r.topic == (match query.filters.content_type {
            Some(ct) => Some(spec_map_content_type(ct)),
            None => None,
        }),
        r.time_range == (match query.filters.recency {
            Some(rc) => Some(spec_map_recency(rc)),
            None => None,
        }),
        match query.filters.include_domains {
            Some(ds) => if ds@.len() > 0 {
                r.include_domains matches Some(out) && out@ == ds@
            } else {
                r.include_domains is None
            },
            None => r.include_domains is None,
        },
        match query.filters.exclude_domains {
            Some(ds) => if ds@.len() > 0 {
                r.exclude_domains matches Some(out) && out@ == ds@
            } else {
                r.exclude_domains is None
            },
            None => r.exclude_domains is None,
        },
        r.include_answer == false,
        r.include_raw_content == false,
{
    let time_range = match &query.filters.recency {
        Some(rc) => Some(map_recency(rc)),
        None => None,
    };
    let topic = match &query.filters.content_type {
        Some(ct) => Some(map_content_type(ct)),
        None => None,
    };
    let include_domains = match &query.filters.include_domains {
        Some(ds) => if ds.len() > 0 {
            Some(clone_strings(ds))
        } else {
            None
        },
        None => None,
    };
    let exclude_domains = match &query.filters.exclude_domains {
        Some(ds) => if ds.len() > 0 {
            Some(clone_strings(ds))
        } else {
            None
        },
        None => None,
    };
    TavilyRequest {
        query: query.text.clone(),
        search_depth: depth,
        max_results: 10,
        topic,
        time_range,
        include_domains,
        exclude_domains,
        include_answer: false,
        include_raw_content: false,
    }
}

/// Classifies this vendor's HTTP failure: bad credentials mean the provider
/// is unavailable, 429 is rate-limiting, a 400 rejected the query, and any
/// other status is a plain provider error.
pub fn map_http_error(status: u16) -> (e: SearchError)
    ensures
        status == 401 ==> (e matches SearchError::ProviderUnavailable { provider } && provider@
            == "tavily"@),
        status == 429 ==> (e matches SearchError::RateLimited { provider } && provider@
            == "tavily"@),
        status == 400 ==> (e matches SearchError::InvalidQuery { reason } && reason@
            == "bad request"@),
        status != 401 && status != 429 && status != 400 ==> (e matches SearchError::Provider(m)
            && m@ == "HTTP "@ + decimal_digits(status as nat)),
{
    if status == 401 {
        SearchError::ProviderUnavailable { provider: "tavily".to_owned() }
    } else if status == 429 {
        SearchError::RateLimited { provider: "tavily".to_owned() }
    } else if status == 400 {
        SearchError::InvalidQuery { reason: "bad request".to_owned() }
    } else {
        let mut m = "HTTP ".to_owned();
        m.append(u64_to_string(status as u64).as_str());
        SearchError::Provider(m)
    }
}

} // verus!
