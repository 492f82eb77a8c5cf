//! The request shape and filter mappings of the semantic-search vendor. The
//! HTTP transport and date formatting live outside the library: a recency
//! filter maps here to a number of days, which the caller turns into a
//! start date from the clock.

use vstd::prelude::*;
use vstd::string::StringExecFns;

use crate::caps::SearchError;
use crate::search::Recency;
use crate::search::SearchQuery;
use crate::strutil::clone_strings;
use crate::strutil::decimal_digits;
use crate::strutil::u64_to_string;

verus! {

/// The search algorithm the vendor should use.
#[derive(Clone, Copy, Debug, PartialEq, Eq, Structural)]
pub enum SearchType {
    Auto,
    Neural,
    Fast,
    Deep,
}

/// The request body of this vendor's search call, as plain values; the
/// start date, when any, comes formatted from the caller.
pub struct ExaRequest {
    pub query: String,
    pub search_type: SearchType,
    pub num_results: u8,
    pub include_domains: Option<Vec<String>>,
    pub exclude_domains: Option<Vec<String>>,
    pub start_published_date: Option<String>,
    pub end_published_date: Option<String>,
    pub text: bool,
}

/// How many days back a recency filter reaches; any-time reaches zero days,
/// which stands for the present moment.
pub fn recency_days_back(recency: &Recency) -> (r: u64)
    ensures
        *recency is Day ==> r == 1,
        *recency is Week ==> r == 7,
        *recency is Month ==> r == 30,
        *recency is Year ==> r == 365,
        *recency is Any ==> r == 0,
{
    match recency {
        Recency::Day => 1,
        Recency::Week => 7,
        Recency::Month => 30,
        Recency::Year => 365,
        Recency::Any => 0,
    }
}

/// Builds this vendor's request for one query: ten results with text
/// content, the domain filters mapped where set and empty lists treated as
/// absent, and the given start date when the query carries a recency
/// filter.
pub fn build_request(query: &SearchQuery, search_type: SearchType, start_date: Option<String>) -> (r:
    ExaRequest)
    ensures
        r.query@ == query.text@,
        r.search_type == search_type,
        r.num_results == 10,
        query.filters.recency is Some ==> r.start_published_date == start_date,
        query.filters.recency is None ==> r.start_published_date is None,
        match query.filters.include_domains {
            Some(ds) => if ds@.len() > 0 {
                r.include_domains matches Some(out) && out@ == ds@
            } else {
                r.include_domains is None
            },
            None => r.include_domains is None,
        },
        match query.filters.exclude_domains {
            Some(ds) => if ds@.len() > 0 {
                r.exclude_domains matches Some(out) && out@ == ds@
            } else {
                r.exclude_domains is None
            },
            None => r.exclude_domains is None,
        },
        r.end_published_date is None,
        r.text == true,
{
    let start_published_date = match &query.filters.recency {
        Some(_) => start_date,
        None => None,
    };
    let include_domains = match &query.filters.include_domains {
        Some(ds) => if ds.len() > 0 {
            Some(clone_strings(ds))
        } else {
            None
        },
        None => None,
    };
    let exclude_domains = match &query.filters.exclude_domains {
        Some(ds) => if ds.len() > 0 {
            Some(clone_strings(ds))
        } else {
            None
        },
        None => None,
    };
    ExaRequest {
        query: query.text.clone(),
        search_type,
        num_results: 10,
        include_domains,
        exclude_domains,
        start_published_date,
        end_published_date: None,
        text: true,
    }
}

/// Classifies this vendor's HTTP failure: bad credentials mean the provider
/// is unavailable, 429 is rate-limiting, a 400 rejected the query, and any
/// other status is a plain provider error.
pub fn map_http_error(status: u16) -> (e: SearchError)
    ensures
        status == 401 ==> (e matches SearchError::ProviderUnavailable { provider } && provider@
            == "exa"@),
        status == 429 ==> (e matches SearchError::RateLimited { provider } && provider@
            == "exa"@),
        status == 400 ==> (e matches SearchError::InvalidQuery { reason } && reason@
            == "bad request"@),
        status != 401 && status != 429 && status != 400 ==> (e matches SearchError::Provider(m)
            && m@ == "HTTP "@ + decimal_digits(status as nat)),
{
    if status == 401 {
        SearchError::ProviderUnavailable { provider: "exa".to_owned() }
    } else if status == 429 {
        SearchError::RateLimited { provider: "exa".to_owned() }
    } else if status == 400 {
        SearchError::InvalidQuery { reason: "bad request".to_owned() }
    } else {
        let mut m = "HTTP ".to_owned();
        m.append(u64_to_string(status as u64).as_str());
        SearchError::Provider(m)
    }
}

} // verus!
