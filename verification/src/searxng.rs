//! Filter mappings and query building for the metasearch vendor, which has
//! no domain-filter parameter of its own: domains are folded into the query
//! text with `site:` operators. The HTTP transport and URL assembly live
//! outside the library.

use vstd::prelude::*;
use vstd::string::StringExecFns;

use crate::caps::SearchError;
use crate::search::ContentType;
use crate::search::Recency;
use crate::strutil::decimal_digits;
use crate::strutil::u64_to_string;

verus! {

/// The `time_range` parameter a recency filter maps to; any-time sends
/// none.
pub open spec fn spec_map_recency(recency: Recency) -> Option<Seq<char>> {
    match recency {
        Recency::Day => Some("day"@),
        Recency::Week => Some("week"@),
        Recency::Month => Some("month"@),
        Recency::Year => Some("year"@),
        Recency::Any => None,
    }
}

/// Maps a recency filter to this vendor's `time_range` parameter.
pub fn map_recency(recency: &Recency) -> (r: Option<&'static str>)
    ensures
        r matches Some(s) ==> spec_map_recency(*recency) == Some(s@),
        r is None <==> spec_map_recency(*recency) is None,
{
    match recency {
        Recency::Day => Some("day"),
        Recency::Week => Some("week"),
        Recency::Month => Some("month"),
        Recency::Year => Some("year"),
        Recency::Any => None,
    }
}

/// The category a content-type filter maps to.
pub open spec fn spec_map_content_type(content_type: ContentType) -> Seq<char> {
    match content_type {
        ContentType::News => "news"@,
        ContentType::Academic => "science"@,
        _ => "general"@,
    }
}

/// Maps a content-type filter to this vendor's `categories` parameter.
pub fn map_content_type(content_type: &ContentType) -> (r: &'static str)
    ensures
        r@ == spec_map_content_type(*content_type),
{
    match content_type {
        ContentType::News => "news",
        ContentType::Academic => "science",
        _ => "general",
    }
}

/// The `site:` filter for a non-empty domain list: one bare operator for a
/// single domain, a parenthesized disjunction for several.
pub open spec fn site_filter_spec(domains: Seq<String>) -> Seq<char>
    decreases domains.len(),
{
    if domains.len() <= 1 {
        "site:"@ + domains[0]@
    } else {
        site_filter_spec(domains.drop_last()) + " OR site:"@ + domains.last()@
    }
}

/// The query text with the domain filter folded in: unchanged without
/// domains, otherwise the text, a space, and the `site:` filter.
pub open spec fn query_with_domains_spec(query: Seq<char>, domains: Option<Vec<String>>) -> Seq<
    char,
> {
    match domains {
        Some(ds) => if ds@.len() == 0 {
            query
        } else if ds@.len() == 1 {
            query + " "@ + site_filter_spec(ds@)
        } else {
            query + " ("@ + site_filter_spec(ds@) + ")"@
        },
        None => query,
    }
}

/// Folds an optional include-domain list into the query text with `site:`
/// operators.
pub fn build_query_with_domains(query: &str, include_domains: &Option<Vec<String>>) -> (r: String)
    ensures
        r@ == query_with_domains_spec(query@, *include_domains),
{
    match include_domains {
        Some(ds) => {
            if ds.len() == 0 {
                return query.to_owned();
            }
            let mut filter = "site:".to_owned();
            filter.append(ds[0].as_str());
            let mut i: usize = 1;
            while i < ds.len()
                invariant
                    1 <= i <= ds@.len(),
                    ds@.len() >= 1,
                    filter@ == site_filter_spec(ds@.take(i as int)),
                decreases ds@.len() - i,
            {
                filter.append(" OR site:");
                filter.append(ds[i].as_str());
                proof {
                    assert(ds@.take(i + 1).drop_last() =~= ds@.take(i as int));
                    assert(ds@.take(i + 1).last() == ds@[i as int]);
                }
                i += 1;
            }
            proof {
                assert(ds@.take(ds@.len() as int) =~= ds@);
            }
            let mut out = query.to_owned();
            if ds.len() == 1 {
                out.append(" ");
                out.append(filter.as_str());
            } else {
                out.append(" (");
                out.append(filter.as_str());
                out.append(")");
            }
            out
        },
        None => query.to_owned(),
    }
}

/// Classifies this vendor's HTTP failure: a 403 or a gateway failure means
/// the instance is unavailable, 429 is rate-limiting, a 400 rejected the
/// query, and any other status is a plain provider error.
pub fn map_http_error(status: u16) -> (e: SearchError)
    ensures
        status == 403 || status == 502 || status == 503 || status == 504 ==> (e matches
            SearchError::ProviderUnavailable { provider } && provider@ == "searxng"@),
        status == 429 ==> (e matches SearchError::RateLimited { provider } && provider@
            == "searxng"@),
        status == 400 ==> (e matches SearchError::InvalidQuery { reason } && reason@
            == "bad request"@),
        !(status == 403 || status == 502 || status == 503 || status == 504 || status == 429
            || status == 400) ==> (e matches SearchError::Provider(m) && m@ == "HTTP "@
            + decimal_digits(status as nat)),
{
    if status == 403 || status == 502 || status == 503 || status == 504 {
        SearchError::ProviderUnavailable { provider: "searxng".to_owned() }
    } else if status == 429 {
        SearchError::RateLimited { provider: "searxng".to_owned() }
    } else if status == 400 {
        SearchError::InvalidQuery { reason: "bad request".to_owned() }
    } else {
        let mut m = "HTTP ".to_owned();
        m.append(u64_to_string(status as u64).as_str());
        SearchError::Provider(m)
    }
}

} // verus!
