//! Collected sources: their metadata, relevance scores and collections.
//!
//! Relevance scores are integers in thousandths: `SCORE_ONE` stands for a
//! full score of one, and every score is clamped into `0 ..= SCORE_ONE` on
//! construction, never rejected.

use vstd::prelude::*;
use vstd::string::StrSliceExecFns;

use crate::id::source_id_wf;
use crate::id::SourceId;
use crate::search::ProviderId;
use crate::strutil::clone_strings;
use crate::strutil::find_char;
use crate::strutil::is_prefix_of;
use crate::strutil::starts_with_str;

verus! {

/// A full relevance score: scores range over `0 ..= SCORE_ONE`.
pub const SCORE_ONE: u32 = 1000;

/// Clamps a raw score into the valid range.
pub open spec fn clamp_score(score: u32) -> u32 {
    if score > SCORE_ONE {
        SCORE_ONE
    } else {
        score
    }
}

/// The prefix of `u` up to, and not including, its first `/`; all of `u`
/// when it has none.
pub open spec fn until_slash(u: Seq<char>) -> Seq<char> {
    if exists|i: int| 0 <= i < u.len() && u[i] == '/' {
        u.subrange(
            0,
            choose|i: int|
                0 <= i < u.len() && u[i] == '/' && forall|j: int| 0 <= j < i ==> u[j] != '/',
        )
    } else {
        u
    }
}

/// `u` with a leading `https://` or `http://` scheme removed.
pub open spec fn strip_scheme(u: Seq<char>) -> Seq<char> {
    if is_prefix_of("https://"@, u) {
        u.skip("https://"@.len() as int)
    } else if is_prefix_of("http://"@, u) {
        u.skip("http://"@.len() as int)
    } else {
        u
    }
}

/// The domain part of a URL: the text between the scheme and the first `/`.
pub open spec fn domain_of(u: Seq<char>) -> Seq<char> {
    until_slash(strip_scheme(u))
}

/// Extracts the domain of a URL.
pub fn extract_domain(url: &str) -> (r: Option<String>)
    ensures
        r matches Some(d) && d@ == domain_of(url@),
{
    proof {
        reveal_strlit("https://");
        reveal_strlit("http://");
    }
    let without_scheme: &str = if starts_with_str(url, "https://") {
        url.substring_char(8, url.unicode_len())
    } else if starts_with_str(url, "http://") {
        url.substring_char(7, url.unicode_len())
    } else {
        url
    };
    assert(without_scheme@ =~= strip_scheme(url@));
    let d = match find_char(without_scheme, '/') {
        Some(i) => without_scheme.substring_char(0, i),
        None => without_scheme,
    };
    assert(d@ =~= domain_of(url@));
    Some(d.to_owned())
}

/// What is known about one source besides its content.
pub struct SourceMetadata {
    pub domain: String,
    pub published_at: Option<i64>,
    pub author: Option<String>,
    pub word_count: usize,
}

impl SourceMetadata {
    /// Creates metadata holding only the domain.
    pub fn new(domain: &str) -> (r: SourceMetadata)
        ensures
            r.domain@ == domain@,
            r.published_at is None,
            r.author is None,
            r.word_count == 0,
    {
        SourceMetadata { domain: domain.to_owned(), published_at: None, author: None, word_count: 0 }
    }

    /// Records the publication time, in milliseconds since the Unix epoch.
    pub fn with_published_at(self, published_at: i64) -> (r: SourceMetadata)
        ensures
            r.published_at == Some(published_at),
            r.domain == self.domain,
            r.author == self.author,
            r.word_count == self.word_count,
    {
        SourceMetadata { published_at: Some(published_at), ..self }
    }

    /// Records the author.
    pub fn with_author(self, author: &str) -> (r: SourceMetadata)
        ensures
            r.author matches Some(a) && a@ == author@,
            r.domain == self.domain,
            r.published_at == self.published_at,
            r.word_count == self.word_count,
    {
        SourceMetadata { author: Some(author.to_owned()), ..self }
    }

    /// Records the word count.
    pub fn with_word_count(self, count: usize) -> (r: SourceMetadata)
        ensures
            r.word_count == count,
            r.domain == self.domain,
            r.published_at == self.published_at,
            r.author == self.author,
    {
        SourceMetadata { word_count: count, ..self }
    }
}

impl Clone for SourceMetadata {
    fn clone(&self) -> (r: Self)
        ensures
            r == *self,
    {
        SourceMetadata {
            domain: self.domain.clone(),
            published_at: self.published_at,
            author: match &self.author {
                Some(a) => Some(a.clone()),
                None => None,
            },
            word_count: self.word_count,
        }
    }
}

/// One ranked source: immutable once ranked.
pub struct Source {
    pub id: SourceId,
    pub url: String,
    pub title: String,
    pub content: String,
    pub metadata: SourceMetadata,
    pub relevance_score: u32,
}

/// A source is well formed when its identifier carries the `src_` prefix and
/// its score is in range.
pub open spec fn source_wf(s: &Source) -> bool {
    source_id_wf(s.id@) && s.relevance_score <= SCORE_ONE
}

impl Source {
    /// Creates a source with a fresh identifier, the domain taken from the
    /// URL, and a zero score.
    pub fn new(url: &str, title: &str, content: &str) -> (r: Source)
        ensures
            r.url@ == url@,
            r.title@ == title@,
            r.content@ == content@,
            r.metadata.domain@ == domain_of(url@),
            r.metadata.published_at is None,
            r.metadata.author is None,
            r.metadata.word_count == 0,
            r.relevance_score == 0,
            source_wf(&r),
    {
        let domain = match extract_domain(url) {
            Some(d) => d,
            None => String::new(),
        };
        Source {
            id: SourceId::new(),
            url: url.to_owned(),
            title: title.to_owned(),
            content: content.to_owned(),
            metadata: SourceMetadata::new(domain.as_str()),
            relevance_score: 0,
        }
    }

    /// Replaces the metadata.
    pub fn with_metadata(self, metadata: SourceMetadata) -> (r: Source)
        ensures
            r.metadata == metadata,
            r.id == self.id,
            r.url == self.url,
            r.title == self.title,
            r.content == self.content,
            r.relevance_score == self.relevance_score,
    {
        Source { metadata, ..self }
    }

    /// Records the relevance score, clamped into `0 ..= SCORE_ONE`.
    pub fn with_relevance_score(self, score: u32) -> (r: Source)
        ensures
            r.relevance_score == clamp_score(score),
            r.id == self.id,
            r.url == self.url,
            r.title == self.title,
            r.content == self.content,
            r.metadata == self.metadata,
    {
        let clamped = if score > SCORE_ONE {
            SCORE_ONE
        } else {
            score
        };
        Source { relevance_score: clamped, ..self }
    }
}

impl Clone for Source {
    fn clone(&self) -> (r: Self)
        ensures
            r == *self,
    {
        Source {
            id: self.id.clone(),
            url: self.url.clone(),
            title: self.title.clone(),
            content: self.content.clone(),
            metadata: self.metadata.clone(),
            relevance_score: self.relevance_score,
        }
    }
}

/// Copies a vector of sources.
pub fn clone_sources(v: &Vec<Source>) -> (r: Vec<Source>)
    ensures
        r@ == v@,
{
    let mut r: Vec<Source> = Vec::new();
    let mut i: usize = 0;
    while i < v.len()
        invariant
            0 <= i <= v@.len(),
            r@ =~= v@.take(i as int),
        decreases v@.len() - i,
    {
        r.push(v[i].clone());
        assert(r@ =~= v@.take(i + 1));
        i += 1;
    }
    assert(r@ =~= v@);
    r
}

/// How a source list was gathered: the queries run, the providers asked,
/// the raw result count and the time spent.
pub struct SearchMetadata {
    pub queries_executed: Vec<String>,
    pub providers_used: Vec<ProviderId>,
    pub total_results: usize,
    pub fetch_duration_ms: u64,
}

impl SearchMetadata {
    /// Creates empty search metadata.
    pub fn new() -> (r: SearchMetadata)
        ensures
            r.queries_executed@.len() == 0,
            r.providers_used@.len() == 0,
            r.total_results == 0,
            r.fetch_duration_ms == 0,
    {
        SearchMetadata {
            queries_executed: Vec::new(),
            providers_used: Vec::new(),
            total_results: 0,
            fetch_duration_ms: 0,
        }
    }
}

impl Default for SearchMetadata {
    fn default() -> (r: SearchMetadata)
        ensures
            r.queries_executed@.len() == 0,
            r.providers_used@.len() == 0,
            r.total_results == 0,
            r.fetch_duration_ms == 0,
    {
        SearchMetadata::new()
    }
}

/// The sources of one job together with how they were gathered.
pub struct SourceCollection {
    pub sources: Vec<Source>,
    pub search_metadata: SearchMetadata,
}

impl SourceCollection {
    /// Wraps a source list with empty search metadata.
    pub fn new(sources: Vec<Source>) -> (r: SourceCollection)
        ensures
            r.sources == sources,
            r.search_metadata.queries_executed@.len() == 0,
            r.search_metadata.providers_used@.len() == 0,
            r.search_metadata.total_results == 0,
            r.search_metadata.fetch_duration_ms == 0,
    {
        SourceCollection { sources, search_metadata: SearchMetadata::new() }
    }

    /// Replaces the search metadata.
    pub fn with_metadata(self, metadata: SearchMetadata) -> (r: SourceCollection)
        ensures
            r.sources == self.sources,
            r.search_metadata == metadata,
    {
        SourceCollection { search_metadata: metadata, ..self }
    }

    /// Whether the collection holds no source.
    pub fn is_empty(&self) -> (r: bool)
        ensures
            r == (self.sources@.len() == 0),
    {
        self.sources.len() == 0
    }

    /// How many sources the collection holds.
    pub fn len(&self) -> (r: usize)
        ensures
            r == self.sources@.len(),
    {
        self.sources.len()
    }
}

} // verus!
