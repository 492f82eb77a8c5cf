//! Deterministic in-process implementations of the three capabilities: an
//! in-memory store and two providers with configurable failure, for tests
//! and for running the pipeline without outside services.

use core::mem;

use vstd::multiset::Multiset;
use vstd::prelude::*;
use vstd::string::StringExecFns;

use crate::answer::Citation;
use crate::answer::Confidence;
use crate::answer::ResearchAnswer;
use crate::answer::SynthesisMetadata;
use crate::caps::LlmError;
use crate::caps::LlmProvider;
use crate::caps::SearchError;
use crate::caps::SearchProvider;
use crate::caps::SearchResult;
use crate::caps::Store;
use crate::caps::StoreError;
use crate::id::JobId;
use crate::job::JobView;
use crate::job::ResearchJob;
use crate::kvmap::kv_distinct_keys;
use crate::kvmap::kv_view_map;
use crate::kvmap::lemma_kv_contains;
use crate::kvmap::lemma_kv_get;
use crate::kvmap::lemma_kv_push;
use crate::kvmap::lemma_kv_update;
use crate::search::SearchQuery;
use crate::source::clone_sources;
use crate::source::Source;
use crate::strutil::usize_to_string;

verus! {

/// The position of the first entry carrying the key, or `None`.
fn find_key<V>(entries: &Vec<(String, V)>, key: &str) -> (r: Option<usize>)
    ensures
        match r {
            Some(i) => 0 <= i < entries@.len() && entries@[i as int].0@ == key@,
            None => forall|i: int| 0 <= i < entries@.len() ==> (#[trigger] entries@[i]).0@ != key@,
        },
{
    let mut i: usize = 0;
    while i < entries.len()
        invariant
            0 <= i <= entries@.len(),
            forall|j: int| 0 <= j < i ==> (#[trigger] entries@[j]).0@ != key@,
        decreases entries@.len() - i,
    {
        if entries[i].0.eq(&key.to_owned()) {
            return Some(i);
        }
        i += 1;
    }
    None
}

/// An in-memory store: jobs and source lists in association vectors keyed
/// by job identifier, unique keys throughout.
pub struct MockStore {
    jobs: Vec<(String, ResearchJob)>,
    job_sources: Vec<(String, Vec<Source>)>,
}

impl MockStore {
    /// Keys are unique, and every job sits under its own identifier.
    #[verifier::type_invariant]
    spec fn wf(self) -> bool {
        kv_distinct_keys(self.jobs@) && kv_distinct_keys(self.job_sources@) && forall|i: int|
            0 <= i < self.jobs@.len() ==> (#[trigger] self.jobs@[i]).0@ == self.jobs@[i].1.id@
    }

    /// Creates an empty store.
    pub fn new() -> (r: MockStore)
        ensures
            r.jobs() == Map::<Seq<char>, JobView>::empty(),
            r.sources() == Map::<Seq<char>, Seq<Source>>::empty(),
    {
        MockStore { jobs: Vec::new(), job_sources: Vec::new() }
    }

    /// How many jobs the store holds.
    pub fn job_count(&self) -> (r: usize)
        ensures
            r == self.jobs().dom().len(),
    {
        proof {
            use_type_invariant(&*self);
            lemma_kv_dom_len(self.jobs@);
        }
        self.jobs.len()
    }
}

/// With distinct keys, the map's domain has one key per entry.
proof fn lemma_kv_dom_len<V: View>(entries: Seq<(String, V)>)
    requires
        kv_distinct_keys(entries),
    ensures
        kv_view_map(entries).dom().len() == entries.len(),
        kv_view_map(entries).dom().finite(),
    decreases entries.len(),
{
    if entries.len() == 0 {
        assert(kv_view_map(entries).dom() =~= Set::<Seq<char>>::empty());
    } else {
        assert(kv_distinct_keys(entries.drop_last())) by {
            assert forall|a: int, b: int| 0 <= a < b < entries.drop_last().len() implies
                entries.drop_last()[a].0@ != entries.drop_last()[b].0@ by {
                assert(entries.drop_last()[a] == entries[a]);
                assert(entries.drop_last()[b] == entries[b]);
            }
        };
        lemma_kv_dom_len(entries.drop_last());
        lemma_kv_contains(entries.drop_last(), entries.last().0@);
        assert(forall|i: int|
            0 <= i < entries.drop_last().len() ==> (#[trigger] entries.drop_last()[i])
                == entries[i]);
        assert(!kv_view_map(entries.drop_last()).contains_key(entries.last().0@));
        assert(kv_view_map(entries).dom() =~= kv_view_map(entries.drop_last()).dom().insert(
            entries.last().0@,
        ));
    }
}

impl Default for MockStore {
    /// Creates an empty store.
    fn default() -> (r: MockStore)
        ensures
            r.jobs() == Map::<Seq<char>, JobView>::empty(),
            r.sources() == Map::<Seq<char>, Seq<Source>>::empty(),
    {
        MockStore::new()
    }
}

impl Store for MockStore {
    closed spec fn jobs(&self) -> Map<Seq<char>, JobView> {
        kv_view_map(self.jobs@)
    }

    closed spec fn sources(&self) -> Map<Seq<char>, Seq<Source>> {
        kv_view_map(self.job_sources@)
    }

    fn create_job(&mut self, job: &ResearchJob) -> (r: Result<(), StoreError>)
        ensures
            !old(self).jobs().contains_key(job.id@) ==> r is Ok,
    {
        proof {
            use_type_invariant(&*self);
            lemma_kv_contains(self.jobs@, job.id@);
        }
        match find_key(&self.jobs, job.id.as_str()) {
            Some(_) => {
                let mut message = "job ".to_owned();
                message.append(job.id.as_str());
                message.append(" already exists");
                Err(StoreError::Conflict(message))
            },
            None => {
                let ghost pre = self.jobs@;
                let mut jobs: Vec<(String, ResearchJob)> = Vec::new();
                mem::swap(&mut jobs, &mut self.jobs);
                let entry = (job.id.to_string(), job.clone());
                jobs.push(entry);
                proof {
                    lemma_kv_push(pre, entry.0, entry.1);
                    assert(kv_distinct_keys(jobs@)) by {
                        assert(forall|i: int|
                            0 <= i < pre.len() ==> (#[trigger] jobs@[i]) == pre[i]);
                    }
                }
                mem::swap(&mut jobs, &mut self.jobs);
                Ok(())
            },
        }
    }

    fn get_job(&self, id: &JobId) -> (r: Result<Option<ResearchJob>, StoreError>) {
        proof {
            use_type_invariant(&*self);
            lemma_kv_contains(self.jobs@, id@);
        }
        match find_key(&self.jobs, id.as_str()) {
            Some(i) => {
                proof {
                    lemma_kv_get(self.jobs@, i as int);
                }
                Ok(Some(self.jobs[i].1.clone()))
            },
            None => Ok(None),
        }
    }

    fn update_job(&mut self, job: &ResearchJob) -> (r: Result<(), StoreError>) {
        proof {
            use_type_invariant(&*self);
            lemma_kv_contains(self.jobs@, job.id@);
        }
        match find_key(&self.jobs, job.id.as_str()) {
            Some(i) => {
                let ghost pre = self.jobs@;
                let mut jobs: Vec<(String, ResearchJob)> = Vec::new();
                mem::swap(&mut jobs, &mut self.jobs);
                let entry = (job.id.to_string(), job.clone());
                let _old_entry = jobs.remove(i);
                jobs.insert(i, entry);
                proof {
                    assert(jobs@ =~= pre.update(i as int, entry));
                    lemma_kv_update(pre, i as int, entry.0, entry.1);
                    assert(kv_distinct_keys(jobs@)) by {
                        assert forall|a: int, b: int| 0 <= a < b < jobs@.len() implies jobs@[a].0@
                            != jobs@[b].0@ by {
                            if a != i && b != i {
                                assert(jobs@[a] == pre[a] && jobs@[b] == pre[b]);
                            } else if a == i {
                                assert(jobs@[b] == pre[b]);
                                assert(pre[i as int].0@ == jobs@[a].0@);
                            } else {
                                assert(jobs@[a] == pre[a]);
                                assert(pre[i as int].0@ == jobs@[b].0@);
                            }
                        }
                    }
                }
                mem::swap(&mut jobs, &mut self.jobs);
                Ok(())
            },
            None => Err(StoreError::JobNotFound { id: job.id.to_string() }),
        }
    }

    fn list_jobs(&self, limit: usize, offset: usize) -> (r: Result<Vec<ResearchJob>, StoreError>) {
        proof {
            use_type_invariant(&*self);
            lemma_kv_dom_len(self.jobs@);
        }
        let mut all: Vec<ResearchJob> = Vec::new();
        let mut i: usize = 0;
        while i < self.jobs.len()
            invariant
                0 <= i <= self.jobs@.len(),
                all@.len() == i,
                forall|j: int| 0 <= j < i ==> (#[trigger] all@[j])@ == self.jobs@[j].1@,
            decreases self.jobs@.len() - i,
        {
            all.push(self.jobs[i].1.clone());
            i += 1;
        }
        let ghost all_view = all@;
        let sorted = sort_jobs_desc(all);
        let mut page: Vec<ResearchJob> = Vec::new();
        let mut k: usize = offset;
        while k < sorted.len() && page.len() < limit
            invariant
                offset <= k,
                page@.len() <= limit,
                page@.len() > 0 ==> offset + page@.len() <= sorted@.len(),
                offset <= sorted@.len() ==> k <= sorted@.len(),
                offset > sorted@.len() ==> k == offset,
                forall|m: int| 0 <= m < page@.len() ==> (#[trigger] page@[m])@ == sorted@[offset
                    + m]@ && page@[m].created_at == sorted@[offset + m].created_at,
                page@.len() == if k > offset {
                    k - offset
                } else {
                    0int
                },
            decreases sorted@.len() - k,
        {
            proof {
                assert(k < sorted@.len());
            }
            page.push(sorted[k].clone());
            k += 1;
        }
        proof {
            assert(page@.len() == vstd::math::min(
                limit as int,
                vstd::math::max(0int, sorted@.len() as int - offset as int),
            ));
        }
        proof {
            assert forall|m: int| 0 <= m < page@.len() implies self.jobs().contains_key(
                (#[trigger] page@[m]).id@,
            ) && page@[m]@ == self.jobs()[page@[m].id@] by {
                assert(all_view.contains(sorted@[offset + m]));
                let e = choose|e: int|
                    0 <= e < all_view.len() && all_view[e] == sorted@[offset + m];
                assert(all_view[e]@ == self.jobs@[e].1@);
                lemma_kv_get(self.jobs@, e);
                assert(self.jobs@[e].0@ == self.jobs@[e].1.id@);
                assert(page@[m]@ == self.jobs@[e].1@);
                assert(page@[m].id@ == self.jobs@[e].1.id@);
            }
        }
        Ok(page)
    }

    fn store_sources(&mut self, job_id: &JobId, sources: &Vec<Source>) -> (r: Result<
        (),
        StoreError,
    >) {
        proof {
            use_type_invariant(&*self);
            lemma_kv_contains(self.job_sources@, job_id@);
        }
        let copy = clone_sources(sources);
        let entry = (job_id.to_string(), copy);
        let ghost pre = self.job_sources@;
        let mut table: Vec<(String, Vec<Source>)> = Vec::new();
        mem::swap(&mut table, &mut self.job_sources);
        match find_key(&table, job_id.as_str()) {
            Some(i) => {
                let _old_entry = table.remove(i);
                table.insert(i, entry);
                proof {
                    assert(table@ =~= pre.update(i as int, entry));
                    lemma_kv_update(pre, i as int, entry.0, entry.1);
                    assert(kv_distinct_keys(table@)) by {
                        assert forall|a: int, b: int| 0 <= a < b < table@.len() implies table@[a].0@
                            != table@[b].0@ by {
                            if a != i && b != i {
                                assert(table@[a] == pre[a] && table@[b] == pre[b]);
                            } else if a == i {
                                assert(table@[b] == pre[b]);
                                assert(pre[i as int].0@ == table@[a].0@);
                            } else {
                                assert(table@[a] == pre[a]);
                                assert(pre[i as int].0@ == table@[b].0@);
                            }
                        }
                    }
                }
            },
            None => {
                table.push(entry);
                proof {
                    lemma_kv_push(pre, entry.0, entry.1);
                    assert(kv_distinct_keys(table@)) by {
                        assert(forall|i: int|
                            0 <= i < pre.len() ==> (#[trigger] table@[i]) == pre[i]);
                    }
                }
            },
        }
        mem::swap(&mut table, &mut self.job_sources);
        Ok(())
    }

    fn get_sources(&self, job_id: &JobId) -> (r: Result<Vec<Source>, StoreError>) {
        proof {
            use_type_invariant(&*self);
            lemma_kv_contains(self.job_sources@, job_id@);
        }
        match find_key(&self.job_sources, job_id.as_str()) {
            Some(i) => {
                proof {
                    lemma_kv_get(self.job_sources@, i as int);
                }
                Ok(clone_sources(&self.job_sources[i].1))
            },
            None => Ok(Vec::new()),
        }
    }
}

/// Creation times never rise along the sequence.
spec fn sorted_jobs_desc(s: Seq<ResearchJob>) -> bool {
    forall|i: int, j: int| 0 <= i < j < s.len() ==> s[i].created_at >= s[j].created_at
}

/// The position of the first newest job.
fn newest_job_index(v: &Vec<ResearchJob>) -> (m: usize)
    requires
        v@.len() > 0,
    ensures
        0 <= m < v@.len(),
        forall|k: int| 0 <= k < v@.len() ==> v@[k].created_at <= v@[m as int].created_at,
{
    let mut m: usize = 0;
    let mut k: usize = 1;
    while k < v.len()
        invariant
            0 <= m < k <= v@.len(),
            forall|j: int| 0 <= j < k ==> v@[j].created_at <= v@[m as int].created_at,
        decreases v@.len() - k,
    {
        if v[k].created_at > v[m].created_at {
            m = k;
        }
        k += 1;
    }
    m
}

/// Sorts jobs newest first.
fn sort_jobs_desc(input: Vec<ResearchJob>) -> (out: Vec<ResearchJob>)
    ensures
        out@.to_multiset() == input@.to_multiset(),
        out@.len() == input@.len(),
        sorted_jobs_desc(out@),
        forall|j: int| 0 <= j < out@.len() ==> input@.contains(#[trigger] out@[j]),
{
    let ghost orig = input@;
    let mut work = input;
    let mut out: Vec<ResearchJob> = Vec::new();
    proof {
        out@.to_multiset_ensures();
        assert(out@.to_multiset().add(work@.to_multiset()) =~= orig.to_multiset());
    }
    while work.len() > 0
        invariant
            out@.to_multiset().add(work@.to_multiset()) == orig.to_multiset(),
            out@.len() + work@.len() == orig.len(),
            sorted_jobs_desc(out@),
            forall|i: int, j: int|
                0 <= i < out@.len() && 0 <= j < work@.len() ==> out@[i].created_at
                    >= work@[j].created_at,
        decreases work@.len(),
    {
        let ghost pre_out = out@;
        let ghost pre_work = work@;
        let m = newest_job_index(&work);
        let x = work.remove(m);
        out.push(x);
        proof {
            pre_work.to_multiset_ensures();
            pre_out.to_multiset_ensures();
            assert(work@.to_multiset() =~= pre_work.to_multiset().remove(x));
            assert(out@.to_multiset() =~= pre_out.to_multiset().insert(x));
            assert(pre_work.contains(x));
            assert(pre_work.to_multiset().count(x) > 0);
            assert(out@.to_multiset().add(work@.to_multiset()) =~= pre_out.to_multiset().add(
                pre_work.to_multiset(),
            ));
        }
    }
    proof {
        work@.to_multiset_ensures();
        assert(work@.to_multiset() =~= Multiset::<ResearchJob>::empty());
        assert(out@.to_multiset() =~= orig.to_multiset());
        out@.to_multiset_ensures();
        orig.to_multiset_ensures();
        assert forall|j: int| 0 <= j < out@.len() implies orig.contains(#[trigger] out@[j]) by {
            assert(out@.contains(out@[j]));
            assert(out@.to_multiset().count(out@[j]) > 0);
        }
    }
    out
}

/// Copies a vector of raw search results.
fn clone_results(v: &Vec<SearchResult>) -> (r: Vec<SearchResult>)
    ensures
        r@ == v@,
{
    let mut r: Vec<SearchResult> = Vec::new();
    let mut i: usize = 0;
    while i < v.len()
        invariant
            0 <= i <= v@.len(),
            r@ =~= v@.take(i as int),
        decreases v@.len() - i,
    {
        r.push(v[i].clone());
        assert(r@ =~= v@.take(i + 1));
        i += 1;
    }
    assert(r@ =~= v@);
    r
}

/// A search provider that answers from a fixed result list, counts its
/// calls, and can be told to fail from some call on.
pub struct MockSearchProvider {
    provider_id: String,
    results: Vec<SearchResult>,
    call_count: usize,
    fail_after: Option<usize>,
}

impl MockSearchProvider {
    /// The calls made so far.
    pub closed spec fn spec_call_count(&self) -> usize {
        self.call_count
    }

    /// The fixed results the provider answers with.
    pub closed spec fn spec_results(&self) -> Seq<SearchResult> {
        self.results@
    }

    /// The provider's identifier.
    pub closed spec fn spec_provider_id(&self) -> Seq<char> {
        self.provider_id@
    }

    /// The call number from which every call fails, when one is set.
    pub closed spec fn spec_fail_after(&self) -> Option<usize> {
        self.fail_after
    }

    /// Creates a provider answering with three canned scored results.
    pub fn new(provider_id: &str) -> (r: MockSearchProvider)
        ensures
            r.spec_call_count() == 0,
            r.spec_results().len() == 3,
            r.spec_provider_id() == provider_id@,
            r.spec_fail_after() is None,
    {
        let mut results: Vec<SearchResult> = Vec::new();
        results.push(
            SearchResult::new(
                "https://example.com/article-1",
                "Example Article 1",
                "This is the first example article about the topic.",
            ).with_score(950),
        );
        results.push(
            SearchResult::new(
                "https://example.com/article-2",
                "Example Article 2",
                "Another relevant article discussing the subject.",
            ).with_score(850),
        );
        results.push(
            SearchResult::new(
                "https://example.org/resource",
                "Research Resource",
                "A comprehensive resource with detailed information.",
            ).with_score(750),
        );
        MockSearchProvider {
            provider_id: provider_id.to_owned(),
            results,
            call_count: 0,
            fail_after: None,
        }
    }

    /// Replaces the fixed results.
    pub fn with_results(self, results: Vec<SearchResult>) -> (r: MockSearchProvider)
        ensures
            r.spec_results() == results@,
            r.spec_call_count() == self.spec_call_count(),
            r.spec_provider_id() == self.spec_provider_id(),
            r.spec_fail_after() == self.spec_fail_after(),
    {
        MockSearchProvider { results, ..self }
    }

    /// Makes every call from the `n`-th on fail as rate-limited.
    pub fn fail_after(self, n: usize) -> (r: MockSearchProvider)
        ensures
            r.spec_fail_after() == Some(n),
            r.spec_call_count() == self.spec_call_count(),
            r.spec_results() == self.spec_results(),
            r.spec_provider_id() == self.spec_provider_id(),
    {
        MockSearchProvider { fail_after: Some(n), ..self }
    }

    /// The calls made so far.
    pub fn call_count(&self) -> (r: usize)
        ensures
            r == self.spec_call_count(),
    {
        self.call_count
    }
}

impl SearchProvider for MockSearchProvider {
    fn search(&mut self, _query: &SearchQuery) -> (r: Result<Vec<SearchResult>, SearchError>)
        ensures
            final(self).spec_results() == old(self).spec_results(),
            final(self).spec_provider_id() == old(self).spec_provider_id(),
            final(self).spec_fail_after() == old(self).spec_fail_after(),
            old(self).spec_call_count() < usize::MAX ==> final(self).spec_call_count() == old(
                self,
            ).spec_call_count() + 1,
            (r is Err) <==> (match old(self).spec_fail_after() {
                Some(n) => old(self).spec_call_count() >= n,
                None => false,
            }),
            r matches Err(e) ==> (e matches SearchError::RateLimited { provider } && provider@
                == old(self).spec_provider_id()),
            r matches Ok(results) ==> results@ == old(self).spec_results(),
    {
        let count = self.call_count;
        if self.call_count < usize::MAX {
            self.call_count = self.call_count + 1;
        }
        match self.fail_after {
            Some(fail_after) => {
                if count >= fail_after {
                    return Err(
                        SearchError::RateLimited { provider: self.provider_id.clone() },
                    );
                }
            },
            None => {},
        }
        Ok(clone_results(&self.results))
    }

    fn provider_id(&self) -> (r: &str)
        ensures
            r@ == self.spec_provider_id(),
    {
        self.provider_id.as_str()
    }

    fn supports_recency_filter(&self) -> (r: bool)
        ensures
            r,
    {
        true
    }

    fn supports_domain_filter(&self) -> (r: bool)
        ensures
            r,
    {
        true
    }
}

/// A synthesis provider that writes a canned answer, counts its calls, and
/// can be told to fail from some call on.
pub struct MockLlmProvider {
    model_id: String,
    call_count: usize,
    fail_after: Option<usize>,
    confidence: Confidence,
}

impl MockLlmProvider {
    /// The calls made so far.
    pub closed spec fn spec_call_count(&self) -> usize {
        self.call_count
    }

    /// The confidence the provider answers with.
    pub closed spec fn spec_confidence(&self) -> Confidence {
        self.confidence
    }

    /// The model identifier the provider answers as.
    pub closed spec fn spec_model_id(&self) -> Seq<char> {
        self.model_id@
    }

    /// The call number from which every call fails, when one is set.
    pub closed spec fn spec_fail_after(&self) -> Option<usize> {
        self.fail_after
    }

    /// Creates a provider answering with high confidence.
    pub fn new(model_id: &str) -> (r: MockLlmProvider)
        ensures
            r.spec_call_count() == 0,
            r.spec_confidence() == Confidence::High,
            r.spec_model_id() == model_id@,
            r.spec_fail_after() is None,
    {
        MockLlmProvider {
            model_id: model_id.to_owned(),
            call_count: 0,
            fail_after: None,
            confidence: Confidence::High,
        }
    }

    /// Sets the confidence the provider answers with.
    pub fn with_confidence(self, confidence: Confidence) -> (r: MockLlmProvider)
        ensures
            r.spec_confidence() == confidence,
            r.spec_call_count() == self.spec_call_count(),
            r.spec_model_id() == self.spec_model_id(),
            r.spec_fail_after() == self.spec_fail_after(),
    {
        MockLlmProvider { confidence, ..self }
    }

    /// Makes every call from the `n`-th on fail as rate-limited.
    pub fn fail_after(self, n: usize) -> (r: MockLlmProvider)
        ensures
            r.spec_fail_after() == Some(n),
            r.spec_call_count() == self.spec_call_count(),
            r.spec_confidence() == self.spec_confidence(),
            r.spec_model_id() == self.spec_model_id(),
    {
        MockLlmProvider { fail_after: Some(n), ..self }
    }

    /// The calls made so far.
    pub fn call_count(&self) -> (r: usize)
        ensures
            r == self.spec_call_count(),
    {
        self.call_count
    }

    /// Writes the canned answer: a summary and detail that name the query
    /// and the source count, citations of the first three sources, and the
    /// configured confidence.
    fn generate_answer(&self, query: &str, sources: &Vec<Source>) -> (ans: ResearchAnswer)
        ensures
            ans.confidence == self.spec_confidence(),
            ans.citations@.len() == vstd::math::min(3int, sources@.len() as int),
            ans.summary@.len() > 0,
            ans.detail@.len() > 0,
            ans.synthesis_metadata.model@ == self.spec_model_id(),
    {
        let n = usize_to_string(sources.len());
        let mut summary = "Based on ".to_owned();
        summary.append(n.as_str());
        summary.append(" sources, here is the answer to: ");
        summary.append(query);
        let mut detail = "After analyzing the provided sources, the answer to \"".to_owned();
        detail.append(query);
        detail.append(
            "\" is as follows:\n\nThe sources indicate that this topic has been well-documented. Multiple reliable sources confirm the key findings.\n\nSources analyzed: ",
        );
        detail.append(n.as_str());
        let mut citations: Vec<Citation> = Vec::new();
        let mut i: usize = 0;
        while i < sources.len() && i < 3
            invariant
                0 <= i <= sources@.len(),
                i <= 3,
                citations@.len() == i,
                i < 3 || citations@.len() == 3,
            decreases sources@.len() - i,
        {
            let mut claim = "Information from ".to_owned();
            claim.append(sources[i].title.as_str());
            citations.push(Citation::new(claim.as_str(), sources[i].id.clone()));
            i += 1;
        }
        let metadata = SynthesisMetadata::new(self.model_id.as_str()).with_tokens_used(
            500,
        ).with_duration(250);
        proof {
            reveal_strlit("Based on ");
            reveal_strlit("After analyzing the provided sources, the answer to \"");
        }
        ResearchAnswer::new(summary.as_str(), detail.as_str(), self.confidence, self.model_id.as_str())
            .with_citations(citations)
            .with_metadata(metadata)
    }
}

impl LlmProvider for MockLlmProvider {
    fn synthesize(&mut self, query: &str, sources: &Vec<Source>) -> (r: Result<
        ResearchAnswer,
        LlmError,
    >)
        ensures
            final(self).spec_model_id() == old(self).spec_model_id(),
            final(self).spec_confidence() == old(self).spec_confidence(),
            final(self).spec_fail_after() == old(self).spec_fail_after(),
            old(self).spec_call_count() < usize::MAX ==> final(self).spec_call_count() == old(
                self,
            ).spec_call_count() + 1,
            (r is Err) <==> (match old(self).spec_fail_after() {
                Some(n) => old(self).spec_call_count() >= n,
                None => false,
            }),
            r matches Err(e) ==> e is RateLimited,
            r matches Ok(ans) ==> ans.synthesis_metadata.model@ == old(self).spec_model_id(),
            sources@.len() == 0 ==> (r matches Ok(ans) ==> ans.confidence
                == Confidence::Insufficient && ans.citations@.len() == 0),
            sources@.len() > 0 ==> (r matches Ok(ans) ==> ans.confidence == old(
                self,
            ).spec_confidence() && ans.citations@.len() == vstd::math::min(
                3int,
                sources@.len() as int,
            ) && ans.summary@.len() > 0 && ans.detail@.len() > 0),
    {
        let count = self.call_count;
        if self.call_count < usize::MAX {
            self.call_count = self.call_count + 1;
        }
        match self.fail_after {
            Some(fail_after) => {
                if count >= fail_after {
                    return Err(LlmError::RateLimited);
                }
            },
            None => {},
        }
        if sources.len() == 0 {
            return Ok(
                ResearchAnswer::new(
                    "Unable to provide an answer without sources.",
                    "No sources were provided for analysis.",
                    Confidence::Insufficient,
                    self.model_id.as_str(),
                ),
            );
        }
        Ok(self.generate_answer(query, sources))
    }

    fn model_id(&self) -> (r: &str)
        ensures
            r@ == self.spec_model_id(),
    {
        self.model_id.as_str()
    }

    fn provider_name(&self) -> (r: &str)
        ensures
            r@ == "mock"@,
    {
        "mock"
    }

    fn max_context_tokens(&self) -> (r: usize)
        ensures
            r == 128000,
    {
        128000
    }

    fn supports_streaming(&self) -> (r: bool)
        ensures
            !r,
    {
        false
    }
}

} // verus!
