//! Search execution: runs a plan against one search capability, then
//! deduplicates by URL (first seen wins), drops results under the configured
//! minimum score, ranks by score descending and truncates to the configured
//! maximum.

use vstd::multiset::Multiset;
use vstd::prelude::*;
use vstd::string::StringExecFns;

use crate::caps::SearchError;
use crate::caps::SearchProvider;
use crate::caps::SearchResult;
use crate::search::SearchPlan;
use crate::source::source_wf;
use crate::source::Source;

verus! {

/// A raw result paired with the text of the query that produced it.
pub type TaggedResult = (SearchResult, String);

/// The URLs of a collection of seen strings, as a set of character
/// sequences.
pub open spec fn url_set(seen: Seq<String>) -> Set<Seq<char>> {
    Set::new(|u: Seq<char>| exists|k: int| 0 <= k < seen.len() && seen[k]@ == u)
}

/// First-seen deduplication and minimum-score filtering, in order: a result
/// whose URL was seen before is dropped, whatever its score or title; a
/// first-seen URL is recorded even when its result scores under `min`.
pub open spec fn dedup_filter_spec(
    rs: Seq<TaggedResult>,
    seen: Set<Seq<char>>,
    min: u32,
) -> Seq<TaggedResult>
    decreases rs.len(),
{
    if rs.len() == 0 {
        Seq::empty()
    } else if seen.contains(rs[0].0.url@) {
        dedup_filter_spec(rs.drop_first(), seen, min)
    } else if rs[0].0.score < min {
        dedup_filter_spec(rs.drop_first(), seen.insert(rs[0].0.url@), min)
    } else {
        seq![rs[0]] + dedup_filter_spec(rs.drop_first(), seen.insert(rs[0].0.url@), min)
    }
}

/// Every kept result scores at least `min`, carries a URL outside `seen`,
/// and appears in the input.
pub proof fn lemma_dedup_filter_sound(rs: Seq<TaggedResult>, seen: Set<Seq<char>>, min: u32)
    ensures
        forall|i: int|
            0 <= i < dedup_filter_spec(rs, seen, min).len() ==> {
                let kept = #[trigger] dedup_filter_spec(rs, seen, min)[i];
                kept.0.score >= min && !seen.contains(kept.0.url@) && rs.contains(kept)
            },
    decreases rs.len(),
{
    if rs.len() > 0 {
        let u = rs[0].0.url@;
        let out = dedup_filter_spec(rs, seen, min);
        lemma_dedup_filter_sound(rs.drop_first(), seen, min);
        lemma_dedup_filter_sound(rs.drop_first(), seen.insert(u), min);
        assert forall|x: TaggedResult| rs.drop_first().contains(x) implies rs.contains(x) by {
            let j = choose|j: int| 0 <= j < rs.drop_first().len() && rs.drop_first()[j] == x;
            assert(rs[j + 1] == x);
        }
        assert forall|i: int| 0 <= i < out.len() implies {
            let kept = #[trigger] out[i];
            kept.0.score >= min && !seen.contains(kept.0.url@) && rs.contains(kept)
        } by {
            if !seen.contains(u) && rs[0].0.score >= min {
                if i == 0 {
                    assert(out[0] == rs[0]);
                    assert(rs.contains(rs[0]));
                } else {
                    let tail = dedup_filter_spec(rs.drop_first(), seen.insert(u), min);
                    assert(tail[i - 1] == out[i]);
                }
            } else if !seen.contains(u) {
                let tail = dedup_filter_spec(rs.drop_first(), seen.insert(u), min);
                assert(tail[i] == out[i]);
            } else {
                let tail = dedup_filter_spec(rs.drop_first(), seen, min);
                assert(tail[i] == out[i]);
            }
        }
    }
}

/// The kept results carry pairwise distinct URLs: at most one entry per URL.
pub proof fn lemma_dedup_filter_distinct(rs: Seq<TaggedResult>, seen: Set<Seq<char>>, min: u32)
    ensures
        forall|i: int, j: int|
            0 <= i < j < dedup_filter_spec(rs, seen, min).len() ==> dedup_filter_spec(
                rs,
                seen,
                min,
            )[i].0.url@ != dedup_filter_spec(rs, seen, min)[j].0.url@,
    decreases rs.len(),
{
    if rs.len() > 0 {
        let u = rs[0].0.url@;
        let out = dedup_filter_spec(rs, seen, min);
        lemma_dedup_filter_distinct(rs.drop_first(), seen, min);
        lemma_dedup_filter_distinct(rs.drop_first(), seen.insert(u), min);
        lemma_dedup_filter_sound(rs.drop_first(), seen.insert(u), min);
        assert forall|i: int, j: int| 0 <= i < j < out.len() implies out[i].0.url@
            != out[j].0.url@ by {
            if !seen.contains(u) && rs[0].0.score >= min {
                let tail = dedup_filter_spec(rs.drop_first(), seen.insert(u), min);
                if i == 0 {
                    assert(out[j] == tail[j - 1]);
                    assert(!seen.insert(u).contains(tail[j - 1].0.url@));
                } else {
                    assert(out[i] == tail[i - 1] && out[j] == tail[j - 1]);
                }
            } else if !seen.contains(u) {
                let tail = dedup_filter_spec(rs.drop_first(), seen.insert(u), min);
                assert(out[i] == tail[i] && out[j] == tail[j]);
            } else {
                let tail = dedup_filter_spec(rs.drop_first(), seen, min);
                assert(out[i] == tail[i] && out[j] == tail[j]);
            }
        }
    }
}

/// First seen wins: every kept result is the first input entry that carries
/// its URL; later duplicates, even with different scores or titles, are
/// dropped.
pub proof fn lemma_dedup_filter_first_seen(rs: Seq<TaggedResult>, min: u32)
    ensures
        forall|i: int|
            0 <= i < dedup_filter_spec(rs, Set::empty(), min).len() ==> {
                let kept = #[trigger] dedup_filter_spec(rs, Set::empty(), min)[i];
                exists|j: int|
                    0 <= j < rs.len() && rs[j] == kept && forall|k: int|
                        0 <= k < j ==> (#[trigger] rs[k]).0.url@ != kept.0.url@
            },
{
    lemma_dedup_filter_first_seen_general(rs, Set::empty(), min);
}

/// Generalization of `lemma_dedup_filter_first_seen` over the seen set.
proof fn lemma_dedup_filter_first_seen_general(rs: Seq<TaggedResult>, seen: Set<Seq<char>>, min: u32)
    ensures
        forall|i: int|
            0 <= i < dedup_filter_spec(rs, seen, min).len() ==> {
                let kept = #[trigger] dedup_filter_spec(rs, seen, min)[i];
                exists|j: int|
                    0 <= j < rs.len() && rs[j] == kept && forall|k: int|
                        0 <= k < j ==> (#[trigger] rs[k]).0.url@ != kept.0.url@
            },
    decreases rs.len(),
{
    if rs.len() > 0 {
        let u = rs[0].0.url@;
        let out = dedup_filter_spec(rs, seen, min);
        lemma_dedup_filter_first_seen_general(rs.drop_first(), seen, min);
        lemma_dedup_filter_first_seen_general(rs.drop_first(), seen.insert(u), min);
        lemma_dedup_filter_sound(rs.drop_first(), seen.insert(u), min);
        assert forall|i: int| 0 <= i < out.len() implies {
            let kept = #[trigger] out[i];
            exists|j: int|
                0 <= j < rs.len() && rs[j] == kept && forall|k: int|
                    0 <= k < j ==> (#[trigger] rs[k]).0.url@ != kept.0.url@
        } by {
            let kept = out[i];
            if seen.contains(u) || rs[0].0.score < min || i > 0 {
                let tail_out = if seen.contains(u) {
                    dedup_filter_spec(rs.drop_first(), seen, min)
                } else {
                    dedup_filter_spec(rs.drop_first(), seen.insert(u), min)
                };
                let ti: int = if !seen.contains(u) && rs[0].0.score >= min {
                    i - 1
                } else {
                    i
                };
                assert(tail_out[ti] == kept);
                if !seen.contains(u) {
                    assert(!seen.insert(u).contains(kept.0.url@));
                    assert(kept.0.url@ != u);
                }
                let j = choose|j: int|
                    0 <= j < rs.drop_first().len() && rs.drop_first()[j] == kept && forall|k: int|
                        0 <= k < j ==> (#[trigger] rs.drop_first()[k]).0.url@ != kept.0.url@;
                assert(rs[j + 1] == kept);
                assert forall|k: int| 0 <= k < j + 1 implies (#[trigger] rs[k]).0.url@
                    != kept.0.url@ by {
                    if k == 0 {
                        if seen.contains(u) {
                            assert(!seen.contains(kept.0.url@)) by {
                                lemma_dedup_filter_sound(rs.drop_first(), seen, min);
                            };
                        }
                    } else {
                        assert(rs.drop_first()[k - 1] == rs[k]);
                    }
                }
            } else {
                assert(kept == rs[0]);
                assert(rs[0] == kept && forall|k: int|
                    0 <= k < 0 ==> (#[trigger] rs[k]).0.url@ != kept.0.url@);
            }
        }
    }
}

/// Nothing qualifying is lost: an input entry that scores at least `min`
/// and is the first to carry its URL, not seen before, is kept.
pub proof fn lemma_dedup_filter_complete(rs: Seq<TaggedResult>, seen: Set<Seq<char>>, min: u32)
    ensures
        forall|j: int|
            0 <= j < rs.len() && (#[trigger] rs[j]).0.score >= min && !seen.contains(rs[j].0.url@)
                && (forall|k: int| 0 <= k < j ==> (#[trigger] rs[k]).0.url@ != rs[j].0.url@)
                ==> dedup_filter_spec(rs, seen, min).contains(rs[j]),
    decreases rs.len(),
{
    if rs.len() > 0 {
        let u = rs[0].0.url@;
        lemma_dedup_filter_complete(rs.drop_first(), seen, min);
        lemma_dedup_filter_complete(rs.drop_first(), seen.insert(u), min);
        assert forall|j: int|
            0 <= j < rs.len() && (#[trigger] rs[j]).0.score >= min && !seen.contains(rs[j].0.url@)
                && (forall|k: int| 0 <= k < j ==> (#[trigger] rs[k]).0.url@ != rs[j].0.url@)
                implies dedup_filter_spec(rs, seen, min).contains(rs[j]) by {
            let out = dedup_filter_spec(rs, seen, min);
            if j == 0 {
                assert(out[0] == rs[0]);
                assert(out.contains(rs[0]));
            } else {
                assert(rs[j].0.url@ != u);
                assert(rs.drop_first()[j - 1] == rs[j]);
                assert(forall|k: int|
                    0 <= k < j - 1 ==> (#[trigger] rs.drop_first()[k]).0.url@ != rs.drop_first()[j
                        - 1].0.url@);
                if seen.contains(u) {
                    assert(dedup_filter_spec(rs.drop_first(), seen, min).contains(rs[j]));
                } else {
                    assert(!seen.insert(u).contains(rs[j].0.url@));
                    let tail = dedup_filter_spec(rs.drop_first(), seen.insert(u), min);
                    assert(tail.contains(rs[j]));
                    if rs[0].0.score >= min {
                        let ti = choose|ti: int| 0 <= ti < tail.len() && tail[ti] == rs[j];
                        assert(out[ti + 1] == rs[j]);
                        assert(out.contains(rs[j]));
                    }
                }
            }
        }
    }
}

/// Whether `u` is among the seen URL strings.
fn contains_url(seen: &Vec<String>, u: &String) -> (r: bool)
    ensures
        r == url_set(seen@).contains(u@),
{
    let mut k: usize = 0;
    while k < seen.len()
        invariant
            0 <= k <= seen@.len(),
            forall|j: int| 0 <= j < k ==> seen@[j]@ != u@,
        decreases seen@.len() - k,
    {
        if seen[k].eq(u) {
            assert(seen@[k as int]@ == u@);
            assert(url_set(seen@).contains(u@));
            return true;
        }
        k += 1;
    }
    assert(!url_set(seen@).contains(u@));
    false
}

/// Deduplicates by URL, first seen wins, and drops results under `min`.
pub fn dedup_filter(results: Vec<TaggedResult>, min: u32) -> (out: Vec<TaggedResult>)
    ensures
        out@ == dedup_filter_spec(results@, Set::empty(), min),
{
    let ghost full = results@;
    let mut out: Vec<TaggedResult> = Vec::new();
    let mut seen: Vec<String> = Vec::new();
    let mut it = results;
    let mut i: usize = 0;
    proof {
        assert(url_set(seen@) =~= Set::<Seq<char>>::empty());
        assert(full.skip(0) =~= full);
    }
    while i < it.len()
        invariant
            it@ == full,
            0 <= i <= full.len(),
            dedup_filter_spec(full, Set::empty(), min) == out@ + dedup_filter_spec(
                full.skip(i as int),
                url_set(seen@),
                min,
            ),
        decreases full.len() - i,
    {
        let ghost pre_seen = url_set(seen@);
        let ghost rest = full.skip(i as int);
        proof {
            assert(rest[0] == full[i as int]);
            assert(rest.drop_first() =~= full.skip(i + 1));
        }
        let url_seen = contains_url(&seen, &it[i].0.url);
        if url_seen {
            proof {
                assert(dedup_filter_spec(rest, pre_seen, min) == dedup_filter_spec(
                    full.skip(i + 1),
                    pre_seen,
                    min,
                ));
            }
        } else {
            let ghost old_seen = seen@;
            seen.push(it[i].0.url.clone());
            proof {
                assert(seen@ == old_seen.push(it@[i as int].0.url));
                assert forall|e: Seq<char>| #[trigger] url_set(seen@).contains(e) implies
                    pre_seen.insert(full[i as int].0.url@).contains(e) by {
                    let k = choose|k: int| 0 <= k < seen@.len() && seen@[k]@ == e;
                    if k < old_seen.len() {
                        assert(old_seen[k]@ == e);
                        assert(pre_seen.contains(e));
                    }
                }
                assert forall|e: Seq<char>|
                    pre_seen.insert(full[i as int].0.url@).contains(e) implies #[trigger] url_set(
                    seen@,
                ).contains(e) by {
                    if pre_seen.contains(e) {
                        let k = choose|k: int| 0 <= k < old_seen.len() && old_seen[k]@ == e;
                        assert(seen@[k]@ == e);
                    } else {
                        assert(seen@[old_seen.len() as int]@ == e);
                    }
                }
                assert(url_set(seen@) =~= pre_seen.insert(full[i as int].0.url@));
            }
            if it[i].0.score >= min {
                let item = (it[i].0.clone(), it[i].1.clone());
                assert(item == full[i as int]);
                out.push(item);
                proof {
                    assert(out@ + dedup_filter_spec(full.skip(i + 1), url_set(seen@), min)
                        =~= out@.drop_last() + (seq![full[i as int]] + dedup_filter_spec(
                        full.skip(i + 1),
                        url_set(seen@),
                        min,
                    )));
                }
            }
        }
        i += 1;
    }
    proof {
        assert(full.skip(full.len() as int) =~= Seq::<TaggedResult>::empty());
        assert(out@ + Seq::<TaggedResult>::empty() =~= out@);
    }
    out
}

/// The content a collected source carries, derived from the query text.
pub open spec fn content_for_spec(query_text: Seq<char>) -> Seq<char> {
    "Content fetched from source. Query: "@ + query_text
}

/// Builds the content text of a source for the query that found it.
fn content_for(query_text: &String) -> (r: String)
    ensures
        r@ == content_for_spec(query_text@),
{
    let mut s = "Content fetched from source. Query: ".to_owned();
    s.append(query_text.as_str());
    s
}

/// Turns kept results into sources, in order: URL, title and score carry
/// over, the content names the query, and each source gets a fresh
/// identifier.
fn to_sources(kept: Vec<TaggedResult>) -> (out: Vec<Source>)
    ensures
        out@.len() == kept@.len(),
        forall|i: int|
            0 <= i < kept@.len() ==> {
                let s = #[trigger] out@[i];
                s.url@ == kept@[i].0.url@ && s.title@ == kept@[i].0.title@ && s.relevance_score
                    == crate::source::clamp_score(kept@[i].0.score) && s.content@
                    == content_for_spec(kept@[i].1@) && source_wf(&s)
            },
{
    let mut out: Vec<Source> = Vec::new();
    let mut i: usize = 0;
    let n = kept.len();
    let mut it = kept;
    while i < n
        invariant
            n == it@.len(),
            0 <= i <= n,
            out@.len() == i,
            forall|j: int|
                0 <= j < i ==> {
                    let s = #[trigger] out@[j];
                    s.url@ == it@[j].0.url@ && s.title@ == it@[j].0.title@ && s.relevance_score
                        == crate::source::clamp_score(it@[j].0.score) && s.content@
                        == content_for_spec(it@[j].1@) && source_wf(&s)
                },
        decreases n - i,
    {
        let content = content_for(&it[i].1);
        let result = it[i].0.clone();
        out.push(result.into_source(content));
        i += 1;
    }
    out
}

/// Scores never rise along the sequence.
pub open spec fn sorted_desc(s: Seq<Source>) -> bool {
    forall|i: int, j: int|
        0 <= i < j < s.len() ==> s[i].relevance_score >= s[j].relevance_score
}

/// No two sources share a URL.
pub open spec fn distinct_urls(s: Seq<Source>) -> bool {
    forall|i: int, j: int| 0 <= i < j < s.len() ==> s[i].url@ != s[j].url@
}

/// Rearranging a source list cannot introduce a shared URL.
pub proof fn lemma_permutation_distinct_urls(a: Seq<Source>, b: Seq<Source>)
    requires
        a.to_multiset() == b.to_multiset(),
        distinct_urls(a),
    ensures
        distinct_urls(b),
{
    a.to_multiset_ensures();
    b.to_multiset_ensures();
    assert(a.len() == b.len());
    assert forall|i: int, j: int| 0 <= i < j < b.len() implies b[i].url@ != b[j].url@ by {
        if b[i].url@ == b[j].url@ {
            if b[i] == b[j] {
                let x = b[i];
                b.remove(j).to_multiset_ensures();
                assert(b.remove(j)[i] == x);
                assert(b.remove(j).contains(x));
                assert(b.remove(j).to_multiset() == b.to_multiset().remove(x));
                assert(b.remove(j).to_multiset().count(x) > 0);
                assert(b.to_multiset().remove(x).count(x) == b.to_multiset().count(x) - 1);
                assert(b.to_multiset().count(x) >= 2);
                assert(a.to_multiset().count(x) >= 2);
                assert(a.contains(x));
                let k = choose|k: int| 0 <= k < a.len() && a[k] == x;
                a.remove(k).to_multiset_ensures();
                assert(a.remove(k).to_multiset() == a.to_multiset().remove(x));
                assert(a.remove(k).to_multiset().count(x) >= 1);
                assert(a.remove(k).contains(x));
                let l = choose|l: int| 0 <= l < a.remove(k).len() && a.remove(k)[l] == x;
                if l < k {
                    assert(a[l] == x);
                    assert(a[l].url@ == a[k].url@);
                } else {
                    assert(a[l + 1] == x);
                    assert(a[k].url@ == a[l + 1].url@);
                }
            } else {
                assert(b.contains(b[i]) && b.contains(b[j]));
                assert(a.to_multiset().count(b[i]) > 0 && a.to_multiset().count(b[j]) > 0);
                assert(a.contains(b[i]) && a.contains(b[j]));
                let k = choose|k: int| 0 <= k < a.len() && a[k] == b[i];
                let l = choose|l: int| 0 <= l < a.len() && a[l] == b[j];
                assert(k != l);
                assert(a[k].url@ == a[l].url@);
            }
        }
    }
}

/// The position of the first highest-scored source.
fn max_score_index(v: &Vec<Source>) -> (m: usize)
    requires
        v@.len() > 0,
    ensures
        0 <= m < v@.len(),
        forall|k: int| 0 <= k < v@.len() ==> v@[k].relevance_score <= v@[m as int].relevance_score,
        forall|k: int| 0 <= k < m ==> v@[k].relevance_score < v@[m as int].relevance_score,
{
    let mut m: usize = 0;
    let mut k: usize = 1;
    while k < v.len()
        invariant
            0 <= m < k <= v@.len(),
            forall|j: int| 0 <= j < k ==> v@[j].relevance_score <= v@[m as int].relevance_score,
            forall|j: int| 0 <= j < m ==> v@[j].relevance_score < v@[m as int].relevance_score,
        decreases v@.len() - k,
    {
        if v[k].relevance_score > v[m].relevance_score {
            m = k;
        }
        k += 1;
    }
    m
}

/// `perm` witnesses that `out` rearranges `input` stably: it maps output
/// positions to pairwise distinct input positions, and entries with equal
/// scores keep their input order.
pub open spec fn stable_rearrangement(perm: Seq<int>, input: Seq<Source>, out: Seq<Source>) -> bool {
    &&& perm.len() == out.len()
    &&& out.len() == input.len()
    &&& forall|i: int|
        0 <= i < perm.len() ==> 0 <= #[trigger] perm[i] < input.len() && out[i] == input[perm[i]]
    &&& forall|i: int, j: int| 0 <= i < j < perm.len() ==> perm[i] != perm[j]
    &&& forall|i: int, j: int|
        0 <= i < j < out.len() && out[i].relevance_score == out[j].relevance_score ==> perm[i]
            < perm[j]
}

/// Sorts sources by relevance score, highest first, stably: repeated
/// extraction of the first maximum, so entries with equal scores keep
/// their order.
pub fn sort_sources_desc(input: Vec<Source>) -> (out: Vec<Source>)
    ensures
        out@.to_multiset() == input@.to_multiset(),
        out@.len() == input@.len(),
        sorted_desc(out@),
        exists|perm: Seq<int>| stable_rearrangement(perm, input@, out@),
{
    let ghost orig = input@;
    let mut work = input;
    let mut out: Vec<Source> = Vec::new();
    let ghost mut work_perm: Seq<int> = Seq::new(orig.len(), |i: int| i);
    let ghost mut out_perm: Seq<int> = Seq::empty();
    proof {
        out@.to_multiset_ensures();
        assert(out@.to_multiset().add(work@.to_multiset()) =~= orig.to_multiset());
    }
    while work.len() > 0
        invariant
            out@.to_multiset().add(work@.to_multiset()) == orig.to_multiset(),
            out@.len() + work@.len() == orig.len(),
            sorted_desc(out@),
            forall|i: int, j: int|
                0 <= i < out@.len() && 0 <= j < work@.len() ==> out@[i].relevance_score
                    >= work@[j].relevance_score,
            work_perm.len() == work@.len(),
            out_perm.len() == out@.len(),
            forall|i: int|
                0 <= i < work_perm.len() ==> 0 <= #[trigger] work_perm[i] < orig.len()
                    && work@[i] == orig[work_perm[i]],
            forall|i: int|
                0 <= i < out_perm.len() ==> 0 <= #[trigger] out_perm[i] < orig.len() && out@[i]
                    == orig[out_perm[i]],
            forall|i: int, j: int| 0 <= i < j < work_perm.len() ==> work_perm[i] < work_perm[j],
            forall|i: int, j: int| 0 <= i < j < out_perm.len() ==> out_perm[i] != out_perm[j],
            forall|i: int, j: int|
                0 <= i < out_perm.len() && 0 <= j < work_perm.len() ==> out_perm[i]
                    != work_perm[j],
            forall|i: int, j: int|
                0 <= i < j < out@.len() && out@[i].relevance_score == out@[j].relevance_score
                    ==> out_perm[i] < out_perm[j],
            forall|i: int, j: int|
                0 <= i < out@.len() && 0 <= j < work@.len() && out@[i].relevance_score
                    == work@[j].relevance_score ==> out_perm[i] < work_perm[j],
        decreases work@.len(),
    {
        let ghost pre_out = out@;
        let ghost pre_work = work@;
        let ghost pre_work_perm = work_perm;
        let ghost pre_out_perm = out_perm;
        let m = max_score_index(&work);
        let x = work.remove(m);
        out.push(x);
        proof {
            let xp = pre_work_perm[m as int];
            work_perm = pre_work_perm.remove(m as int);
            out_perm = pre_out_perm.push(xp);
            pre_work.to_multiset_ensures();
            pre_out.to_multiset_ensures();
            assert(work@.to_multiset() =~= pre_work.to_multiset().remove(x));
            assert(out@.to_multiset() =~= pre_out.to_multiset().insert(x));
            assert(pre_work.contains(x));
            assert(pre_work.to_multiset().count(x) > 0);
            assert(out@.to_multiset().add(work@.to_multiset()) =~= pre_out.to_multiset().add(
                pre_work.to_multiset(),
            ));
            // the removed entry shifts the later ones one place down
            assert(forall|i: int|
                0 <= i < work_perm.len() ==> #[trigger] work_perm[i] == if i < m {
                    pre_work_perm[i]
                } else {
                    pre_work_perm[i + 1]
                });
            assert(forall|i: int|
                0 <= i < work@.len() ==> #[trigger] work@[i] == if i < m {
                    pre_work[i]
                } else {
                    pre_work[i + 1]
                });
            // the extracted entry was the first maximum, so every remaining
            // entry with its score sat after it
            assert forall|j: int|
                0 <= j < work@.len() && x.relevance_score
                    == work@[j].relevance_score implies xp < work_perm[j] by {
                if j < m {
                    assert(pre_work[j].relevance_score < x.relevance_score);
                } else {
                    assert(work_perm[j] == pre_work_perm[j + 1]);
                    assert(pre_work_perm[m as int] < pre_work_perm[j + 1]);
                }
            }
            assert forall|i: int, j: int|
                0 <= i < j < out@.len() && out@[i].relevance_score
                    == out@[j].relevance_score implies out_perm[i] < out_perm[j] by {
                if j == out@.len() - 1 {
                    assert(out@[j] == x);
                    assert(out_perm[j] == xp);
                    assert(pre_out[i].relevance_score == pre_work[m as int].relevance_score);
                    assert(pre_out_perm[i] < pre_work_perm[m as int]);
                }
            }
        }
    }
    proof {
        work@.to_multiset_ensures();
        assert(work@.to_multiset() =~= Multiset::<Source>::empty());
        assert(out@.to_multiset() =~= orig.to_multiset());
        out@.to_multiset_ensures();
        assert(stable_rearrangement(out_perm, orig, out@));
    }
    out
}

/// How the executor filters and bounds its output.
#[derive(Clone, Copy)]
pub struct ExecutorConfig {
    /// How many sources to keep after ranking.
    pub max_sources: usize,
    /// The lowest relevance score kept; zero keeps everything. Scores
    /// range over `0 ..= SCORE_ONE`, so a minimum above `SCORE_ONE` keeps
    /// nothing of the score domain.
    pub min_score: u32,
}

impl Default for ExecutorConfig {
    /// Keeps at most ten sources and filters nothing.
    fn default() -> (r: ExecutorConfig)
        ensures
            r.max_sources == 10,
            r.min_score == 0,
    {
        ExecutorConfig { max_sources: 10, min_score: 0 }
    }
}

/// Runs a search plan against one provider and refines the results.
pub struct Executor<P> {
    provider: P,
    config: ExecutorConfig,
}

impl<P: SearchProvider> Executor<P> {
    /// The configuration the executor runs with.
    pub closed spec fn spec_config(&self) -> ExecutorConfig {
        self.config
    }

    /// Creates an executor over a provider.
    pub fn new(provider: P, config: ExecutorConfig) -> (r: Executor<P>)
        ensures
            r.spec_config() == config,
    {
        Executor { provider, config }
    }

    /// The provider the executor runs against.
    pub fn provider(&self) -> &P {
        &self.provider
    }

    /// Runs each query of the plan once against the provider, accumulates
    /// the results, deduplicates by URL (first seen wins), drops results
    /// under the configured minimum score, ranks by score descending and
    /// keeps at most the configured maximum. A provider error aborts the
    /// whole execution at once.
    pub fn execute(&mut self, plan: &SearchPlan) -> (r: Result<Vec<Source>, SearchError>)
        ensures
            final(self).spec_config() == old(self).spec_config(),
            r matches Ok(sources) ==> {
                &&& sources@.len() <= old(self).spec_config().max_sources
                &&& sorted_desc(sources@)
                &&& distinct_urls(sources@)
                &&& forall|i: int|
                    0 <= i < sources@.len() ==> (#[trigger] sources@[i]).relevance_score
                        >= crate::source::clamp_score(old(self).spec_config().min_score)
                        && source_wf(&sources@[i])
            },
    {
        execute_plan(&mut self.provider, &self.config, plan)
    }
}

/// Runs each query of the plan once against the provider, accumulates the
/// results, deduplicates by URL (first seen wins), drops results under the
/// minimum score, ranks by score descending and keeps at most `max_sources`.
/// A provider error aborts the whole execution at once.
pub fn execute_plan<P: SearchProvider>(
    provider: &mut P,
    config: &ExecutorConfig,
    plan: &SearchPlan,
) -> (r: Result<Vec<Source>, SearchError>)
    ensures
        r matches Ok(sources) ==> {
            &&& sources@.len() <= config.max_sources
            &&& sorted_desc(sources@)
            &&& distinct_urls(sources@)
            &&& forall|i: int|
                0 <= i < sources@.len() ==> (#[trigger] sources@[i]).relevance_score
                    >= crate::source::clamp_score(config.min_score) && source_wf(&sources@[i])
        },
{
    let mut tagged: Vec<TaggedResult> = Vec::new();
    let mut qi: usize = 0;
    while qi < plan.queries.len()
        decreases plan.queries@.len() - qi,
    {
        let results = match provider.search(&plan.queries[qi]) {
            Ok(results) => results,
            Err(e) => {
                return Err(e);
            },
        };
        let mut ri: usize = 0;
        let n = results.len();
        let mut it = results;
        while ri < n
            invariant
                n == it@.len(),
                0 <= ri <= n,
                0 <= qi < plan.queries@.len(),
            decreases n - ri,
        {
            let item = (it[ri].clone(), plan.queries[qi].text.clone());
            tagged.push(item);
            ri += 1;
        }
        qi += 1;
    }
    let min = config.min_score;
        let ghost tagged_view = tagged@;
        let kept = dedup_filter(tagged, min);
        let ghost kept_view = kept@;
        proof {
            lemma_dedup_filter_sound(tagged_view, Set::empty(), min);
            lemma_dedup_filter_distinct(tagged_view, Set::empty(), min);
            assert(kept_view == dedup_filter_spec(tagged_view, Set::empty(), min));
        }
        let unsorted = to_sources(kept);
        proof {
            assert forall|i: int, j: int| 0 <= i < j < unsorted@.len() implies unsorted@[i].url@
                != unsorted@[j].url@ by {
                assert(unsorted@[i].url@ == kept_view[i].0.url@);
                assert(unsorted@[j].url@ == kept_view[j].0.url@);
                assert(dedup_filter_spec(tagged_view, Set::empty(), min)[i].0.url@
                    != dedup_filter_spec(tagged_view, Set::empty(), min)[j].0.url@);
            }
            assert(distinct_urls(unsorted@));
            assert forall|i: int| 0 <= i < unsorted@.len() implies (
            #[trigger] unsorted@[i]).relevance_score >= crate::source::clamp_score(min) by {
                let kept_i = dedup_filter_spec(tagged_view, Set::empty(), min)[i];
                assert(kept_i.0.score >= min);
                assert(unsorted@[i].relevance_score == crate::source::clamp_score(kept_i.0.score));
            }
        }
        let mut sources = sort_sources_desc(unsorted);
        proof {
            lemma_permutation_distinct_urls(unsorted@, sources@);
            sources@.to_multiset_ensures();
            unsorted@.to_multiset_ensures();
            assert forall|i: int| 0 <= i < sources@.len() implies (
            #[trigger] sources@[i]).relevance_score >= crate::source::clamp_score(min)
                && source_wf(&sources@[i]) by {
                assert(sources@.contains(sources@[i]));
                assert(sources@.to_multiset().count(sources@[i]) > 0);
                assert(unsorted@.contains(sources@[i]));
            }
        }
        let max = config.max_sources;
        let ghost pre_truncate = sources@;
        sources.truncate(max);
        proof {
            assert(sources@ == if max as int <= pre_truncate.len() {
                pre_truncate.subrange(0, max as int)
            } else {
                pre_truncate
            });
        }
        Ok(sources)
}

} // verus!
