//! Lenient extraction of one JSON object from free model text, and its
//! resolution into a research answer: citations are kept only when their
//! source identifier names a source of this very synthesis call, and
//! confidence words are mapped case-insensitively with `Medium` as the
//! documented default.

use vstd::prelude::*;
use vstd::string::StrSliceExecFns;
use vstd::string::StringExecFns;

use crate::answer::Citation;
use crate::answer::CitationView;
use crate::answer::Confidence;
use crate::answer::ResearchAnswer;
use crate::answer::SynthesisMetadata;
use crate::jsonval::json_from_str;
use crate::jsonval::value_as_array;
use crate::jsonval::value_as_string;
use crate::jsonval::value_get;
use crate::jsonval::value_is_null;
use crate::source::Source;
use crate::strutil::eq_ignore_ascii_case;
use crate::strutil::find_char;
use crate::strutil::find_str;
use crate::strutil::first_occurrence;
use crate::strutil::lemma_first_occurrence_none;
use crate::strutil::lemma_first_occurrence_some;
use crate::strutil::is_space;
use crate::strutil::leading_spaces;
use crate::strutil::occurs_at;
use crate::strutil::trailing_spaces;
use crate::strutil::lower_seq;
use crate::strutil::rfind_char;
use crate::strutil::trim;
use crate::strutil::trim_spec;

verus! {

/// Why a model response could not be turned into an answer. The two kinds
/// are distinct so a caller can tell missing JSON from malformed JSON.
#[derive(Debug)]
pub enum ParseError {
    /// No JSON object could be found in the text.
    NoJsonFound,
    /// JSON was found but could not be decoded into the expected shape.
    InvalidJson(String),
}

/// The human-readable message of a parse error.
pub open spec fn parse_error_message_spec(e: &ParseError) -> Seq<char> {
    match e {
        ParseError::NoJsonFound => "no JSON object found in response"@,
        ParseError::InvalidJson(m) => "invalid JSON: "@ + m@,
    }
}

impl ParseError {
    /// Renders the error for humans.
    pub fn message(&self) -> (r: String)
        ensures
            r@ == parse_error_message_spec(self),
    {
        match self {
            ParseError::NoJsonFound => "no JSON object found in response".to_owned(),
            ParseError::InvalidJson(m) => {
                let mut s = "invalid JSON: ".to_owned();
                s.append(m.as_str());
                s
            },
        }
    }
}

impl Clone for ParseError {
    fn clone(&self) -> (r: Self)
        ensures
            r == *self,
    {
        match self {
            ParseError::NoJsonFound => ParseError::NoJsonFound,
            ParseError::InvalidJson(m) => ParseError::InvalidJson(m.clone()),
        }
    }
}

/// The content of the first fence of `t` opened by `opening` and closed by
/// ```` ``` ````, trimmed, when both markers exist.
pub open spec fn fenced_content(t: Seq<char>, opening: Seq<char>) -> Option<Seq<char>> {
    match first_occurrence(t, opening) {
        Some(s) => {
            let after = t.skip(s + opening.len() as int);
            match first_occurrence(after, "```"@) {
                Some(e) => Some(trim_spec(after.take(e))),
                None => None,
            }
        },
        None => None,
    }
}

/// The content of the first ```` ```json ```` fence of `t`, trimmed, when
/// both the opening marker and a closing fence exist.
pub open spec fn fenced_json_block(t: Seq<char>) -> Option<Seq<char>> {
    fenced_content(t, "```json"@)
}

/// The content of the first ```` ``` ```` fence of `t`, trimmed, when both
/// the opening marker and a closing fence exist.
pub open spec fn fenced_block(t: Seq<char>) -> Option<Seq<char>> {
    fenced_content(t, "```"@)
}

/// Extracts the trimmed content of the first fence opened by `opening`.
#[verifier::rlimit(100)]
#[verifier::spinoff_prover]
fn extract_fenced(t: &str, opening: &str) -> (r: Option<String>)
    ensures
        match r {
            Some(s) => fenced_content(t@, opening@) == Some(s@),
            None => fenced_content(t@, opening@) is None,
        },
{
    let n = t.unicode_len();
    let ol = opening.unicode_len();
    match find_str(t, opening) {
        Some(s) => {
            let after = t.substring_char(s + ol, n);
            proof {
                assert(after@ =~= t@.skip(s + ol));
            }
            match find_str(after, "```") {
                Some(e) => {
                    let inner = trim(after.substring_char(0, e));
                    proof {
                        assert(after@.subrange(0, e as int) =~= after@.take(e as int));
                    }
                    Some(inner.to_owned())
                },
                None => None,
            }
        },
        None => None,
    }
}

/// Extracts the span from the first `{` to the last `}`, when the first
/// comes before the last.
fn extract_brace_span(t: &str) -> (r: Option<String>)
    ensures
        match r {
            Some(s) => brace_span(t@) == Some(s@),
            None => brace_span(t@) is None,
        },
{
    let n = t.unicode_len();
    let first_open = find_char(t, '{');
    let last_close = rfind_char(t, '}');
    match (first_open, last_close) {
        (Some(fs), Some(le)) => {
            proof {
                let s = choose|s: int|
                    0 <= s < t@.len() && t@[s] == '{' && forall|j: int| 0 <= j < s ==> t@[j] != '{';
                let e = choose|e: int|
                    0 <= e < t@.len() && t@[e] == '}' && forall|j: int|
                        e < j < t@.len() ==> t@[j] != '}';
                assert(s == fs as int);
                assert(e == le as int);
            }
            if fs < le {
                Some(t.substring_char(fs, le + 1).to_owned())
            } else {
                None
            }
        },
        _ => {
            proof {
                assert(brace_span(t@) is None);
            }
            None
        },
    }
}

/// The span from the first `{` to the last `}` of `t`, both included, when
/// the first `{` comes before the last `}`.
pub open spec fn brace_span(t: Seq<char>) -> Option<Seq<char>> {
    if (exists|i: int| 0 <= i < t.len() && t[i] == '{') && (exists|i: int|
        0 <= i < t.len() && t[i] == '}') {
        let s = choose|s: int|
            0 <= s < t.len() && t[s] == '{' && forall|j: int| 0 <= j < s ==> t[j] != '{';
        let e = choose|e: int|
            0 <= e < t.len() && t[e] == '}' && forall|j: int| e < j < t.len() ==> t[j] != '}';
        if s < e {
            Some(t.subrange(s, e + 1))
        } else {
            None
        }
    } else {
        None
    }
}

/// The JSON text extracted from free model text, by the first applicable
/// strategy: the whole trimmed text when it is itself a `{...}` object; the
/// first ```` ```json ```` fence; the first ```` ``` ```` fence whose
/// trimmed content starts with `{`; the span from the first `{` to the last
/// `}`. `None` when no strategy applies.
pub open spec fn extract_json_spec(text: Seq<char>) -> Option<Seq<char>> {
    let t = trim_spec(text);
    if t.len() > 0 && t.first() == '{' && t.last() == '}' {
        Some(t)
    } else if fenced_json_block(t) is Some {
        fenced_json_block(t)
    } else if fenced_block(t) matches Some(inner) && inner.len() > 0 && inner.first() == '{' {
        fenced_block(t)
    } else {
        brace_span(t)
    }
}

/// Extracts one JSON object from free model text.
pub fn extract_json(text: &str) -> (r: Option<String>)
    ensures
        match r {
            Some(s) => extract_json_spec(text@) == Some(s@),
            None => extract_json_spec(text@) is None,
        },
{
    let t = trim(text);
    let n = t.unicode_len();
    if n > 0 && t.get_char(0) == '{' && t.get_char(n - 1) == '}' {
        return Some(t.to_owned());
    }
    match extract_fenced(t, "```json") {
        Some(block) => {
            return Some(block);
        },
        None => {},
    }
    match extract_fenced(t, "```") {
        Some(inner) => {
            let m = inner.as_str().unicode_len();
            if m > 0 && inner.as_str().get_char(0) == '{' {
                return Some(inner);
            }
        },
        None => {},
    }
    extract_brace_span(t)
}

/// One citation as the model wrote it, before resolution.
pub struct RawCitation {
    pub claim: String,
    pub source_id: String,
    pub quote: Option<String>,
}

impl View for RawCitation {
    type V = CitationView;

    open spec fn view(&self) -> CitationView {
        CitationView {
            claim: self.claim@,
            source_id: self.source_id@,
            quote: match self.quote {
                Some(q) => Some(q@),
                None => None,
            },
        }
    }
}

/// The decoded shape of a synthesis response, before citation resolution
/// and confidence mapping.
pub struct RawSynthesis {
    pub summary: String,
    pub detail: String,
    pub citations: Vec<RawCitation>,
    pub confidence: String,
    pub limitations: Vec<String>,
}

/// Decodes one citation object: `claim` and `source_id` must be strings;
/// `quote` may be missing or null.
fn decode_citation(v: &serde_json::Value) -> Option<RawCitation> {
    let claim = match value_get(v, "claim") {
        Some(c) => match value_as_string(c) {
            Some(s) => s,
            None => {
                return None;
            },
        },
        None => {
            return None;
        },
    };
    let source_id = match value_get(v, "source_id") {
        Some(c) => match value_as_string(c) {
            Some(s) => s,
            None => {
                return None;
            },
        },
        None => {
            return None;
        },
    };
    let quote = match value_get(v, "quote") {
        Some(q) => {
            if value_is_null(q) {
                None
            } else {
                match value_as_string(q) {
                    Some(s) => Some(s),
                    None => {
                        return None;
                    },
                }
            }
        },
        None => None,
    };
    Some(RawCitation { claim, source_id, quote })
}

/// Decodes the expected response shape: `summary`, `detail` and
/// `confidence` must be strings, `citations` an array of citation objects;
/// `limitations` may be missing and defaults to the empty list.
fn decode_raw(v: &serde_json::Value) -> Option<RawSynthesis> {
    let summary = match value_get(v, "summary") {
        Some(c) => match value_as_string(c) {
            Some(s) => s,
            None => {
                return None;
            },
        },
        None => {
            return None;
        },
    };
    let detail = match value_get(v, "detail") {
        Some(c) => match value_as_string(c) {
            Some(s) => s,
            None => {
                return None;
            },
        },
        None => {
            return None;
        },
    };
    let confidence = match value_get(v, "confidence") {
        Some(c) => match value_as_string(c) {
            Some(s) => s,
            None => {
                return None;
            },
        },
        None => {
            return None;
        },
    };
    let citations_value = match value_get(v, "citations") {
        Some(c) => c,
        None => {
            return None;
        },
    };
    let citation_items = match value_as_array(citations_value) {
        Some(a) => a,
        None => {
            return None;
        },
    };
    let mut citations: Vec<RawCitation> = Vec::new();
    let mut i: usize = 0;
    while i < citation_items.len()
        decreases citation_items@.len() - i,
    {
        match decode_citation(&citation_items[i]) {
            Some(c) => citations.push(c),
            None => {
                return None;
            },
        }
        i += 1;
    }
    let limitations = match value_get(v, "limitations") {
        Some(l) => {
            let items = match value_as_array(l) {
                Some(a) => a,
                None => {
                    return None;
                },
            };
            let mut limitations: Vec<String> = Vec::new();
            let mut j: usize = 0;
            while j < items.len()
                decreases items@.len() - j,
            {
                match value_as_string(&items[j]) {
                    Some(s) => limitations.push(s),
                    None => {
                        return None;
                    },
                }
                j += 1;
            }
            limitations
        },
        None => Vec::new(),
    };
    Some(RawSynthesis { summary, detail, citations, confidence, limitations })
}

/// The confidence level a word names: `high`, `medium`, `low` and
/// `insufficient` up to ASCII case; every other word falls back to
/// `Medium`, an explicit, documented default rather than a failure.
pub open spec fn spec_confidence_of(s: Seq<char>) -> Confidence {
    if lower_seq(s) == "high"@ {
        Confidence::High
    } else if lower_seq(s) == "medium"@ {
        Confidence::Medium
    } else if lower_seq(s) == "low"@ {
        Confidence::Low
    } else if lower_seq(s) == "insufficient"@ {
        Confidence::Insufficient
    } else {
        Confidence::Medium
    }
}

/// Every word outside the confidence vocabulary maps to `Medium`.
pub proof fn lemma_unknown_confidence_defaults(s: Seq<char>)
    requires
        lower_seq(s) != "high"@,
        lower_seq(s) != "low"@,
        lower_seq(s) != "insufficient"@,
    ensures
        spec_confidence_of(s) == Confidence::Medium,
{
}

/// Maps a confidence word to its level, case-insensitively, with `Medium`
/// as the default for unknown words.
pub fn parse_confidence(s: &str) -> (r: Confidence)
    ensures
        r == spec_confidence_of(s@),
{
    proof {
        reveal_strlit("high");
        reveal_strlit("medium");
        reveal_strlit("low");
        reveal_strlit("insufficient");
        assert(lower_seq("high"@) =~= "high"@);
        assert(lower_seq("medium"@) =~= "medium"@);
        assert(lower_seq("low"@) =~= "low"@);
        assert(lower_seq("insufficient"@) =~= "insufficient"@);
    }
    if eq_ignore_ascii_case(s, "high") {
        Confidence::High
    } else if eq_ignore_ascii_case(s, "medium") {
        Confidence::Medium
    } else if eq_ignore_ascii_case(s, "low") {
        Confidence::Low
    } else if eq_ignore_ascii_case(s, "insufficient") {
        Confidence::Insufficient
    } else {
        Confidence::Medium
    }
}

/// Some source in the list carries this identifier.
pub open spec fn has_source_id(sources: Seq<Source>, id: Seq<char>) -> bool {
    exists|k: int| 0 <= k < sources.len() && sources[k].id@ == id
}

/// The views of a citation list.
pub open spec fn citation_views(cs: Seq<Citation>) -> Seq<CitationView> {
    cs.map_values(|c: Citation| c@)
}

/// Citation resolution, over views: citations whose `source_id` names no
/// source of this call are dropped silently; the others keep their claim
/// and quote, in order.
pub open spec fn resolve_citations_spec(raw: Seq<RawCitation>, sources: Seq<Source>) -> Seq<
    CitationView,
>
    decreases raw.len(),
{
    if raw.len() == 0 {
        Seq::empty()
    } else {
        let rest = resolve_citations_spec(raw.drop_first(), sources);
        if has_source_id(sources, raw[0].source_id@) {
            seq![raw[0]@] + rest
        } else {
            rest
        }
    }
}

/// The position of the first source carrying the identifier, or `None`.
fn find_source_index(sources: &Vec<Source>, sid: &String) -> (r: Option<usize>)
    ensures
        match r {
            Some(k) => 0 <= k < sources@.len() && sources@[k as int].id@ == sid@ && forall|l: int|
                0 <= l < k ==> sources@[l].id@ != sid@,
            None => !has_source_id(sources@, sid@),
        },
{
    let mut k: usize = 0;
    while k < sources.len()
        invariant
            0 <= k <= sources@.len(),
            forall|l: int| 0 <= l < k ==> sources@[l].id@ != sid@,
        decreases sources@.len() - k,
    {
        if sources[k].id.matches_str(sid) {
            return Some(k);
        }
        k += 1;
    }
    None
}

/// Resolves raw citations against the sources of this synthesis call: a
/// kept citation is bound to the first source carrying its identifier.
pub fn resolve_citations(raw: Vec<RawCitation>, sources: &Vec<Source>) -> (out: Vec<Citation>)
    ensures
        citation_views(out@) == resolve_citations_spec(raw@, sources@),
{
    let ghost full = raw@;
    let mut out: Vec<Citation> = Vec::new();
    let it = raw;
    let mut i: usize = 0;
    proof {
        assert(full.skip(0) =~= full);
        assert(citation_views(out@) =~= Seq::<CitationView>::empty());
    }
    while i < it.len()
        invariant
            it@ == full,
            0 <= i <= full.len(),
            resolve_citations_spec(full, sources@) == citation_views(out@)
                + resolve_citations_spec(full.skip(i as int), sources@),
        decreases full.len() - i,
    {
        let ghost rest = full.skip(i as int);
        proof {
            assert(rest[0] == full[i as int]);
            assert(rest.drop_first() =~= full.skip(i + 1));
        }
        match find_source_index(sources, &it[i].source_id) {
            Some(k) => {
                proof {
                    assert(has_source_id(sources@, full[i as int].source_id@));
                }
                let quote = match &it[i].quote {
                    Some(q) => Some(q.clone()),
                    None => None,
                };
                let c = Citation {
                    claim: it[i].claim.clone(),
                    source_id: sources[k].id.clone(),
                    quote,
                };
                assert(c@ == resolve_citations_spec(rest, sources@)[0]);
                let ghost pre = out@;
                out.push(c);
                proof {
                    assert(citation_views(out@) =~= citation_views(pre).push(c@));
                    assert(citation_views(out@) + resolve_citations_spec(full.skip(i + 1), sources@)
                        =~= citation_views(pre) + resolve_citations_spec(rest, sources@));
                }
            },
            None => {},
        }
        i += 1;
    }
    proof {
        assert(full.skip(full.len() as int) =~= Seq::<RawCitation>::empty());
        assert(citation_views(out@) + Seq::<CitationView>::empty() =~= citation_views(out@));
    }
    out
}

/// Finds, for one resolved citation, the raw citation it came from.
proof fn lemma_resolution_sound_at(raw: Seq<RawCitation>, sources: Seq<Source>, i: int) -> (j: int)
    requires
        0 <= i < resolve_citations_spec(raw, sources).len(),
    ensures
        0 <= j < raw.len(),
        raw[j]@ == resolve_citations_spec(raw, sources)[i],
        has_source_id(sources, resolve_citations_spec(raw, sources)[i].source_id),
    decreases raw.len(),
{
    let out = resolve_citations_spec(raw, sources);
    let rest = resolve_citations_spec(raw.drop_first(), sources);
    if has_source_id(sources, raw[0].source_id@) && i == 0 {
        assert(out[0] == raw[0]@);
        0
    } else {
        let ri: int = if has_source_id(sources, raw[0].source_id@) {
            i - 1
        } else {
            i
        };
        assert(rest[ri] == out[i]);
        let tj = lemma_resolution_sound_at(raw.drop_first(), sources, ri);
        assert(raw[tj + 1] == raw.drop_first()[tj]);
        tj + 1
    }
}

/// Every resolved citation names a source of this call, and its claim and
/// quote come intact from some raw citation with the same identifier.
pub proof fn lemma_resolution_drops_unknown(raw: Seq<RawCitation>, sources: Seq<Source>)
    ensures
        forall|i: int|
            0 <= i < resolve_citations_spec(raw, sources).len() ==> {
                let c = #[trigger] resolve_citations_spec(raw, sources)[i];
                has_source_id(sources, c.source_id) && exists|j: int|
                    0 <= j < raw.len() && (#[trigger] raw[j])@ == c
            },
{
    assert forall|i: int| 0 <= i < resolve_citations_spec(raw, sources).len() implies {
        let c = #[trigger] resolve_citations_spec(raw, sources)[i];
        has_source_id(sources, c.source_id) && exists|j: int|
            0 <= j < raw.len() && (#[trigger] raw[j])@ == c
    } by {
        let j = lemma_resolution_sound_at(raw, sources, i);
        assert(0 <= j < raw.len() && raw[j]@ == resolve_citations_spec(raw, sources)[i]);
    }
}

/// Finds, for one raw citation with a known source, where it was retained.
proof fn lemma_resolution_keeps_at(raw: Seq<RawCitation>, sources: Seq<Source>, j: int) -> (i: int)
    requires
        0 <= j < raw.len(),
        has_source_id(sources, raw[j].source_id@),
    ensures
        0 <= i < resolve_citations_spec(raw, sources).len(),
        resolve_citations_spec(raw, sources)[i] == raw[j]@,
    decreases raw.len(),
{
    let out = resolve_citations_spec(raw, sources);
    let rest = resolve_citations_spec(raw.drop_first(), sources);
    if j == 0 {
        assert(out[0] == raw[0]@);
        0
    } else {
        assert(raw.drop_first()[j - 1] == raw[j]);
        let ti = lemma_resolution_keeps_at(raw.drop_first(), sources, j - 1);
        if has_source_id(sources, raw[0].source_id@) {
            assert(out[ti + 1] == rest[ti]);
            ti + 1
        } else {
            assert(out[ti] == rest[ti]);
            ti
        }
    }
}

/// Every raw citation whose identifier names a source of this call is
/// retained, claim and quote intact.
pub proof fn lemma_resolution_keeps_known(raw: Seq<RawCitation>, sources: Seq<Source>)
    ensures
        forall|j: int|
            0 <= j < raw.len() && has_source_id(sources, (#[trigger] raw[j]).source_id@)
                ==> exists|i: int|
                0 <= i < resolve_citations_spec(raw, sources).len()
                    && #[trigger] resolve_citations_spec(raw, sources)[i] == raw[j]@,
{
    assert forall|j: int|
        0 <= j < raw.len() && has_source_id(sources, (#[trigger] raw[j]).source_id@)
            implies exists|i: int|
        0 <= i < resolve_citations_spec(raw, sources).len()
            && #[trigger] resolve_citations_spec(raw, sources)[i] == raw[j]@ by {
        let i = lemma_resolution_keeps_at(raw, sources, j);
        assert(resolve_citations_spec(raw, sources)[i] == raw[j]@);
    }
}

/// What assembling an answer from a decoded response means: summary,
/// detail and limitations carry over, citations are resolved against the
/// sources of this call, the confidence word is mapped, and the metadata
/// records the model and the tokens used.
pub open spec fn answer_assembled(
    ans: &ResearchAnswer,
    raw: &RawSynthesis,
    sources: Seq<Source>,
    model: Seq<char>,
    tokens_used: usize,
) -> bool {
    &&& ans.summary == raw.summary
    &&& ans.detail == raw.detail
    &&& citation_views(ans.citations@) == resolve_citations_spec(raw.citations@, sources)
    &&& ans.confidence == spec_confidence_of(raw.confidence@)
    &&& ans.limitations@ == raw.limitations@
    &&& ans.synthesis_metadata.model@ == model
    &&& ans.synthesis_metadata.tokens_used == tokens_used
    &&& ans.synthesis_metadata.synthesis_duration_ms == 0
}

/// Assembles the answer from a decoded response.
pub fn assemble_answer(
    raw: RawSynthesis,
    sources: &Vec<Source>,
    model: &str,
    tokens_used: usize,
) -> (ans: ResearchAnswer)
    ensures
        answer_assembled(&ans, &raw, sources@, model@, tokens_used),
{
    let confidence = parse_confidence(raw.confidence.as_str());
    let citations = resolve_citations(raw.citations, sources);
    ResearchAnswer {
        summary: raw.summary,
        detail: raw.detail,
        citations,
        confidence,
        limitations: raw.limitations,
        synthesis_metadata: SynthesisMetadata {
            model: model.to_owned(),
            tokens_used,
            synthesis_duration_ms: 0,
        },
    }
}

/// Parses a model's free-text response into an answer. Fails with
/// `NoJsonFound` exactly when no extraction strategy applies; fails with
/// `InvalidJson` when the extracted text is no JSON document of the
/// expected shape; otherwise the answer is assembled from the decoded
/// response.
pub fn parse_synthesis_response(
    text: &str,
    sources: &Vec<Source>,
    model: &str,
    tokens_used: usize,
) -> (r: Result<ResearchAnswer, ParseError>)
    ensures
        (r matches Err(e) && e is NoJsonFound) <==> extract_json_spec(text@) is None,
        r matches Err(e) && e is InvalidJson ==> extract_json_spec(text@) is Some,
        r matches Ok(ans) ==> extract_json_spec(text@) is Some && exists|raw: RawSynthesis|
            answer_assembled(&ans, &raw, sources@, model@, tokens_used),
{
    let json = match extract_json(text) {
        Some(json) => json,
        None => {
            return Err(ParseError::NoJsonFound);
        },
    };
    let value = match json_from_str(json.as_str()) {
        Ok(v) => v,
        Err(e) => {
            return Err(ParseError::InvalidJson(e));
        },
    };
    let raw = match decode_raw(&value) {
        Some(raw) => raw,
        None => {
            return Err(ParseError::InvalidJson("response shape not recognized".to_owned()));
        },
    };
    let ghost raw_snapshot = raw;
    let ans = assemble_answer(raw, sources, model, tokens_used);
    proof {
        assert(answer_assembled(&ans, &raw_snapshot, sources@, model@, tokens_used));
    }
    Ok(ans)
}

/// Trimming leaves a text alone when neither end is white space.
proof fn lemma_trim_noop(s: Seq<char>)
    requires
        s.len() > 0,
        !is_space(s.first()),
        !is_space(s.last()),
    ensures
        trim_spec(s) == s,
{
    crate::strutil::lemma_leading_spaces_at(s, 0);
    crate::strutil::lemma_trailing_spaces_at(s, s.len() - 1);
    assert(s.subrange(0, s.len() as int) =~= s);
}

/// Trimming strips exactly one line break from either end of a text whose
/// own ends are not white space.
proof fn lemma_trim_wrapped(j: Seq<char>)
    requires
        j.len() > 0,
        !is_space(j.first()),
        !is_space(j.last()),
    ensures
        trim_spec("\n"@ + j + "\n"@) == j,
{
    reveal_strlit("\n");
    let s = "\n"@ + j + "\n"@;
    assert(s.len() == j.len() + 2);
    assert(s[0] == '\n');
    assert(forall|k: int| 0 <= k < j.len() ==> s[k + 1] == j[k]);
    assert(s[j.len() as int + 1] == '\n');
    assert(s[1] == j[0]);
    assert(s[j.len() as int] == j[j.len() - 1]);
    crate::strutil::lemma_leading_spaces_at(s, 1);
    crate::strutil::lemma_trailing_spaces_at(s, j.len() as int);
    assert(trailing_spaces(s) == 1);
    assert(s.subrange(1, s.len() - 1) =~= j);
}

/// A fence marker occurs nowhere in a text without backticks around a
/// backtick-free object, except where the fences stand.
proof fn lemma_no_fence_in_wrapped(j: Seq<char>, i: int)
    requires
        forall|k: int| !occurs_at(j, "```"@, k),
        0 <= i < 2 + j.len(),
    ensures
        !occurs_at("\n"@ + j + "\n```"@, "```"@, i),
{
    reveal_strlit("```");
    reveal_strlit("\n```");
    reveal_strlit("\n");
    let after = "\n"@ + j + "\n```"@;
    assert(after.len() == j.len() + 5);
    assert(after[0] == '\n');
    assert(forall|k: int| 0 <= k < j.len() ==> after[k + 1] == j[k]);
    assert(after[j.len() as int + 1] == '\n');
    if occurs_at(after, "```"@, i) {
        assert(after.subrange(i, i + 3) == "```"@);
        assert(after[i] == '`' && after[i + 1] == '`' && after[i + 2] == '`') by {
            assert(after.subrange(i, i + 3)[0] == after[i]);
            assert(after.subrange(i, i + 3)[1] == after[i + 1]);
            assert(after.subrange(i, i + 3)[2] == after[i + 2]);
        }
        if i == 0 {
            assert(after[0] == '\n');
            assert(false);
        } else if i + 2 <= j.len() {
            assert(occurs_at(j, "```"@, i - 1)) by {
                assert(j.subrange(i - 1, i + 2) =~= "```"@);
            }
            assert(false);
        } else if i <= j.len() + 1 {
            assert(after[j.len() as int + 1] == '\n');
            assert(i <= j.len() + 1 <= i + 2);
            assert(after[j.len() as int + 1] == '`');
            assert(false);
        }
    }
}

/// Shared facts about a fence interior: the closing marker of
/// `"\n" + j + "\n```"` stands right after the object, and the content
/// before it trims back to the object.
proof fn lemma_fence_interior(j: Seq<char>)
    requires
        j.len() > 0,
        !is_space(j.first()),
        !is_space(j.last()),
        forall|k: int| !occurs_at(j, "```"@, k),
    ensures
        first_occurrence("\n"@ + j + "\n```"@, "```"@) == Some(j.len() as int + 2),
        trim_spec(("\n"@ + j + "\n```"@).take(j.len() as int + 2)) == j,
{
    reveal_strlit("```");
    reveal_strlit("\n```");
    reveal_strlit("\n");
    let after = "\n"@ + j + "\n```"@;
    let fence_pos: int = j.len() as int + 2;
    assert(occurs_at(after, "```"@, fence_pos)) by {
        assert(after.subrange(j.len() as int + 2, j.len() as int + 5) =~= "```"@);
    }
    assert(forall|i: int| 0 <= i < fence_pos ==> !occurs_at(after, "```"@, i)) by {
        assert forall|i: int| 0 <= i < fence_pos implies !occurs_at(after, "```"@, i) by {
            lemma_no_fence_in_wrapped(j, i);
        }
    }
    assert(first_occurrence(after, "```"@) == Some(fence_pos)) by {
        lemma_first_occurrence_some(after, "```"@, fence_pos);
    }
    assert(after.take(fence_pos) =~= "\n"@ + j + "\n"@);
    lemma_trim_wrapped(j);
}

/// A trimmed object text is extracted from the bare text unchanged.
proof fn lemma_extract_bare(j: Seq<char>)
    requires
        j.len() >= 2,
        j.first() == '{',
        j.last() == '}',
        !is_space(j.first()),
        !is_space(j.last()),
    ensures
        extract_json_spec(j) == Some(j),
{
    lemma_trim_noop(j);
}

/// A backtick-free object text is extracted from a ```` ```json ```` fence
/// unchanged.
#[verifier::rlimit(100)]
#[verifier::spinoff_prover]
proof fn lemma_extract_json_fence(j: Seq<char>)
    requires
        j.len() >= 2,
        j.first() == '{',
        j.last() == '}',
        !is_space(j.first()),
        !is_space(j.last()),
        forall|k: int| !occurs_at(j, "```"@, k),
    ensures
        extract_json_spec("```json\n"@ + j + "\n```"@) == Some(j),
{
    reveal_strlit("```json");
    reveal_strlit("```json\n");
    reveal_strlit("```");
    reveal_strlit("\n```");
    reveal_strlit("\n");
    lemma_fence_interior(j);
    let tb = "```json\n"@ + j + "\n```"@;
    assert(tb.len() == j.len() + 12);
    assert(tb.first() == '`' && tb.last() == '`') by {
        assert(tb[0] == ("```json\n"@)[0]);
        assert(tb[tb.len() - 1] == ("\n```"@)[3]);
    }
    assert(!is_space('`'));
    lemma_trim_noop(tb);
    assert(occurs_at(tb, "```json"@, 0)) by {
        assert(tb.subrange(0, 7) =~= "```json"@);
    }
    assert(first_occurrence(tb, "```json"@) == Some(0int)) by {
        lemma_first_occurrence_some(tb, "```json"@, 0);
    }
    assert(tb.skip(7) =~= "\n"@ + j + "\n```"@);
    assert(fenced_json_block(tb) == Some(j));
    assert(tb.first() != '{');
    assert(extract_json_spec(tb) == Some(j));
}

/// No ```` ```json ```` marker stands in a plain fence around a
/// backtick-free object.
#[verifier::spinoff_prover]
proof fn lemma_no_json_marker_in_plain_fence(j: Seq<char>)
    requires
        j.len() >= 2,
        j.first() == '{',
        forall|k: int| !occurs_at(j, "```"@, k),
    ensures
        forall|i: int| !occurs_at("```\n"@ + j + "\n```"@, "```json"@, i),
{
    reveal_strlit("```json");
    reveal_strlit("```");
    reveal_strlit("```\n");
    reveal_strlit("\n```");
    let tc = "```\n"@ + j + "\n```"@;
    assert(tc.len() == j.len() + 8);
    assert(forall|k: int| 0 <= k < j.len() ==> tc[k + 4] == j[k]);
    assert(tc[3] == '\n');
    assert forall|i: int| !occurs_at(tc, "```json"@, i) by {
        if occurs_at(tc, "```json"@, i) {
            assert(0 <= i && i + 7 <= tc.len());
            assert(i <= j.len() + 1);
            assert(tc.subrange(i, i + 7) == "```json"@);
            assert(tc[i] == '`' && tc[i + 1] == '`' && tc[i + 2] == '`' && tc[i + 3] == 'j') by {
                assert(tc.subrange(i, i + 7)[0] == tc[i]);
                assert(tc.subrange(i, i + 7)[1] == tc[i + 1]);
                assert(tc.subrange(i, i + 7)[2] == tc[i + 2]);
                assert(tc.subrange(i, i + 7)[3] == tc[i + 3]);
            }
            if i == 0 {
                assert(tc[i + 3] == '\n');
                assert(false);
            } else if i <= 3 {
                assert(i <= 3 <= i + 2);
                assert(tc[3] == '\n' && tc[3] == '`');
                assert(false);
            } else {
                assert(occurs_at(j, "```"@, i - 4)) by {
                    assert(j.subrange(i - 4, i - 1) =~= "```"@);
                }
                assert(false);
            }
        }
    }
}

/// A backtick-free object text is extracted from a plain ```` ``` ````
/// fence unchanged.
#[verifier::rlimit(100)]
#[verifier::spinoff_prover]
proof fn lemma_extract_plain_fence(j: Seq<char>)
    requires
        j.len() >= 2,
        j.first() == '{',
        j.last() == '}',
        !is_space(j.first()),
        !is_space(j.last()),
        forall|k: int| !occurs_at(j, "```"@, k),
    ensures
        extract_json_spec("```\n"@ + j + "\n```"@) == Some(j),
{
    reveal_strlit("```json");
    reveal_strlit("```");
    reveal_strlit("```\n");
    reveal_strlit("\n```");
    reveal_strlit("\n");
    lemma_fence_interior(j);
    lemma_no_json_marker_in_plain_fence(j);
    let tc = "```\n"@ + j + "\n```"@;
    assert(tc.len() == j.len() + 8);
    assert(tc.first() == '`' && tc.last() == '`') by {
        assert(tc[0] == ("```\n"@)[0]);
        assert(tc[tc.len() - 1] == ("\n```"@)[3]);
    }
    assert(!is_space('`'));
    lemma_trim_noop(tc);
    assert(first_occurrence(tc, "```json"@) is None) by {
        lemma_first_occurrence_none(tc, "```json"@);
    }
    assert(fenced_json_block(tc) is None);
    assert(occurs_at(tc, "```"@, 0)) by {
        assert(tc.subrange(0, 3) =~= "```"@);
    }
    assert(first_occurrence(tc, "```"@) == Some(0int)) by {
        lemma_first_occurrence_some(tc, "```"@, 0);
    }
    assert(tc.skip(3) =~= "\n"@ + j + "\n```"@);
    assert(fenced_block(tc) == Some(j));
    assert(tc.first() != '{');
    assert(extract_json_spec(tc) == Some(j));
}

/// The round-trip of extraction, bare and in a fence: a trimmed,
/// backtick-free JSON object text is extracted unchanged from the bare
/// text, from a ```` ```json ```` fence and from a plain ```` ``` ````
/// fence.
pub proof fn lemma_extraction_round_trip_fenced(j: Seq<char>)
    requires
        j.len() >= 2,
        j.first() == '{',
        j.last() == '}',
        !is_space(j.first()),
        !is_space(j.last()),
        forall|k: int| !occurs_at(j, "```"@, k),
    ensures
        extract_json_spec(j) == Some(j),
        extract_json_spec("```json\n"@ + j + "\n```"@) == Some(j),
        extract_json_spec("```\n"@ + j + "\n```"@) == Some(j),
{
    lemma_extract_bare(j);
    lemma_extract_json_fence(j);
    lemma_extract_plain_fence(j);
}

/// No fence marker stands in prose that is free of backticks and braces
/// around a backtick-free object.
#[verifier::spinoff_prover]
proof fn lemma_no_fence_in_prose(j: Seq<char>, p: Seq<char>, q: Seq<char>)
    requires
        j.len() >= 2,
        j.last() == '}',
        forall|k: int| !occurs_at(j, "```"@, k),
        forall|k: int| 0 <= k < p.len() ==> p[k] != '{' && p[k] != '}' && p[k] != '`',
        forall|k: int| 0 <= k < q.len() ==> q[k] != '{' && q[k] != '}' && q[k] != '`',
    ensures
        forall|i: int| !occurs_at(p + j + q, "```"@, i),
        forall|i: int| !occurs_at(p + j + q, "```json"@, i),
{
    reveal_strlit("```json");
    reveal_strlit("```");
    let t = p + j + q;
    assert(forall|k: int| 0 <= k < p.len() ==> t[k] == p[k]);
    assert(forall|k: int| 0 <= k < j.len() ==> t[p.len() + k] == j[k]);
    assert(forall|k: int| 0 <= k < q.len() ==> t[p.len() + j.len() + k] == q[k]);
    assert forall|i: int| !occurs_at(t, "```"@, i) by {
        if occurs_at(t, "```"@, i) {
            assert(t.subrange(i, i + 3) == "```"@);
            assert(t[i] == '`' && t[i + 1] == '`' && t[i + 2] == '`') by {
                assert(t.subrange(i, i + 3)[0] == t[i]);
                assert(t.subrange(i, i + 3)[1] == t[i + 1]);
                assert(t.subrange(i, i + 3)[2] == t[i + 2]);
            }
            if i < p.len() {
                assert(t[i] == p[i]);
                assert(false);
            } else if i < p.len() + j.len() {
                if i + 2 < p.len() + j.len() {
                    assert(occurs_at(j, "```"@, i - p.len())) by {
                        assert(j.subrange(i - p.len(), i - p.len() + 3) =~= "```"@);
                    }
                    assert(false);
                } else {
                    let b: int = p.len() + j.len() - 1;
                    assert(i <= b <= i + 2);
                    assert(t[b] == j[j.len() - 1]);
                    assert(t[b] == '`');
                    assert(false);
                }
            } else {
                assert(t[i] == q[i - p.len() - j.len()]);
                assert(false);
            }
        }
    }
    assert forall|i: int| !occurs_at(t, "```json"@, i) by {
        if occurs_at(t, "```json"@, i) {
            assert(occurs_at(t, "```"@, i)) by {
                assert(t.subrange(i, i + 7)[0] == t[i]);
                assert(t.subrange(i, i + 7)[1] == t[i + 1]);
                assert(t.subrange(i, i + 7)[2] == t[i + 2]);
                assert(t.subrange(i, i + 3) =~= "```"@);
            }
        }
    }
}

/// The round-trip of extraction from prose: a JSON object text surrounded
/// by brace-free, backtick-free prose is extracted unchanged.
#[verifier::rlimit(100)]
#[verifier::spinoff_prover]
pub proof fn lemma_extraction_round_trip_prose(j: Seq<char>, p: Seq<char>, q: Seq<char>)
    requires
        j.len() >= 2,
        j.first() == '{',
        j.last() == '}',
        !is_space(j.first()),
        !is_space(j.last()),
        forall|k: int| !occurs_at(j, "```"@, k),
        p.len() > 0,
        q.len() > 0,
        !is_space(p.first()),
        !is_space(q.last()),
        forall|k: int| 0 <= k < p.len() ==> p[k] != '{' && p[k] != '}' && p[k] != '`',
        forall|k: int| 0 <= k < q.len() ==> q[k] != '{' && q[k] != '}' && q[k] != '`',
    ensures
        extract_json_spec(p + j + q) == Some(j),
{
    lemma_no_fence_in_prose(j, p, q);
    let t = p + j + q;
    assert(t.len() == p.len() + j.len() + q.len());
    assert(t.first() == p.first());
    assert(t.last() == q.last());
    assert(forall|k: int| 0 <= k < p.len() ==> t[k] == p[k]);
    assert(forall|k: int| 0 <= k < j.len() ==> t[p.len() + k] == j[k]);
    assert(forall|k: int| 0 <= k < q.len() ==> t[p.len() + j.len() + k] == q[k]);
    lemma_trim_noop(t);
    assert(t.first() != '{');
    assert(first_occurrence(t, "```json"@) is None) by {
        lemma_first_occurrence_none(t, "```json"@);
    }
    assert(first_occurrence(t, "```"@) is None) by {
        lemma_first_occurrence_none(t, "```"@);
    }
    assert(fenced_json_block(t) is None);
    assert(fenced_block(t) is None);
    let fs = p.len() as int;
    let le: int = p.len() + j.len() - 1;
    assert(t[fs] == '{');
    assert(t[le] == '}');
    assert(forall|x: int| 0 <= x < fs ==> t[x] != '{');
    assert forall|x: int| le < x < t.len() implies t[x] != '}' by {
        assert(x >= p.len() + j.len());
        assert(t[x] == q[x - p.len() - j.len()]);
    }
    assert(brace_span(t) == Some(j)) by {
        let s = choose|s: int|
            0 <= s < t.len() && t[s] == '{' && forall|x: int| 0 <= x < s ==> t[x] != '{';
        let e = choose|e: int|
            0 <= e < t.len() && t[e] == '}' && forall|x: int| e < x < t.len() ==> t[x] != '}';
        assert(s == fs);
        assert(e == le);
        assert(t.subrange(fs, le + 1) =~= j);
    }
    assert(extract_json_spec(t) == Some(j));
}

} // verus!
