//! Hybrid retrieval scoring: keyword extraction, the lexical boost, and the
//! re-ranking of dense hits, plus the in-memory stub retriever used for
//! offline runs.
//!
//! Scores are carried in thousandths: a dense similarity of 0.25 arrives as
//! 250, and the boost for a full query-token overlap adds 1000. Embedding
//! and the vector-store round trip are network work and live with the
//! service around this library; everything that decides scores and order is
//! here.

use vstd::prelude::*;
use vstd::string::StringExecFns;
use vstd::seq_lib::group_to_multiset_ensures;

use crate::strutil::{clone_opt_string, clone_string_vec, str_chars, str_eq};

verus! {

/// Maximum number of keywords kept per document.
pub const MAX_KEYWORDS: usize = 32;

/// Minimum length of a keyword token, in characters.
pub const MIN_KEYWORD_LEN: usize = 3;

/// Connection settings of the dense backend.
#[derive(Debug)]
pub struct QdrantConfig {
    pub url: String,
    pub collection: String,
    pub concurrency_limit: usize,
}

/// A document returned by retrieval, with its final score in thousandths.
#[derive(Debug)]
pub struct RetrievedDocument {
    pub text: String,
    pub score_milli: i64,
    pub source: Option<String>,
}

pub open spec fn doc_like(a: RetrievedDocument, b: RetrievedDocument) -> bool {
    &&& a.text@ == b.text@
    &&& a.score_milli == b.score_milli
    &&& (a.source is Some <==> b.source is Some)
    &&& (a.source is Some ==> a.source->0@ == b.source->0@)
}

impl Clone for RetrievedDocument {
    fn clone(&self) -> (r: Self)
        ensures
            doc_like(r, *self),
    {
        RetrievedDocument {
            text: self.text.clone(),
            score_milli: self.score_milli,
            source: clone_opt_string(&self.source),
        }
    }
}

/// A document handed to ingestion.
#[derive(Debug)]
pub struct IngestDocument {
    pub id: String,
    pub text: String,
    pub source: Option<String>,
}

pub open spec fn ingest_like(a: IngestDocument, b: IngestDocument) -> bool {
    &&& a.id@ == b.id@
    &&& a.text@ == b.text@
    &&& (a.source is Some <==> b.source is Some)
    &&& (a.source is Some ==> a.source->0@ == b.source->0@)
}

impl Clone for IngestDocument {
    fn clone(&self) -> (r: Self)
        ensures
            ingest_like(r, *self),
    {
        IngestDocument {
            id: self.id.clone(),
            text: self.text.clone(),
            source: clone_opt_string(&self.source),
        }
    }
}

/// Names what `char::is_alphanumeric` returns: a fixed property of the
/// character alone.
pub uninterp spec fn is_alphanumeric_char(c: char) -> bool;

/// Relies on std's `char::is_alphanumeric`: a pure classification of the
/// character.
#[verifier::external_body]
fn char_is_alphanumeric(c: char) -> (r: bool)
    ensures
        r == is_alphanumeric_char(c),
{
    c.is_alphanumeric()
}

/// Names what `str::to_lowercase` returns: the characters depend on the
/// input characters alone.
pub uninterp spec fn lower_of(s: Seq<char>) -> Seq<char>;

/// Relies on `str::to_lowercase`: Unicode lowercasing of the whole string.
#[verifier::external_body]
fn lowercase(s: &str) -> (r: String)
    ensures
        r@ == lower_of(s@),
{
    s.to_lowercase()
}

/// Close a keyword run: lowercase it and keep it if it is long enough, new,
/// and the keyword budget is not exhausted.
pub open spec fn finish_run(kept: Seq<Seq<char>>, run: Seq<char>) -> Seq<Seq<char>> {
    if kept.len() >= MAX_KEYWORDS {
        kept
    } else {
        let tok = lower_of(run);
        if tok.len() < MIN_KEYWORD_LEN || kept.contains(tok) {
            kept
        } else {
            kept.push(tok)
        }
    }
}

/// The tokenizer state after reading `i` characters: the keywords kept so
/// far and the alphanumeric run currently open.
pub open spec fn tokenize_state(text: Seq<char>, i: nat) -> (Seq<Seq<char>>, Seq<char>)
    decreases i,
{
    if i == 0 {
        (Seq::<Seq<char>>::empty(), Seq::<char>::empty())
    } else {
        let (kept, cur) = tokenize_state(text, (i - 1) as nat);
        let c = text[i - 1];
        if is_alphanumeric_char(c) {
            (kept, cur.push(c))
        } else {
            (finish_run(kept, cur), Seq::<char>::empty())
        }
    }
}

/// Up to 32 distinct lowercased keywords of at least three characters, in
/// first-occurrence order: the maximal alphanumeric runs of the text.
pub open spec fn spec_tokenize(text: Seq<char>) -> Seq<Seq<char>> {
    let (kept, cur) = tokenize_state(text, text.len());
    finish_run(kept, cur)
}

fn vec_contains_str(v: &Vec<String>, s: &str) -> (r: bool)
    ensures
        r == v.deep_view().contains(s@),
{
    let mut i: usize = 0;
    while i < v.len()
        invariant
            i <= v@.len(),
            forall|j: int| 0 <= j < i ==> v.deep_view()[j] != s@,
        decreases v@.len() - i,
    {
        if str_eq(v[i].as_str(), s) {
            proof {
                assert(v.deep_view()[i as int] == s@);
            }
            return true;
        }
        i = i + 1;
    }
    proof {
        if v.deep_view().contains(s@) {
            let j = choose|j: int| 0 <= j < v.deep_view().len() && v.deep_view()[j] == s@;
            assert(v.deep_view()[j] != s@);
        }
    }
    false
}

/// Extract keyword tokens from a text.
pub fn tokenize(text: &str) -> (r: Vec<String>)
    ensures
        r.deep_view() == spec_tokenize(text@),
{
    let chars = str_chars(text);
    let mut kept: Vec<String> = Vec::new();
    let mut cur: String = String::new();
    let mut i: usize = 0;
    while i < chars.len()
        invariant
            i <= chars.len(),
            chars@ == text@,
            (kept.deep_view(), cur@) == tokenize_state(text@, i as nat),
        decreases chars.len() - i,
    {
        let c = chars[i];
        if char_is_alphanumeric(c) {
            crate::strutil::push_char(&mut cur, c);
        } else {
            finish_run_exec(&mut kept, &cur);
            cur = String::new();
        }
        proof {
            assert((kept.deep_view(), cur@) == tokenize_state(text@, (i + 1) as nat));
        }
        i = i + 1;
    }
    finish_run_exec(&mut kept, &cur);
    kept
}

/// Close the current run against the kept keywords.
fn finish_run_exec(kept: &mut Vec<String>, run: &String)
    ensures
        final(kept).deep_view() == finish_run(old(kept).deep_view(), run@),
{
    if kept.len() >= MAX_KEYWORDS {
        return ;
    }
    let tok = lowercase(run.as_str());
    let tok_len = str_chars(tok.as_str()).len();
    if tok_len < MIN_KEYWORD_LEN {
        return ;
    }
    if vec_contains_str(kept, tok.as_str()) {
        return ;
    }
    kept.push(tok);
    proof {
        assert(kept.deep_view() =~= old(kept).deep_view().push(lower_of(run@)));
    }
}

/// How many of the document's keywords appear among the query's tokens.
pub open spec fn overlap_count(q: Seq<Seq<char>>, d: Seq<Seq<char>>, n: nat) -> nat
    decreases n,
{
    if n == 0 {
        0
    } else {
        overlap_count(q, d, (n - 1) as nat) + if q.contains(d[n - 1]) {
            1nat
        } else {
            0nat
        }
    }
}

/// The lexical boost in thousandths: the fraction of query tokens present
/// among the document's keywords. It is never negative and never exceeds
/// one (the overlap is capped at the query-token count).
pub open spec fn spec_boost_milli(q: Seq<Seq<char>>, d: Seq<Seq<char>>) -> nat {
    if q.len() == 0 || d.len() == 0 {
        0
    } else {
        let overlap = overlap_count(q, d, d.len());
        let capped = if overlap > q.len() {
            q.len()
        } else {
            overlap
        };
        (1000 * capped) / q.len()
    }
}

proof fn lemma_overlap_bound(q: Seq<Seq<char>>, d: Seq<Seq<char>>, n: nat)
    ensures
        overlap_count(q, d, n) <= n,
    decreases n,
{
    if n > 0 {
        lemma_overlap_bound(q, d, (n - 1) as nat);
    }
}

/// Compute the lexical boost for one document.
pub fn lexical_boost_milli(query_tokens: &Vec<String>, doc_keywords: &Vec<String>) -> (r: u64)
    ensures
        r == spec_boost_milli(query_tokens.deep_view(), doc_keywords.deep_view()),
        r <= 1000,
{
    if query_tokens.len() == 0 || doc_keywords.len() == 0 {
        return 0;
    }
    let mut overlap: usize = 0;
    let mut i: usize = 0;
    while i < doc_keywords.len()
        invariant
            i <= doc_keywords@.len(),
            overlap == overlap_count(
                query_tokens.deep_view(),
                doc_keywords.deep_view(),
                i as nat,
            ),
            overlap <= i,
        decreases doc_keywords@.len() - i,
    {
        if vec_contains_str(query_tokens, doc_keywords[i].as_str()) {
            overlap = overlap + 1;
        }
        i = i + 1;
    }
    let total = query_tokens.len();
    let capped: usize = if overlap > total {
        total
    } else {
        overlap
    };
    let milli: u64 = ((1000u128 * (capped as u128)) / (total as u128)) as u64;
    proof {
        assert(1000 * (capped as nat) / (total as nat) <= 1000) by (nonlinear_arith)
            requires
                capped <= total,
                total > 0,
        ;
    }
    milli
}

/// One raw hit from the dense index, before re-ranking.
#[derive(Debug)]
pub struct ScoredHit {
    pub text: String,
    pub source: Option<String>,
    pub keywords: Vec<String>,
    pub dense_score_milli: i64,
}

/// Add the lexical boost to every dense hit, in place and in order. Every
/// resulting score is at least the dense score: the boost is non-negative
/// and additive.
pub fn score_hits(query: &str, hits: Vec<ScoredHit>) -> (r: Vec<RetrievedDocument>)
    requires
        forall|i: int|
            0 <= i < hits@.len() ==> #[trigger] hits@[i].dense_score_milli <= i64::MAX - 1000,
    ensures
        r@.len() == hits@.len(),
        forall|i: int|
            0 <= i < r@.len() ==> {
                &&& (#[trigger] r@[i]).text@ == hits@[i].text@
                &&& (r@[i].source is Some <==> hits@[i].source is Some)
                &&& (r@[i].source is Some ==> r@[i].source->0@ == hits@[i].source->0@)
                &&& r@[i].score_milli == hits@[i].dense_score_milli + spec_boost_milli(
                    spec_tokenize(query@),
                    hits@[i].keywords.deep_view(),
                )
                &&& r@[i].score_milli >= hits@[i].dense_score_milli
            },
{
    let query_tokens = tokenize(query);
    let mut out: Vec<RetrievedDocument> = Vec::new();
    let mut i: usize = 0;
    while i < hits.len()
        invariant
            i <= hits@.len(),
            out@.len() == i,
            forall|k: int|
                0 <= k < hits@.len() ==> #[trigger] hits@[k].dense_score_milli <= i64::MAX - 1000,
            query_tokens.deep_view() == spec_tokenize(query@),
            forall|j: int|
                0 <= j < i ==> {
                    &&& (#[trigger] out@[j]).text@ == hits@[j].text@
                    &&& (out@[j].source is Some <==> hits@[j].source is Some)
                    &&& (out@[j].source is Some ==> out@[j].source->0@ == hits@[j].source->0@)
                    &&& out@[j].score_milli == hits@[j].dense_score_milli + spec_boost_milli(
                        spec_tokenize(query@),
                        hits@[j].keywords.deep_view(),
                    )
                    &&& out@[j].score_milli >= hits@[j].dense_score_milli
                },
        decreases hits@.len() - i,
    {
        let hit = &hits[i];
        let boost = lexical_boost_milli(&query_tokens, &hit.keywords);
        let score: i64 = hit.dense_score_milli + (boost as i64);
        out.push(
            RetrievedDocument {
                text: hit.text.clone(),
                score_milli: score,
                source: clone_opt_string(&hit.source),
            },
        );
        i = i + 1;
    }
    out
}

/// Sort descending by score and keep the best `limit` documents. The
/// output is exactly a best-scored selection of the input: sorted, a
/// sub-multiset of the input (so nothing is invented or repeated), and
/// every kept score dominates every dropped score.
pub fn rank_documents(docs: Vec<RetrievedDocument>, limit: usize) -> (r: Vec<RetrievedDocument>)
    ensures
        r@.len() == vstd::math::min(docs@.len() as int, limit as int),
        forall|i: int, j: int|
            0 <= i < j < r@.len() ==> #[trigger] r@[i].score_milli >= #[trigger] r@[j].score_milli,
        forall|i: int| 0 <= i < r@.len() ==> docs@.to_multiset().contains(#[trigger] r@[i]),
        exists|dropped: Seq<RetrievedDocument>|
            {
                &&& r@.to_multiset().add(#[trigger] dropped.to_multiset())
                    == docs@.to_multiset()
                &&& forall|i: int, j: int|
                    0 <= i < r@.len() && 0 <= j < dropped.len()
                        ==> #[trigger] r@[i].score_milli >= #[trigger] dropped[j].score_milli
            },
{
    broadcast use group_to_multiset_ensures;
    broadcast use vstd::multiset::group_multiset_axioms;

    let ghost initial = docs@;
    let mut rest = docs;
    let mut out: Vec<RetrievedDocument> = Vec::new();
    proof {
        assert(out@.to_multiset().add(rest@.to_multiset()) =~= initial.to_multiset());
    }
    while out.len() < limit && rest.len() > 0
        invariant
            out@.len() + rest@.len() == initial.len(),
            out@.len() <= limit,
            out@.to_multiset().add(rest@.to_multiset()) == initial.to_multiset(),
            forall|i: int, j: int|
                0 <= i < j < out@.len() ==> #[trigger] out@[i].score_milli >= #[trigger] out@[
                    j
                ].score_milli,
            forall|i: int, j: int|
                0 <= i < out@.len() && 0 <= j < rest@.len() ==> #[trigger] out@[i].score_milli
                    >= #[trigger] rest@[j].score_milli,
            forall|i: int| 0 <= i < out@.len() ==> initial.to_multiset().contains(#[trigger] out@[i]),
        decreases rest@.len(),
    {
        let mut best: usize = 0;
        let mut m: usize = 1;
        while m < rest.len()
            invariant
                best < rest@.len(),
                m <= rest@.len(),
                forall|j: int|
                    0 <= j < m ==> rest@[best as int].score_milli >= #[trigger] rest@[
                        j
                    ].score_milli,
            decreases rest@.len() - m,
        {
            if rest[m].score_milli > rest[best].score_milli {
                best = m;
            }
            m = m + 1;
        }
        let ghost pre_rest = rest@;
        let ghost pre_out = out@;
        let picked = rest.remove(best);
        proof {
            pre_rest.to_multiset_ensures();
            pre_out.to_multiset_ensures();
            assert(pre_rest.contains(pre_rest[best as int]));
            assert(pre_rest.to_multiset().count(picked) > 0);
            assert(initial.to_multiset().count(picked) >= pre_rest.to_multiset().count(picked));
            assert(initial.to_multiset().contains(picked));
            assert(pre_rest.remove(best as int).to_multiset() =~= pre_rest.to_multiset().remove(
                picked,
            ));
            assert(rest@.to_multiset() =~= pre_rest.to_multiset().remove(picked));
        }
        out.push(picked);
        proof {
            assert(out@.to_multiset() =~= pre_out.to_multiset().insert(picked));
            assert(out@.to_multiset().add(rest@.to_multiset()) =~= initial.to_multiset());
        }
    }
    proof {
        let dropped = rest@;
        assert(out@.to_multiset().add(dropped.to_multiset()) == docs@.to_multiset());
    }
    out
}

/// The placeholder returned when nothing matched: an explanatory document
/// with score zero and no source.
pub fn empty_result_placeholder() -> (r: RetrievedDocument)
    ensures
        r.text@ == "No indexed documents matched the query yet; consider ingesting supporting material."@,
        r.score_milli == 0,
        r.source is None,
{
    RetrievedDocument {
        text:
            "No indexed documents matched the query yet; consider ingesting supporting material.".to_owned(),
        score_milli: 0,
        source: Option::None,
    }
}

/// The in-memory fallback retriever: a session-keyed store of ingested
/// documents. Retrieval returns the first `limit` inserts with a full
/// score, or a single zero-score placeholder when nothing was ingested.
#[derive(Debug)]
pub struct StubRetriever {
    pub sessions: Vec<(String, Vec<IngestDocument>)>,
}

/// The documents stored under a session key, or nothing for an unknown
/// key.
pub open spec fn session_docs(
    st: Seq<(String, Vec<IngestDocument>)>,
    sid: Seq<char>,
) -> Seq<IngestDocument> {
    if exists|j: int| 0 <= j < st.len() && (#[trigger] st[j]).0@ == sid {
        st[choose|j: int| 0 <= j < st.len() && (#[trigger] st[j]).0@ == sid].1@
    } else {
        Seq::<IngestDocument>::empty()
    }
}

impl StubRetriever {
    /// Session keys are unique, so each key names one document list.
    pub open spec fn wf(&self) -> bool {
        forall|a: int, b: int|
            0 <= a < b < self.sessions@.len() ==> (#[trigger] self.sessions@[a]).0@ != (
            #[trigger] self.sessions@[b]).0@
    }

    pub fn new() -> (r: Self)
        ensures
            r.sessions@.len() == 0,
            r.wf(),
    {
        StubRetriever { sessions: Vec::new() }
    }

    fn find_session(&self, session_id: &str) -> (r: Option<usize>)
        ensures
            r is Some ==> r->0 < self.sessions@.len() && self.sessions@[r->0 as int].0@
                == session_id@,
            r is None ==> forall|i: int|
                0 <= i < self.sessions@.len() ==> (#[trigger] self.sessions@[i].0)@ != session_id@,
    {
        let mut i: usize = 0;
        while i < self.sessions.len()
            invariant
                i <= self.sessions@.len(),
                forall|j: int|
                    0 <= j < i ==> (#[trigger] self.sessions@[j].0)@ != session_id@,
            decreases self.sessions@.len() - i,
        {
            if str_eq(self.sessions[i].0.as_str(), session_id) {
                return Option::Some(i);
            }
            i = i + 1;
        }
        Option::None
    }

    /// Store documents under the session's key: appended to what the
    /// session already holds, a fresh entry for a new key; every other
    /// session is untouched.
    pub fn ingest(&mut self, session_id: &str, docs: Vec<IngestDocument>)
        requires
            old(self).wf(),
        ensures
            final(self).wf(),
            session_docs(final(self).sessions@, session_id@) == session_docs(
                old(self).sessions@,
                session_id@,
            ) + docs@,
            forall|k: Seq<char>|
                k != session_id@ ==> #[trigger] session_docs(final(self).sessions@, k)
                    == session_docs(old(self).sessions@, k),
    {
        let ghost pre = self.sessions@;
        let idx = self.find_session(session_id);
        match idx {
            Option::Some(i) => {
                proof {
                    assert(session_docs(pre, session_id@) == pre[i as int].1@) by {
                        let j0 = choose|j: int|
                            0 <= j < pre.len() && (#[trigger] pre[j]).0@ == session_id@;
                        assert(pre[i as int].0@ == session_id@);
                        assert(j0 == i as int);
                    }
                }
                let mut entry = self.sessions.remove(i);
                let ghost mid = self.sessions@;
                let mut added = docs;
                entry.1.append(&mut added);
                proof {
                    assert(entry.0@ == session_id@);
                    assert(entry.1@ == pre[i as int].1@ + docs@);
                    assert forall|a: int, b: int|
                        0 <= a < b < mid.len() implies (#[trigger] mid[a]).0@ != (
                    #[trigger] mid[b]).0@ by {
                        if a < i && b < i {
                            assert(mid[a] == pre[a] && mid[b] == pre[b]);
                        } else if a < i {
                            assert(mid[a] == pre[a] && mid[b] == pre[b + 1]);
                        } else {
                            assert(mid[a] == pre[a + 1] && mid[b] == pre[b + 1]);
                        }
                    }
                    assert forall|j: int| 0 <= j < mid.len() implies (#[trigger] mid[j]).0@
                        != session_id@ by {
                        if j < i {
                            assert(mid[j] == pre[j]);
                            assert(pre[j].0@ != pre[i as int].0@);
                        } else {
                            assert(mid[j] == pre[j + 1]);
                            assert(pre[i as int].0@ != pre[j + 1].0@);
                        }
                    }
                }
                self.sessions.push(entry);
                proof {
                    let now = self.sessions@;
                    assert forall|a: int, b: int|
                        0 <= a < b < now.len() implies (#[trigger] now[a]).0@ != (
                    #[trigger] now[b]).0@ by {
                        if b < now.len() - 1 {
                            assert(now[a] == mid[a] && now[b] == mid[b]);
                        } else {
                            assert(now[a] == mid[a]);
                            assert(mid[a].0@ != session_id@);
                        }
                    }
                    assert(session_docs(now, session_id@) == session_docs(pre, session_id@)
                        + docs@) by {
                        assert(now[now.len() - 1].0@ == session_id@);
                        let j0 = choose|j: int|
                            0 <= j < now.len() && (#[trigger] now[j]).0@ == session_id@;
                        if j0 < now.len() - 1 {
                            assert(now[j0] == mid[j0]);
                            assert(mid[j0].0@ != session_id@);
                        }
                    }
                    assert forall|k: Seq<char>|
                        k != session_id@ implies #[trigger] session_docs(now, k) == session_docs(
                        pre,
                        k,
                    ) by {
                        assert(now.subrange(0, mid.len() as int) =~= mid);
                        StubRetriever::lemma_other_keys(pre, mid, now, i as int, session_id@, k);
                    }
                }
            },
            Option::None => {
                let ghost key_view = session_id@;
                self.sessions.push((session_id.to_owned(), docs));
                proof {
                    let now = self.sessions@;
                    assert forall|a: int, b: int|
                        0 <= a < b < now.len() implies (#[trigger] now[a]).0@ != (
                    #[trigger] now[b]).0@ by {
                        if b < now.len() - 1 {
                            assert(now[a] == pre[a] && now[b] == pre[b]);
                        } else {
                            assert(now[a] == pre[a]);
                            assert((pre[a].0)@ != key_view);
                        }
                    }
                    assert(!(exists|j: int|
                        0 <= j < pre.len() && (#[trigger] pre[j]).0@ == key_view)) by {
                        if exists|j: int| 0 <= j < pre.len() && (#[trigger] pre[j]).0@
                            == key_view {
                            let j0 = choose|j: int|
                                0 <= j < pre.len() && (#[trigger] pre[j]).0@ == key_view;
                            assert((pre[j0].0)@ != key_view);
                        }
                    }
                    assert(session_docs(now, key_view) == session_docs(pre, key_view) + docs@)
                        by {
                        assert(now[now.len() - 1].0@ == key_view);
                        let j0 = choose|j: int|
                            0 <= j < now.len() && (#[trigger] now[j]).0@ == key_view;
                        if j0 < now.len() - 1 {
                            assert(now[j0] == pre[j0]);
                            assert((pre[j0].0)@ != key_view);
                        }
                        assert(session_docs(now, key_view) =~= Seq::<
                            IngestDocument,
                        >::empty() + docs@);
                        assert(session_docs(pre, key_view) + docs@ =~= Seq::<
                            IngestDocument,
                        >::empty() + docs@);
                    }
                    assert forall|k: Seq<char>|
                        k != key_view implies #[trigger] session_docs(now, k) == session_docs(
                        pre,
                        k,
                    ) by {
                        assert forall|j: int|
                            0 <= j < now.len() && (#[trigger] now[j]).0@ == k implies j
                            < pre.len() && now[j] == pre[j] by {
                            if j == now.len() - 1 {
                                assert(now[j].0@ == key_view);
                            }
                        }
                        if exists|j: int| 0 <= j < now.len() && (#[trigger] now[j]).0@ == k {
                            let j1 = choose|j: int|
                                0 <= j < now.len() && (#[trigger] now[j]).0@ == k;
                            assert(now[j1] == pre[j1]);
                            let j2 = choose|j: int|
                                0 <= j < pre.len() && (#[trigger] pre[j]).0@ == k;
                            assert(j1 < pre.len() && pre[j1].0@ == k);
                            if j1 != j2 {
                                assert(pre[j1].0@ != pre[j2].0@);
                            }
                        } else {
                            if exists|j: int| 0 <= j < pre.len() && (#[trigger] pre[j]).0@
                                == k {
                                let j2 = choose|j: int|
                                    0 <= j < pre.len() && (#[trigger] pre[j]).0@ == k;
                                assert(now[j2] == pre[j2]);
                            }
                        }
                    }
                }
            },
        }
    }

    /// After a remove-at-`i`-then-push of the same key's entry, every other
    /// key maps to the same documents.
    proof fn lemma_other_keys(
        pre: Seq<(String, Vec<IngestDocument>)>,
        mid: Seq<(String, Vec<IngestDocument>)>,
        now: Seq<(String, Vec<IngestDocument>)>,
        i: int,
        sid: Seq<char>,
        k: Seq<char>,
    )
        requires
            0 <= i < pre.len(),
            pre[i].0@ == sid,
            mid == pre.remove(i),
            now.len() == mid.len() + 1,
            now.subrange(0, mid.len() as int) == mid,
            now[now.len() - 1].0@ == sid,
            k != sid,
            forall|a: int, b: int|
                0 <= a < b < pre.len() ==> (#[trigger] pre[a]).0@ != (#[trigger] pre[b]).0@,
        ensures
            session_docs(now, k) == session_docs(pre, k),
    {
        assert forall|j: int|
            0 <= j < now.len() && (#[trigger] now[j]).0@ == k implies exists|j2: int|
            0 <= j2 < pre.len() && (#[trigger] pre[j2]).0@ == k && pre[j2] == now[j] by {
            if j < mid.len() {
                assert(now[j] == mid[j]);
                if j < i {
                    assert(mid[j] == pre[j]);
                    assert(pre[j].0@ == k && pre[j] == now[j]);
                } else {
                    assert(mid[j] == pre[j + 1]);
                    assert(pre[j + 1].0@ == k && pre[j + 1] == now[j]);
                }
            } else {
                assert(now[j].0@ == sid);
            }
        }
        if exists|j: int| 0 <= j < now.len() && (#[trigger] now[j]).0@ == k {
            let j1 = choose|j: int| 0 <= j < now.len() && (#[trigger] now[j]).0@ == k;
            let j2 = choose|j2: int|
                0 <= j2 < pre.len() && (#[trigger] pre[j2]).0@ == k && pre[j2] == now[j1];
            let j3 = choose|j: int| 0 <= j < pre.len() && (#[trigger] pre[j]).0@ == k;
            if j2 != j3 {
                assert(pre[j2].0@ != pre[j3].0@);
            }
            assert(session_docs(pre, k) == pre[j2].1@);
            assert(session_docs(now, k) == now[j1].1@);
        } else {
            if exists|j: int| 0 <= j < pre.len() && (#[trigger] pre[j]).0@ == k {
                let j2 = choose|j: int| 0 <= j < pre.len() && (#[trigger] pre[j]).0@ == k;
                if j2 < i {
                    assert(now[j2] == mid[j2] && mid[j2] == pre[j2]);
                    assert(now[j2].0@ == k);
                } else {
                    assert(j2 != i);
                    assert(mid[j2 - 1] == pre[j2]);
                    assert(now[j2 - 1] == mid[j2 - 1]);
                    assert(now[j2 - 1].0@ == k);
                }
            }
        }
    }

    /// Retrieval over the stored documents: for a session holding `n`
    /// documents and a positive `limit`, exactly the first `min(limit, n)`
    /// of them in insertion order, each with the full score and its source
    /// defaulted to a stub marker; otherwise the single zero-score
    /// placeholder.
    pub fn retrieve(&self, session_id: &str, limit: usize) -> (r: Vec<RetrievedDocument>)
        requires
            self.wf(),
        ensures
            r@.len() >= 1,
            ({
                let docs = session_docs(self.sessions@, session_id@);
                &&& ((docs.len() == 0 || limit == 0) ==> (r@.len() == 1 && r@[0].score_milli == 0
                    && r@[0].source is None && r@[0].text@
                    == "No indexed documents yet; returning placeholder finding."@))
                &&& ((docs.len() > 0 && limit > 0) ==> {
                    &&& r@.len() == vstd::math::min(limit as int, docs.len() as int)
                    &&& forall|i: int|
                        0 <= i < r@.len() ==> {
                            &&& (#[trigger] r@[i]).text@ == docs[i].text@
                            &&& r@[i].score_milli == 1000
                            &&& r@[i].source is Some
                            &&& r@[i].source->0@ == (if docs[i].source is Some {
                                docs[i].source->0@
                            } else {
                                "stub://memory"@
                            })
                        }
                })
            }),
    {
        let idx = self.find_session(session_id);
        let mut out: Vec<RetrievedDocument> = Vec::new();
        match idx {
            Option::Some(s) => {
                proof {
                    assert(session_docs(self.sessions@, session_id@)
                        == self.sessions@[s as int].1@) by {
                        assert((#[trigger] self.sessions@[s as int]).0@ == session_id@);
                        let j0 = choose|j: int|
                            0 <= j < self.sessions@.len() && (#[trigger] self.sessions@[j]).0@
                                == session_id@;
                        if j0 != s as int {
                            assert(self.sessions@[j0].0@ != self.sessions@[s as int].0@);
                        }
                    }
                }
                let docs = &self.sessions[s].1;
                if docs.len() == 0 || limit == 0 {
                    out.push(
                        RetrievedDocument {
                            text:
                                "No indexed documents yet; returning placeholder finding.".to_owned(),
                            score_milli: 0,
                            source: Option::None,
                        },
                    );
                    return out;
                }
                let mut i: usize = 0;
                while i < docs.len() && i < limit
                    invariant
                        docs@ == session_docs(self.sessions@, session_id@),
                        i <= docs@.len(),
                        i <= limit,
                        out@.len() == i,
                        forall|j: int|
                            0 <= j < i ==> {
                                &&& (#[trigger] out@[j]).text@ == docs@[j].text@
                                &&& out@[j].score_milli == 1000
                                &&& out@[j].source is Some
                                &&& out@[j].source->0@ == (if docs@[j].source is Some {
                                    docs@[j].source->0@
                                } else {
                                    "stub://memory"@
                                })
                            },
                    decreases docs@.len() - i,
                {
                    let d = &docs[i];
                    let source = match &d.source {
                        Option::Some(src) => Option::Some(src.clone()),
                        Option::None => Option::Some("stub://memory".to_owned()),
                    };
                    out.push(
                        RetrievedDocument { text: d.text.clone(), score_milli: 1000, source },
                    );
                    i = i + 1;
                }
                out
            },
            Option::None => {
                proof {
                    assert(!(exists|j: int|
                        0 <= j < self.sessions@.len() && (#[trigger] self.sessions@[j]).0@
                            == session_id@)) by {
                        if exists|j: int|
                            0 <= j < self.sessions@.len() && (#[trigger] self.sessions@[j]).0@
                                == session_id@ {
                            let j0 = choose|j: int|
                                0 <= j < self.sessions@.len() && (
                                #[trigger] self.sessions@[j]).0@ == session_id@;
                            assert((self.sessions@[j0].0)@ != session_id@);
                        }
                    }
                }
                out.push(
                    RetrievedDocument {
                        text: "No indexed documents yet; returning placeholder finding.".to_owned(),
                        score_milli: 0,
                        source: Option::None,
                    },
                );
                out
            },
        }
    }
}

} // verus!
