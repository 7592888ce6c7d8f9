//! The workflow entry points: run, resume, load, delete and ingest, over
//! the default research graph and the in-memory session store.
//!
//! The default wiring is the spec's research DAG: retrieval, analysis, the
//! numeric tool, fact-checking and critique in a line, then a conditional
//! edge on the critic's confidence into the finalizer or manual review. A
//! caller-supplied customizer may add nodes and edges before the default
//! wiring is applied. Outside collaborators are handed in as plain values:
//! retrieval through the in-memory stub, sandbox runs as a scripted list
//! of outcomes; the service around the library drives the hybrid variants
//! through the same engine step.

use vstd::prelude::*;
use vstd::string::StringExecFns;

use crate::context::{
    Context, CtxValue, ctx_bool, ctx_hundredths, ctx_str, ctx_strings, lemma_like_reads,
    schema_keys_distinct, trace_events_of,
};
use crate::engine::{
    CondEdge, Edge, Graph, GraphBuilder, GraphNode, Predicate, StepInput, TaskKind, edge_allows,
    execute_current, node_kind, spec_advance, task_effect,
};
use crate::error::DeepResearchError;
use crate::retrieval::{IngestDocument, RetrievedDocument, StubRetriever, session_docs};
use crate::sandbox::{FailureStreak, SandboxResult};
use crate::storage::{InMemorySessionStorage, Session, SessionPhase, session_like};
use crate::tasks::{
    FactCheckSettings, spec_analysis_sources, spec_fact_passed, spec_final_summary,
    spec_manual_summary, spec_verified_count,
};
use crate::trace::{TraceCollector, TraceEvent, TraceSummary, markdown_of, mermaid_of, graphviz_of};

verus! {

/// Relies on uuid's `Uuid::new_v4`: a freshly generated random identifier,
/// about which nothing is promised.
#[verifier::external_body]
pub(crate) fn new_session_id() -> String {
    uuid::Uuid::new_v4().to_string()
}

/// Which retrieval layer a run should use.
#[derive(Debug)]
pub enum RetrieverChoice {
    /// The in-memory fallback used for tests and offline runs.
    Stub,
    /// The dense-vector backend, reached through the service adapter.
    Qdrant { url: String, collection: String, concurrency_limit: usize },
}

impl RetrieverChoice {
    pub fn qdrant(url: String, collection: String, concurrency_limit: usize) -> (r: Self)
        ensures
            r is Qdrant,
            r->Qdrant_url@ == url@,
            r->Qdrant_collection@ == collection@,
            r->Qdrant_concurrency_limit == concurrency_limit,
    {
        RetrieverChoice::Qdrant { url, collection, concurrency_limit }
    }
}

/// Extra nodes and edges inserted before the default wiring is applied.
#[derive(Debug)]
pub struct GraphCustomizer {
    pub extra_nodes: Vec<GraphNode>,
    pub extra_edges: Vec<Edge>,
    pub extra_cond_edges: Vec<CondEdge>,
}

/// Options for running a new research session.
#[derive(Debug)]
pub struct SessionOptions {
    pub query: String,
    pub session_id: Option<String>,
    pub customizer: Option<GraphCustomizer>,
    pub initial_context: Vec<(String, CtxValue)>,
    pub retriever: RetrieverChoice,
    pub fact_check_settings: FactCheckSettings,
    pub trace_enabled: bool,
    pub trace_output_dir: Option<String>,
    /// Scripted sandbox outcomes, consumed in order by numeric-tool steps;
    /// an exhausted list counts as an unavailable executor.
    pub sandbox_outcomes: Vec<Result<SandboxResult, String>>,
    /// Documents available to the run's in-memory retrieval layer,
    /// ingested under the session's id before the first step.
    pub stub_documents: Vec<IngestDocument>,
}

impl SessionOptions {
    pub fn new(query: String) -> (r: Self)
        ensures
            r.query@ == query@,
            r.session_id is None,
            r.customizer is None,
            r.initial_context@.len() == 0,
            r.retriever is Stub,
            r.fact_check_settings.min_confidence_hundredths == 75,
            r.fact_check_settings.verification_count == 3,
            r.fact_check_settings.timeout_ms == 20000,
            !r.trace_enabled,
            r.trace_output_dir is None,
            r.sandbox_outcomes@.len() == 0,
            r.stub_documents@.len() == 0,
    {
        SessionOptions {
            query,
            session_id: Option::None,
            customizer: Option::None,
            initial_context: Vec::new(),
            retriever: RetrieverChoice::Stub,
            fact_check_settings: FactCheckSettings::default(),
            trace_enabled: false,
            trace_output_dir: Option::None,
            sandbox_outcomes: Vec::new(),
            stub_documents: Vec::new(),
        }
    }

    /// Make documents available to the run's in-memory retrieval layer.
    pub fn with_stub_documents(self, documents: Vec<IngestDocument>) -> (r: Self)
        ensures
            r.stub_documents@ == documents@,
            r.query@ == self.query@,
            r.session_id == self.session_id,
            r.customizer == self.customizer,
            r.initial_context@ == self.initial_context@,
            r.retriever == self.retriever,
            r.fact_check_settings == self.fact_check_settings,
            r.trace_enabled == self.trace_enabled,
            r.trace_output_dir == self.trace_output_dir,
            r.sandbox_outcomes@ == self.sandbox_outcomes@,
    {
        SessionOptions { stub_documents: documents, ..self }
    }

    pub fn with_session_id(self, session_id: String) -> (r: Self)
        ensures
            r.session_id is Some && r.session_id->0@ == session_id@,
            r.query@ == self.query@,
            r.customizer == self.customizer,
            r.initial_context@ == self.initial_context@,
            r.retriever == self.retriever,
            r.fact_check_settings == self.fact_check_settings,
            r.trace_enabled == self.trace_enabled,
            r.trace_output_dir == self.trace_output_dir,
            r.sandbox_outcomes@ == self.sandbox_outcomes@,
            r.stub_documents@ == self.stub_documents@,
    {
        SessionOptions { session_id: Option::Some(session_id), ..self }
    }

    pub fn with_initial_context(self, key: String, value: CtxValue) -> (r: Self)
        ensures
            r.initial_context@.len() == self.initial_context@.len() + 1,
            r.initial_context@.last().0@ == key@,
            r.initial_context@.last().1 == value,
            r.initial_context@.subrange(0, self.initial_context@.len() as int)
                == self.initial_context@,
            r.query@ == self.query@,
            r.session_id == self.session_id,
            r.customizer == self.customizer,
            r.retriever == self.retriever,
            r.fact_check_settings == self.fact_check_settings,
            r.trace_enabled == self.trace_enabled,
            r.trace_output_dir == self.trace_output_dir,
            r.sandbox_outcomes@ == self.sandbox_outcomes@,
            r.stub_documents@ == self.stub_documents@,
    {
        let ghost before = self.initial_context@;
        let mut opts = self;
        opts.initial_context.push((key, value));
        proof {
            assert(opts.initial_context@.subrange(0, opts.initial_context@.len() - 1)
                =~= before);
        }
        opts
    }

    pub fn with_fact_check_settings(self, settings: FactCheckSettings) -> (r: Self)
        ensures
            r.fact_check_settings == settings,
            r.query@ == self.query@,
            r.session_id == self.session_id,
            r.customizer == self.customizer,
            r.initial_context@ == self.initial_context@,
            r.retriever == self.retriever,
            r.trace_enabled == self.trace_enabled,
            r.trace_output_dir == self.trace_output_dir,
            r.sandbox_outcomes@ == self.sandbox_outcomes@,
            r.stub_documents@ == self.stub_documents@,
    {
        SessionOptions { fact_check_settings: settings, ..self }
    }

    pub fn with_retriever(self, retriever: RetrieverChoice) -> (r: Self)
        ensures
            r.retriever == retriever,
            r.query@ == self.query@,
            r.session_id == self.session_id,
            r.customizer == self.customizer,
            r.initial_context@ == self.initial_context@,
            r.fact_check_settings == self.fact_check_settings,
            r.trace_enabled == self.trace_enabled,
            r.trace_output_dir == self.trace_output_dir,
            r.sandbox_outcomes@ == self.sandbox_outcomes@,
            r.stub_documents@ == self.stub_documents@,
    {
        SessionOptions { retriever, ..self }
    }

    pub fn with_customizer(self, customizer: GraphCustomizer) -> (r: Self)
        ensures
            r.customizer is Some,
            r.query@ == self.query@,
    {
        SessionOptions { customizer: Option::Some(customizer), ..self }
    }

    pub fn with_sandbox_outcomes(self, outcomes: Vec<Result<SandboxResult, String>>) -> (r: Self)
        ensures
            r.sandbox_outcomes@ == outcomes@,
            r.query@ == self.query@,
            r.session_id == self.session_id,
            r.customizer == self.customizer,
            r.initial_context@ == self.initial_context@,
            r.retriever == self.retriever,
            r.fact_check_settings == self.fact_check_settings,
            r.trace_enabled == self.trace_enabled,
            r.trace_output_dir == self.trace_output_dir,
            r.stub_documents@ == self.stub_documents@,
    {
        SessionOptions { sandbox_outcomes: outcomes, ..self }
    }

    pub fn enable_trace(self) -> (r: Self)
        ensures
            r.trace_enabled,
            r.query@ == self.query@,
            r.session_id == self.session_id,
            r.customizer == self.customizer,
            r.initial_context@ == self.initial_context@,
            r.retriever == self.retriever,
            r.fact_check_settings == self.fact_check_settings,
            r.trace_output_dir == self.trace_output_dir,
            r.sandbox_outcomes@ == self.sandbox_outcomes@,
            r.stub_documents@ == self.stub_documents@,
    {
        SessionOptions { trace_enabled: true, ..self }
    }

    pub fn with_trace_output_dir(self, dir: String) -> (r: Self)
        ensures
            r.trace_enabled,
            r.trace_output_dir is Some && r.trace_output_dir->0@ == dir@,
            r.query@ == self.query@,
            r.session_id == self.session_id,
            r.customizer == self.customizer,
            r.initial_context@ == self.initial_context@,
            r.retriever == self.retriever,
            r.fact_check_settings == self.fact_check_settings,
            r.sandbox_outcomes@ == self.sandbox_outcomes@,
            r.stub_documents@ == self.stub_documents@,
    {
        SessionOptions { trace_enabled: true, trace_output_dir: Option::Some(dir), ..self }
    }
}

/// Options for resuming an existing session.
#[derive(Debug)]
pub struct ResumeOptions {
    pub session_id: String,
    pub customizer: Option<GraphCustomizer>,
    pub retriever: RetrieverChoice,
    pub fact_check_settings: FactCheckSettings,
    pub trace_enabled: bool,
    pub trace_output_dir: Option<String>,
    pub sandbox_outcomes: Vec<Result<SandboxResult, String>>,
}

impl ResumeOptions {
    pub fn new(session_id: String) -> (r: Self)
        ensures
            r.session_id@ == session_id@,
            r.customizer is None,
            r.retriever is Stub,
            !r.trace_enabled,
            r.trace_output_dir is None,
            r.sandbox_outcomes@.len() == 0,
    {
        ResumeOptions {
            session_id,
            customizer: Option::None,
            retriever: RetrieverChoice::Stub,
            fact_check_settings: FactCheckSettings::default(),
            trace_enabled: false,
            trace_output_dir: Option::None,
            sandbox_outcomes: Vec::new(),
        }
    }

    pub fn enable_trace(self) -> (r: Self)
        ensures
            r.trace_enabled,
            r.session_id@ == self.session_id@,
            r.customizer == self.customizer,
            r.retriever == self.retriever,
            r.fact_check_settings == self.fact_check_settings,
            r.trace_output_dir == self.trace_output_dir,
            r.sandbox_outcomes@ == self.sandbox_outcomes@,
    {
        ResumeOptions { trace_enabled: true, ..self }
    }
}

/// Options for materializing a stored session without executing it.
#[derive(Debug)]
pub struct LoadOptions {
    pub session_id: String,
    pub trace_output_dir: Option<String>,
}

impl LoadOptions {
    pub fn new(session_id: String) -> (r: Self)
        ensures
            r.session_id@ == session_id@,
            r.trace_output_dir is None,
    {
        LoadOptions { session_id, trace_output_dir: Option::None }
    }
}

/// Options for deleting a stored session.
#[derive(Debug)]
pub struct DeleteOptions {
    pub session_id: String,
}

impl DeleteOptions {
    pub fn new(session_id: String) -> (r: Self)
        ensures
            r.session_id@ == session_id@,
    {
        DeleteOptions { session_id }
    }
}

/// Options for ingesting documents into a retrieval layer.
#[derive(Debug)]
pub struct IngestOptions {
    pub session_id: String,
    pub documents: Vec<IngestDocument>,
    pub retriever: RetrieverChoice,
}

/// The default research wiring: seven fixed nodes, four line edges, and the
/// critic's conditional edge on `critique.confident`.
pub open spec fn default_shape(g: &Graph) -> bool {
    &&& g.nodes@.len() == 7
    &&& g.nodes@[0].id@ == "researcher"@ && g.nodes@[0].kind == TaskKind::Researcher
    &&& g.nodes@[1].id@ == "analyst"@ && g.nodes@[1].kind == TaskKind::Analyst
    &&& g.nodes@[2].id@ == "math_tool"@ && g.nodes@[2].kind == TaskKind::MathTool
    &&& g.nodes@[3].id@ == "fact_check"@ && g.nodes@[3].kind == TaskKind::FactCheck
    &&& g.nodes@[4].id@ == "critic"@ && g.nodes@[4].kind == TaskKind::Critic
    &&& g.nodes@[5].id@ == "finalize"@ && g.nodes@[5].kind == TaskKind::Finalize
    &&& g.nodes@[6].id@ == "manual_review"@ && g.nodes@[6].kind == TaskKind::ManualReview
    &&& g.edges@.len() == 4
    &&& g.edges@[0].from@ == "researcher"@ && g.edges@[0].to@ == "analyst"@
    &&& g.edges@[1].from@ == "analyst"@ && g.edges@[1].to@ == "math_tool"@
    &&& g.edges@[2].from@ == "math_tool"@ && g.edges@[2].to@ == "fact_check"@
    &&& g.edges@[3].from@ == "fact_check"@ && g.edges@[3].to@ == "critic"@
    &&& g.cond_edges@.len() == 1
    &&& g.cond_edges@[0].from@ == "critic"@
    &&& g.cond_edges@[0].predicate->BoolKeyIsTrue_0@ == "critique.confident"@
    &&& g.cond_edges@[0].then_to@ == "finalize"@
    &&& g.cond_edges@[0].else_to@ == "manual_review"@
    &&& g.start@ == "researcher"@
}

/// The edges of the default wiring, as pairs of task ids.
pub open spec fn default_edge(a: Seq<char>, b: Seq<char>) -> bool {
    ||| (a == "researcher"@ && b == "analyst"@)
    ||| (a == "analyst"@ && b == "math_tool"@)
    ||| (a == "math_tool"@ && b == "fact_check"@)
    ||| (a == "fact_check"@ && b == "critic"@)
    ||| (a == "critic"@ && (b == "finalize"@ || b == "manual_review"@))
}

pub open spec fn is_default_task_id(id: Seq<char>) -> bool {
    ||| id == "researcher"@
    ||| id == "analyst"@
    ||| id == "math_tool"@
    ||| id == "fact_check"@
    ||| id == "critic"@
    ||| id == "finalize"@
    ||| id == "manual_review"@
}

/// Position of a default task along the line, for the step budget.
pub open spec fn default_pos(id: Seq<char>) -> int {
    if id == "researcher"@ {
        0
    } else if id == "analyst"@ {
        1
    } else if id == "math_tool"@ {
        2
    } else if id == "fact_check"@ {
        3
    } else if id == "critic"@ {
        4
    } else {
        5
    }
}

/// The seven default task ids are pairwise distinct.
pub proof fn task_ids_distinct()
    ensures
        "researcher"@ != "analyst"@,
        "researcher"@ != "math_tool"@,
        "researcher"@ != "fact_check"@,
        "researcher"@ != "critic"@,
        "researcher"@ != "finalize"@,
        "researcher"@ != "manual_review"@,
        "analyst"@ != "math_tool"@,
        "analyst"@ != "fact_check"@,
        "analyst"@ != "critic"@,
        "analyst"@ != "finalize"@,
        "analyst"@ != "manual_review"@,
        "math_tool"@ != "fact_check"@,
        "math_tool"@ != "critic"@,
        "math_tool"@ != "finalize"@,
        "math_tool"@ != "manual_review"@,
        "fact_check"@ != "critic"@,
        "fact_check"@ != "finalize"@,
        "fact_check"@ != "manual_review"@,
        "critic"@ != "finalize"@,
        "critic"@ != "manual_review"@,
        "finalize"@ != "manual_review"@,
{
    reveal_strlit("researcher");
    reveal_strlit("analyst");
    reveal_strlit("math_tool");
    reveal_strlit("fact_check");
    reveal_strlit("critic");
    reveal_strlit("finalize");
    reveal_strlit("manual_review");
    assert("researcher"@ != "analyst"@) by {
        if "researcher"@ == "analyst"@ {
            assert(("researcher"@).len() == ("analyst"@).len());
        }
    }
    assert("researcher"@ != "math_tool"@) by {
        if "researcher"@ == "math_tool"@ {
            assert(("researcher"@).len() == ("math_tool"@).len());
        }
    }
    assert("researcher"@ != "fact_check"@) by {
        if "researcher"@ == "fact_check"@ {
            assert(("researcher"@)[0] == ("fact_check"@)[0]);
        }
    }
    assert("researcher"@ != "critic"@) by {
        if "researcher"@ == "critic"@ {
            assert(("researcher"@).len() == ("critic"@).len());
        }
    }
    assert("researcher"@ != "finalize"@) by {
        if "researcher"@ == "finalize"@ {
            assert(("researcher"@).len() == ("finalize"@).len());
        }
    }
    assert("researcher"@ != "manual_review"@) by {
        if "researcher"@ == "manual_review"@ {
            assert(("researcher"@).len() == ("manual_review"@).len());
        }
    }
    assert("analyst"@ != "math_tool"@) by {
        if "analyst"@ == "math_tool"@ {
            assert(("analyst"@).len() == ("math_tool"@).len());
        }
    }
    assert("analyst"@ != "fact_check"@) by {
        if "analyst"@ == "fact_check"@ {
            assert(("analyst"@).len() == ("fact_check"@).len());
        }
    }
    assert("analyst"@ != "critic"@) by {
        if "analyst"@ == "critic"@ {
            assert(("analyst"@).len() == ("critic"@).len());
        }
    }
    assert("analyst"@ != "finalize"@) by {
        if "analyst"@ == "finalize"@ {
            assert(("analyst"@).len() == ("finalize"@).len());
        }
    }
    assert("analyst"@ != "manual_review"@) by {
        if "analyst"@ == "manual_review"@ {
            assert(("analyst"@).len() == ("manual_review"@).len());
        }
    }
    assert("math_tool"@ != "fact_check"@) by {
        if "math_tool"@ == "fact_check"@ {
            assert(("math_tool"@).len() == ("fact_check"@).len());
        }
    }
    assert("math_tool"@ != "critic"@) by {
        if "math_tool"@ == "critic"@ {
            assert(("math_tool"@).len() == ("critic"@).len());
        }
    }
    assert("math_tool"@ != "finalize"@) by {
        if "math_tool"@ == "finalize"@ {
            assert(("math_tool"@).len() == ("finalize"@).len());
        }
    }
    assert("math_tool"@ != "manual_review"@) by {
        if "math_tool"@ == "manual_review"@ {
            assert(("math_tool"@).len() == ("manual_review"@).len());
        }
    }
    assert("fact_check"@ != "critic"@) by {
        if "fact_check"@ == "critic"@ {
            assert(("fact_check"@).len() == ("critic"@).len());
        }
    }
    assert("fact_check"@ != "finalize"@) by {
        if "fact_check"@ == "finalize"@ {
            assert(("fact_check"@).len() == ("finalize"@).len());
        }
    }
    assert("fact_check"@ != "manual_review"@) by {
        if "fact_check"@ == "manual_review"@ {
            assert(("fact_check"@).len() == ("manual_review"@).len());
        }
    }
    assert("critic"@ != "finalize"@) by {
        if "critic"@ == "finalize"@ {
            assert(("critic"@).len() == ("finalize"@).len());
        }
    }
    assert("critic"@ != "manual_review"@) by {
        if "critic"@ == "manual_review"@ {
            assert(("critic"@).len() == ("manual_review"@).len());
        }
    }
    assert("finalize"@ != "manual_review"@) by {
        if "finalize"@ == "manual_review"@ {
            assert(("finalize"@).len() == ("manual_review"@).len());
        }
    }
}


/// Build the workflow graph: the seven default tasks, any customizer
/// additions, then the default wiring and the start task. Validation
/// rejects malformed graphs at build time. Without a customizer the graph
/// is exactly the default wiring.
pub fn build_graph(customizer: &Option<GraphCustomizer>) -> (r: Result<Graph, DeepResearchError>)
    ensures
        customizer is None ==> r is Ok,
        r is Ok ==> r->Ok_0.wf(),
        customizer is None ==> default_shape(&r->Ok_0),
{
    let mut b = GraphBuilder::new();
    b.add_task("researcher".to_owned(), TaskKind::Researcher);
    b.add_task("analyst".to_owned(), TaskKind::Analyst);
    b.add_task("math_tool".to_owned(), TaskKind::MathTool);
    b.add_task("fact_check".to_owned(), TaskKind::FactCheck);
    b.add_task("critic".to_owned(), TaskKind::Critic);
    b.add_task("finalize".to_owned(), TaskKind::Finalize);
    b.add_task("manual_review".to_owned(), TaskKind::ManualReview);

    match customizer {
        Option::Some(c) => {
            let mut i: usize = 0;
            while i < c.extra_nodes.len()
                decreases c.extra_nodes@.len() - i,
            {
                b.add_task(c.extra_nodes[i].id.clone(), c.extra_nodes[i].kind);
                i = i + 1;
            }
            let mut k: usize = 0;
            while k < c.extra_edges.len()
                decreases c.extra_edges@.len() - k,
            {
                b.add_edge(c.extra_edges[k].from.clone(), c.extra_edges[k].to.clone());
                k = k + 1;
            }
            let mut n: usize = 0;
            while n < c.extra_cond_edges.len()
                decreases c.extra_cond_edges@.len() - n,
            {
                let ce = &c.extra_cond_edges[n];
                b.add_conditional_edge(
                    ce.from.clone(),
                    ce.predicate.clone(),
                    ce.then_to.clone(),
                    ce.else_to.clone(),
                );
                n = n + 1;
            }
        },
        Option::None => {},
    }

    b.add_edge("researcher".to_owned(), "analyst".to_owned());
    b.add_edge("analyst".to_owned(), "math_tool".to_owned());
    b.add_edge("math_tool".to_owned(), "fact_check".to_owned());
    b.add_edge("fact_check".to_owned(), "critic".to_owned());
    b.add_conditional_edge(
        "critic".to_owned(),
        Predicate::BoolKeyIsTrue("critique.confident".to_owned()),
        "finalize".to_owned(),
        "manual_review".to_owned(),
    );
    b.set_start_task("researcher".to_owned());

    proof {
        task_ids_distinct();
    }
    b.build()
}


/// The terminal bundle reported to clients.
#[derive(Debug)]
pub struct SessionOutcome {
    pub session_id: String,
    pub summary: String,
    pub trace_events: Vec<TraceEvent>,
    pub trace_summary: TraceSummary,
    pub trace_path: Option<String>,
    pub requires_manual: bool,
    pub factcheck_confidence: Option<u32>,
    pub factcheck_passed: Option<bool>,
    pub factcheck_verified_sources: Vec<String>,
    pub critic_confident: Option<bool>,
}

impl SessionOutcome {
    /// The markdown rendering of the trace, when any events exist.
    pub fn explain_markdown(&self) -> (r: Option<String>)
        ensures
            r is Some <==> self.trace_events@.len() > 0,
            r is Some ==> r->0@ == markdown_of(self.trace_summary.steps@),
    {
        if self.trace_events.len() == 0 {
            Option::None
        } else {
            Option::Some(self.trace_summary.render_markdown())
        }
    }

    /// The node-edge diagram rendering of the trace, when any events exist.
    pub fn explain_mermaid(&self) -> (r: Option<String>)
        ensures
            r is Some <==> self.trace_events@.len() > 0,
            r is Some ==> r->0@ == mermaid_of(self.trace_summary.steps@),
    {
        if self.trace_events.len() == 0 {
            Option::None
        } else {
            Option::Some(self.trace_summary.render_mermaid())
        }
    }

    /// The directed-graph rendering of the trace, when any events exist.
    pub fn explain_graphviz(&self) -> (r: Option<String>)
        ensures
            r is Some <==> self.trace_events@.len() > 0,
            r is Some ==> r->0@ == graphviz_of(self.trace_summary.steps@),
    {
        if self.trace_events.len() == 0 {
            Option::None
        } else {
            Option::Some(self.trace_summary.render_graphviz())
        }
    }
}

/// The summary a stored session reports: the recorded one, or a fixed
/// placeholder when none was recorded.
pub open spec fn spec_outcome_summary(m: Map<Seq<char>, CtxValue>) -> Seq<char> {
    match ctx_str(m, "final.summary"@) {
        Option::Some(s) => s,
        Option::None => "No final summary recorded"@,
    }
}

/// The path the trace file would live at: `{dir}/{session_id}.json`, with
/// a default directory, and only when tracing is on and events exist.
pub open spec fn spec_trace_path(
    m: Map<Seq<char>, CtxValue>,
    dir: Option<Seq<char>>,
    sid: Seq<char>,
) -> Option<Seq<char>> {
    if ctx_bool(m, "trace.enabled"@) == Option::Some(true) && trace_events_of(m).len() > 0 {
        let d = match dir {
            Option::Some(d0) => d0,
            Option::None => "data/traces"@,
        };
        Option::Some(d + "/"@ + sid + ".json"@)
    } else {
        Option::None
    }
}

/// Materialize the outcome bundle from a stored session snapshot. Every
/// field is a function of the snapshot alone, so loading a finished
/// session reproduces the outcome observed at completion.
pub fn build_outcome(session: &Session, trace_output_dir: &Option<String>) -> (o: SessionOutcome)
    ensures
        o.session_id@ == session.id@,
        o.summary@ == spec_outcome_summary(session.context@),
        o.trace_events@ == trace_events_of(session.context@),
        o.trace_summary.steps@.len() == o.trace_events@.len(),
        forall|i: int|
            0 <= i < o.trace_summary.steps@.len() ==> crate::trace::steps_match(
                #[trigger] o.trace_summary.steps@[i],
                o.trace_events@[i],
                i,
            ),
        o.requires_manual == (ctx_bool(session.context@, "final.requires_manual"@)
            == Option::Some(true)),
        o.factcheck_confidence == ctx_hundredths(session.context@, "factcheck.confidence"@),
        o.factcheck_passed == ctx_bool(session.context@, "factcheck.passed"@),
        o.factcheck_verified_sources.deep_view() == match ctx_strings(
            session.context@,
            "factcheck.verified_sources"@,
        ) {
            Option::Some(v) => v,
            Option::None => Seq::<Seq<char>>::empty(),
        },
        o.critic_confident == ctx_bool(session.context@, "critique.confident"@),
        (o.trace_path is Some <==> spec_trace_path(
            session.context@,
            match trace_output_dir {
                Option::Some(d) => Option::Some(d@),
                Option::None => Option::None,
            },
            session.id@,
        ) is Some),
        o.trace_path is Some ==> o.trace_path->0@ == spec_trace_path(
            session.context@,
            match trace_output_dir {
                Option::Some(d) => Option::Some(d@),
                Option::None => Option::None,
            },
            session.id@,
        )->0,
{
    let summary = match session.context.get_str("final.summary") {
        Option::Some(s) => s,
        Option::None => "No final summary recorded".to_owned(),
    };
    let events = match session.context.get_trace("trace.collector") {
        Option::Some(c) => c.into_events(),
        Option::None => Vec::new(),
    };
    proof {
        assert(events@ =~= trace_events_of(session.context@));
    }
    let trace_summary = TraceSummary::from_events(&events);
    let trace_enabled = match session.context.get_bool("trace.enabled") {
        Option::Some(b) => b,
        Option::None => false,
    };
    let trace_path: Option<String> = if trace_enabled && events.len() > 0 {
        let mut p: String = match trace_output_dir {
            Option::Some(d) => d.clone(),
            Option::None => "data/traces".to_owned(),
        };
        p.append("/");
        p.append(session.id.as_str());
        p.append(".json");
        Option::Some(p)
    } else {
        Option::None
    };
    let requires_manual = match session.context.get_bool("final.requires_manual") {
        Option::Some(b) => b,
        Option::None => false,
    };
    let verified = match session.context.get_str_list("factcheck.verified_sources") {
        Option::Some(v) => v,
        Option::None => Vec::new(),
    };
    proof {
        if ctx_strings(session.context@, "factcheck.verified_sources"@) is None {
            assert(verified.deep_view() =~= Seq::<Seq<char>>::empty());
        }
    }
    SessionOutcome {
        session_id: session.id.clone(),
        summary,
        trace_events: events,
        trace_summary,
        trace_path,
        requires_manual,
        factcheck_confidence: session.context.get_hundredths("factcheck.confidence"),
        factcheck_passed: session.context.get_bool("factcheck.passed"),
        factcheck_verified_sources: verified,
        critic_confident: session.context.get_bool("critique.confident"),
    }
}

/// A summary a finalizer could have produced for some context.
pub open spec fn is_finalizer_summary(s: Seq<char>) -> bool {
    exists|mm: Map<Seq<char>, CtxValue>| s == #[trigger] spec_final_summary(mm)
}

/// What a consistent session looks like between steps: terminal keys are
/// only ever the pair a terminal task writes, and standing at a terminal
/// node implies the critic decided accordingly.
pub open spec fn session_consistent(s: Session) -> bool {
    let m = s.context@;
    &&& (ctx_bool(m, "final.requires_manual"@) == Option::Some(true) ==> ctx_str(
        m,
        "final.summary"@,
    ) == Option::Some(spec_manual_summary()))
    &&& (ctx_bool(m, "final.requires_manual"@) == Option::Some(false) ==> ctx_str(
        m,
        "final.summary"@,
    ) is Some && is_finalizer_summary(ctx_str(m, "final.summary"@)->0))
    &&& (ctx_bool(m, "final.requires_manual"@) is Some ==> ctx_bool(m, "critique.confident"@)
        == Option::Some(!ctx_bool(m, "final.requires_manual"@)->0))
    &&& (ctx_bool(m, "final.requires_manual"@) is Some ==> (s.current_task_id@ == "finalize"@
        || s.current_task_id@ == "manual_review"@))
    &&& (s.current_task_id@ == "finalize"@ ==> ctx_bool(m, "critique.confident"@)
        == Option::Some(true))
    &&& (s.current_task_id@ == "manual_review"@ ==> ctx_bool(m, "critique.confident"@)
        == Option::Some(false))
}

/// A finished session: both terminal keys written consistently, and the
/// manual flag the exact opposite of the critic's confidence.
pub open spec fn completed_session_ok(s: Session) -> bool {
    let m = s.context@;
    &&& ctx_bool(m, "final.requires_manual"@) is Some
    &&& ctx_str(m, "final.summary"@) is Some
    &&& (ctx_bool(m, "final.requires_manual"@)->0 ==> ctx_str(m, "final.summary"@)
        == Option::Some(spec_manual_summary()))
    &&& (!ctx_bool(m, "final.requires_manual"@)->0 ==> is_finalizer_summary(
        ctx_str(m, "final.summary"@)->0,
    ))
    &&& ctx_bool(m, "critique.confident"@) == Option::Some(
        !ctx_bool(m, "final.requires_manual"@)->0,
    )
}

/// Whether a run over `docs_len` indexed documents passes the fact-check
/// under the given settings: the retriever hands the first `min(5, n)`
/// documents to the researcher, each with a source, so that many sources
/// are checked.
pub open spec fn stub_run_passes(docs_len: nat, settings: FactCheckSettings) -> bool {
    let s = if docs_len < 5 {
        docs_len
    } else {
        5
    };
    spec_fact_passed(
        s,
        spec_verified_count(s, settings.verification_count as nat),
        settings.min_confidence_hundredths as nat,
    )
}

/// A finished session standing at its terminal task, whose recorded
/// summary is exactly what re-running that terminal task would write: the
/// finalizer's summary of the surrounding context, or the fixed
/// manual-review text.
pub open spec fn terminal_entry(s: Session) -> bool {
    &&& (s.current_task_id@ == "finalize"@ || s.current_task_id@ == "manual_review"@)
    &&& (s.current_task_id@ == "finalize"@ ==> ctx_str(s.context@, "final.summary"@)
        == Option::Some(spec_final_summary(s.context@)))
    &&& (s.current_task_id@ == "manual_review"@ ==> ctx_str(s.context@, "final.summary"@)
        == Option::Some(spec_manual_summary()))
}

/// The drive loop can start here: the session exists under its own id and
/// points at one of the default tasks.
pub open spec fn entry_runnable(g: &Graph, st: Map<Seq<char>, Session>, sid: Seq<char>) -> bool {
    &&& default_shape(g)
    &&& st.contains_key(sid)
    &&& st[sid].id@ == sid
    &&& is_default_task_id(st[sid].current_task_id@)
}

/// The recorded trace follows the default wiring, starting at retrieval.
pub open spec fn trace_path_follows(ev: Seq<TraceEvent>) -> bool {
    &&& forall|i: int|
        0 < i < ev.len() ==> default_edge(ev[i - 1].task_id@, (#[trigger] ev[i]).task_id@)
    &&& ev.len() > 0 ==> ev[0].task_id@ == "researcher"@
}

/// On the default wiring, the unique node carrying a default id has the
/// matching kind, whose trace label is the id itself.
pub proof fn lemma_default_node_kind(g: &Graph, id: Seq<char>)
    requires
        default_shape(g),
        g.wf(),
        is_default_task_id(id),
    ensures
        node_kind(g, id).spec_label() == id,
        id == "researcher"@ ==> node_kind(g, id) is Researcher,
        id == "analyst"@ ==> node_kind(g, id) is Analyst,
        id == "math_tool"@ ==> node_kind(g, id) is MathTool,
        id == "fact_check"@ ==> node_kind(g, id) is FactCheck,
        id == "critic"@ ==> node_kind(g, id) is Critic,
        id == "finalize"@ ==> node_kind(g, id) is Finalize,
        id == "manual_review"@ ==> node_kind(g, id) is ManualReview,
{
    task_ids_distinct();
    let j = choose|i: int| 0 <= i < g.nodes@.len() && (#[trigger] g.nodes@[i]).id@ == id;
    if id == "researcher"@ {
        assert(g.nodes@[0].id@ == id);
        assert(j == 0);
    } else if id == "analyst"@ {
        assert(g.nodes@[1].id@ == id);
        assert(j == 1);
    } else if id == "math_tool"@ {
        assert(g.nodes@[2].id@ == id);
        assert(j == 2);
    } else if id == "fact_check"@ {
        assert(g.nodes@[3].id@ == id);
        assert(j == 3);
    } else if id == "critic"@ {
        assert(g.nodes@[4].id@ == id);
        assert(j == 4);
    } else if id == "finalize"@ {
        assert(g.nodes@[5].id@ == id);
        assert(j == 5);
    } else {
        assert(g.nodes@[6].id@ == id);
        assert(j == 6);
    }
}

/// How the default wiring advances: the four line edges in order, and the
/// critic's conditional split on `critique.confident`.
pub proof fn lemma_default_advance(g: &Graph, m: Map<Seq<char>, CtxValue>, cur: Seq<char>)
    requires
        default_shape(g),
    ensures
        cur == "researcher"@ ==> spec_advance(g, m, cur) == Option::Some("analyst"@),
        cur == "analyst"@ ==> spec_advance(g, m, cur) == Option::Some("math_tool"@),
        cur == "math_tool"@ ==> spec_advance(g, m, cur) == Option::Some("fact_check"@),
        cur == "fact_check"@ ==> spec_advance(g, m, cur) == Option::Some("critic"@),
        cur == "critic"@ ==> spec_advance(g, m, cur) == Option::Some(
            if ctx_bool(m, "critique.confident"@) == Option::Some(true) {
                "finalize"@
            } else {
                "manual_review"@
            },
        ),
{
    task_ids_distinct();
    reveal_with_fuel(crate::engine::first_cond_from, 3);
    reveal_with_fuel(crate::engine::first_edge_from, 6);
    if is_default_task_id(cur) {
        assert(crate::engine::first_cond_from(g.cond_edges@, cur, 1) == if cur == "critic"@ {
            Option::Some(g.cond_edges@[0])
        } else {
            Option::<CondEdge>::None
        });
    }
}


/// Drive the session at `session_id` to completion: load, step the current
/// task (handing it stub retrieval and scripted sandbox outcomes), persist,
/// follow the edges, repeat. On the default wiring this always completes;
/// a graph that never reaches a terminal task is reported as an
/// orchestration error once the step budget is spent.
#[verifier::rlimit(80)]
pub fn drive_to_completion(
    g: &Graph,
    storage: &mut InMemorySessionStorage,
    session_id: &str,
    settings: &FactCheckSettings,
    stub: &StubRetriever,
    sandbox_outcomes: &mut Vec<Result<SandboxResult, String>>,
    streak: &mut FailureStreak,
) -> (r: Result<(), DeepResearchError>)
    requires
        g.wf(),
        stub.wf(),
    ensures
        entry_runnable(g, old(storage)@, session_id@) ==> r is Ok,
        (entry_runnable(g, old(storage)@, session_id@) && r is Ok) ==> {
            &&& final(storage)@.contains_key(session_id@)
            &&& final(storage)@[session_id@].id@ == session_id@
            &&& final(storage)@[session_id@].status == SessionPhase::Completed
            &&& terminal_entry(final(storage)@[session_id@])
        },
        (entry_runnable(g, old(storage)@, session_id@) && session_consistent(
            old(storage)@[session_id@],
        ) && r is Ok) ==> completed_session_ok(final(storage)@[session_id@]),
        (entry_runnable(g, old(storage)@, session_id@) && trace_events_of(
            old(storage)@[session_id@].context@,
        ) =~= Seq::<TraceEvent>::empty() && old(storage)@[session_id@].current_task_id@
            == "researcher"@ && r is Ok) ==> trace_path_follows(
            trace_events_of(final(storage)@[session_id@].context@),
        ),
        (entry_runnable(g, old(storage)@, session_id@) && old(
            storage,
        )@[session_id@].current_task_id@ == "researcher"@ && session_docs(
            stub.sessions@,
            session_id@,
        ).len() == 0 && r is Ok) ==> ctx_bool(
            final(storage)@[session_id@].context@,
            "critique.confident"@,
        ) == Option::Some(false),
        (entry_runnable(g, old(storage)@, session_id@) && old(
            storage,
        )@[session_id@].current_task_id@ == "researcher"@ && settings.verification_count == 0
            && settings.min_confidence_hundredths > 50 && r is Ok) ==> ctx_bool(
            final(storage)@[session_id@].context@,
            "critique.confident"@,
        ) == Option::Some(false),
        (entry_runnable(g, old(storage)@, session_id@) && terminal_entry(
            old(storage)@[session_id@],
        ) && r is Ok) ==> ctx_str(final(storage)@[session_id@].context@, "final.summary"@)
            == ctx_str(old(storage)@[session_id@].context@, "final.summary"@),
        (entry_runnable(g, old(storage)@, session_id@) && old(
            storage,
        )@[session_id@].current_task_id@ == "researcher"@ && session_docs(
            stub.sessions@,
            session_id@,
        ).len() >= 1 && (forall|i: int|
            0 <= i < session_docs(stub.sessions@, session_id@).len()
                ==> !crate::strutil::spec_is_blank(
                (#[trigger] session_docs(stub.sessions@, session_id@)[i]).text@,
            )) && r is Ok) ==> ctx_bool(
            final(storage)@[session_id@].context@,
            "critique.confident"@,
        ) == Option::Some(
            stub_run_passes(session_docs(stub.sessions@, session_id@).len() as nat, *settings),
        ),
{
    let ghost entry_ok = entry_runnable(g, old(storage)@, session_id@);
    let ghost entry_cons = entry_ok && session_consistent(old(storage)@[session_id@]);
    let ghost entry_tr = entry_ok && trace_events_of(old(storage)@[session_id@].context@)
        =~= Seq::<TraceEvent>::empty() && old(storage)@[session_id@].current_task_id@
        == "researcher"@;
    let ghost chain_empty = entry_ok && old(storage)@[session_id@].current_task_id@
        == "researcher"@ && session_docs(stub.sessions@, session_id@).len() == 0;
    let ghost chain_strict = entry_ok && old(storage)@[session_id@].current_task_id@
        == "researcher"@ && settings.verification_count == 0
        && settings.min_confidence_hundredths > 50;
    let ghost entry_term = entry_ok && terminal_entry(old(storage)@[session_id@]);
    let ghost chain_seeded = entry_ok && old(storage)@[session_id@].current_task_id@
        == "researcher"@ && session_docs(stub.sessions@, session_id@).len() >= 1 && (forall|
        i: int,
    |
        0 <= i < session_docs(stub.sessions@, session_id@).len()
            ==> !crate::strutil::spec_is_blank(
            (#[trigger] session_docs(stub.sessions@, session_id@)[i]).text@,
        ));
    let ghost seeded_n = session_docs(stub.sessions@, session_id@).len() as nat;
    let ghost seeded_s = if seeded_n < 5 {
        seeded_n
    } else {
        5nat
    };
    let ghost seeded_pass = stub_run_passes(seeded_n, *settings);
    proof {
        schema_keys_distinct();
        task_ids_distinct();
    }
    let mut fuel: usize = 64;
    while fuel > 0
        invariant
            g.wf(),
            entry_ok == entry_runnable(g, old(storage)@, session_id@),
            entry_cons == (entry_ok && session_consistent(old(storage)@[session_id@])),
            entry_tr == (entry_ok && trace_events_of(old(storage)@[session_id@].context@)
                =~= Seq::<TraceEvent>::empty() && old(storage)@[session_id@].current_task_id@
                == "researcher"@),
            entry_ok ==> storage@.contains_key(session_id@),
            entry_ok ==> storage@[session_id@].id@ == session_id@,
            entry_ok ==> is_default_task_id(storage@[session_id@].current_task_id@),
            entry_ok ==> fuel as int >= 6 - default_pos(storage@[session_id@].current_task_id@),
            entry_cons ==> session_consistent(storage@[session_id@]),
            entry_tr ==> trace_path_follows(trace_events_of(storage@[session_id@].context@)),
            entry_tr ==> (trace_events_of(storage@[session_id@].context@).len() > 0
                ==> default_edge(
                trace_events_of(storage@[session_id@].context@).last().task_id@,
                storage@[session_id@].current_task_id@,
            )),
            entry_tr ==> (ctx_bool(storage@[session_id@].context@, "trace.enabled"@)
                == Option::Some(true) && trace_events_of(storage@[session_id@].context@).len()
                == 0 ==> storage@[session_id@].current_task_id@ == "researcher"@),
            entry_tr ==> (ctx_bool(storage@[session_id@].context@, "trace.enabled"@)
                != Option::Some(true) ==> trace_events_of(
                storage@[session_id@].context@,
            ).len() == 0),
            chain_empty == (entry_ok && old(storage)@[session_id@].current_task_id@
                == "researcher"@ && session_docs(stub.sessions@, session_id@).len() == 0),
            chain_strict == (entry_ok && old(storage)@[session_id@].current_task_id@
                == "researcher"@ && settings.verification_count == 0
                && settings.min_confidence_hundredths > 50),
            stub.wf(),
            chain_empty ==> (default_pos(storage@[session_id@].current_task_id@) >= 1
                ==> ctx_strings(storage@[session_id@].context@, "research.sources"@)
                == Option::Some(Seq::<Seq<char>>::empty())),
            chain_empty ==> (default_pos(storage@[session_id@].current_task_id@) >= 2
                ==> spec_analysis_sources(storage@[session_id@].context@).len() == 0),
            chain_empty ==> (default_pos(storage@[session_id@].current_task_id@) >= 5
                ==> ctx_bool(storage@[session_id@].context@, "critique.confident"@)
                == Option::Some(false)),
            chain_strict ==> (default_pos(storage@[session_id@].current_task_id@) >= 4
                ==> ctx_bool(storage@[session_id@].context@, "factcheck.passed"@)
                == Option::Some(false)),
            chain_strict ==> (default_pos(storage@[session_id@].current_task_id@) >= 5
                ==> ctx_bool(storage@[session_id@].context@, "critique.confident"@)
                == Option::Some(false)),
            entry_term == (entry_ok && terminal_entry(old(storage)@[session_id@])),
            entry_term ==> storage@[session_id@] == old(storage)@[session_id@],
            chain_seeded == (entry_ok && old(storage)@[session_id@].current_task_id@
                == "researcher"@ && session_docs(stub.sessions@, session_id@).len() >= 1 && (
            forall|i: int|
                0 <= i < session_docs(stub.sessions@, session_id@).len()
                    ==> !crate::strutil::spec_is_blank(
                    (#[trigger] session_docs(stub.sessions@, session_id@)[i]).text@,
                ))),
            chain_seeded ==> (entry_ok && session_docs(stub.sessions@, session_id@).len()
                == seeded_n && seeded_n >= 1 && seeded_s == (if seeded_n < 5 {
                seeded_n
            } else {
                5nat
            }) && seeded_pass == stub_run_passes(seeded_n, *settings) && (forall|i: int|
                0 <= i < session_docs(stub.sessions@, session_id@).len()
                    ==> !crate::strutil::spec_is_blank(
                    (#[trigger] session_docs(stub.sessions@, session_id@)[i]).text@,
                ))),
            chain_seeded ==> (default_pos(storage@[session_id@].current_task_id@) >= 1 ==> (
            ctx_strings(storage@[session_id@].context@, "research.sources"@) is Some
                && ctx_strings(storage@[session_id@].context@, "research.sources"@)->0.len()
                == seeded_s && ctx_strings(storage@[session_id@].context@, "research.findings"@)
                is Some && ctx_strings(
                storage@[session_id@].context@,
                "research.findings"@,
            )->0.len() == seeded_s)),
            chain_seeded ==> (default_pos(storage@[session_id@].current_task_id@) >= 2 ==> (
            spec_analysis_sources(storage@[session_id@].context@).len() == seeded_s
                && crate::strutil::spec_count_char(
                crate::tasks::spec_analysis_summary(storage@[session_id@].context@),
                '.',
            ) >= 1)),
            chain_seeded ==> (default_pos(storage@[session_id@].current_task_id@) >= 4
                ==> ctx_bool(storage@[session_id@].context@, "factcheck.passed"@)
                == Option::Some(seeded_pass)),
            chain_seeded ==> (default_pos(storage@[session_id@].current_task_id@) >= 5
                ==> ctx_bool(storage@[session_id@].context@, "critique.confident"@)
                == Option::Some(seeded_pass)),
        decreases fuel,
    {
        fuel = fuel - 1;
        proof {
            schema_keys_distinct();
            task_ids_distinct();
        }
        let mut session = match storage.get(session_id) {
            Option::Some(s) => s,
            Option::None => {
                let mut msg: String = "session '".to_owned();
                msg.append(session_id);
                msg.append("' was not found");
                return Result::Err(DeepResearchError::StorageError(msg));
            },
        };
        let ghost stored = storage@[session_id@];
        let ghost m_stored = stored.context@;
        let ghost m0 = session.context@;
        proof {
            crate::context::lemma_like_reads(m_stored, m0);
        }
        let current = session.current_task_id.clone();

        let ghost mut retrieved: Seq<RetrievedDocument> = Seq::empty();
        let input: StepInput = match g.find_kind(current.as_str()) {
            Option::Some(TaskKind::Researcher) => {
                let docs = stub.retrieve(session_id, 5);
                proof {
                    retrieved = docs@;
                }
                StepInput::Retrieved(Result::Ok(docs))
            },
            Option::Some(TaskKind::MathTool) => {
                if sandbox_outcomes.len() > 0 {
                    StepInput::SandboxDone(Option::Some(sandbox_outcomes.remove(0)))
                } else {
                    StepInput::SandboxDone(Option::None)
                }
            },
            _ => StepInput::Nothing,
        };

        let tr = match execute_current(
            g,
            &mut session.context,
            current.as_str(),
            input,
            settings,
            streak,
        ) {
            Result::Ok(t) => t,
            Result::Err(e) => {
                proof {
                    if entry_ok {
                        lemma_default_node_kind(g, current@);
                    }
                }
                return Result::Err(e);
            },
        };
        let ghost m1 = session.context@;
        proof {
            if entry_ok {
                lemma_default_node_kind(g, current@);
            }
            if chain_seeded && current@ == "researcher"@ {
                assert(retrieved.len() == seeded_s);
                assert(retrieved[0].score_milli == 1000);
                assert(!crate::strutil::spec_is_blank(
                    (session_docs(stub.sessions@, session_id@)[0]).text@,
                ));
                assert(retrieved[0].text@ == session_docs(stub.sessions@, session_id@)[0].text@);
                assert(!crate::strutil::spec_is_blank(retrieved[0].text@));
                assert(!crate::tasks::all_degenerate(retrieved));
                crate::tasks::lemma_findings_upto_len(retrieved, retrieved.len() as nat);
                assert(forall|i: int|
                    0 <= i < retrieved.len() ==> (#[trigger] retrieved[i]).source is Some);
                crate::tasks::lemma_sources_upto_len(retrieved, retrieved.len() as nat);
            }
            if chain_seeded && current@ == "analyst"@ {
                let findings = crate::tasks::spec_analyst_findings(m0);
                assert(findings.len() == seeded_s && seeded_s >= 1);
                crate::tasks::lemma_analyst_summary_has_period(
                    findings,
                    crate::tasks::spec_analyst_sources(m0).len(),
                );
            }
            if chain_seeded && current@ == "fact_check"@ {
                assert(spec_analysis_sources(m0).len() == seeded_s);
                assert(spec_verified_count(
                    seeded_s,
                    settings.verification_count as nat,
                ) == spec_verified_count(
                    spec_analysis_sources(m0).len(),
                    settings.verification_count as nat,
                ));
            }
            if chain_seeded && current@ == "critic"@ {
                assert(ctx_bool(m0, "factcheck.passed"@) == Option::Some(seeded_pass));
                assert(crate::strutil::spec_count_char(
                    crate::tasks::spec_analysis_summary(m0),
                    '.',
                ) >= 1);
                assert(spec_analysis_sources(m0).len() == seeded_s && seeded_s >= 1);
                assert(crate::tasks::spec_critic_confident(m0) == seeded_pass);
            }
            if chain_strict && current@ == "fact_check"@ {
                let s_cnt = spec_analysis_sources(m0).len();
                assert(spec_verified_count(s_cnt, settings.verification_count as nat) == 0);
                if s_cnt > 0 {
                    assert(!(100 * (s_cnt + 0) >= (settings.min_confidence_hundredths as nat) * 2
                        * s_cnt)) by (nonlinear_arith)
                        requires
                            s_cnt >= 1,
                            settings.min_confidence_hundredths > 50,
                    ;
                }
                assert(spec_fact_passed(
                    s_cnt,
                    spec_verified_count(s_cnt, settings.verification_count as nat),
                    settings.min_confidence_hundredths as nat,
                ) == false);
            }
        }

        match tr.next_action {
            crate::tasks::NextAction::End => {
                session.status = SessionPhase::Completed;
                storage.save(session);
                proof {
                    if chain_seeded {
                        assert(default_pos(current@) >= 5);
                        assert(ctx_bool(m0, "critique.confident"@) == Option::Some(seeded_pass));
                        assert(ctx_bool(m1, "critique.confident"@) == Option::Some(seeded_pass));
                    }
                    if entry_ok {
                        if node_kind(g, current@) is Finalize {
                            assert(spec_final_summary(m1) == spec_final_summary(m0));
                            assert(ctx_str(m1, "final.summary"@) == Option::Some(
                                spec_final_summary(m1),
                            ));
                        }
                    }
                    if entry_term {
                        crate::context::lemma_like_reads(m_stored, m0);
                        if current@ == "finalize"@ {
                            assert(ctx_str(m1, "final.summary"@) == Option::Some(
                                spec_final_summary(m0),
                            ));
                            assert(spec_final_summary(m0) == spec_final_summary(m_stored));
                        }
                    }
                    if entry_ok {
                        assert(node_kind(g, current@) is Finalize || node_kind(
                            g,
                            current@,
                        ) is ManualReview);
                        if entry_cons {
                            if node_kind(g, current@) is Finalize {
                                assert(ctx_str(m1, "final.summary"@) == Option::Some(
                                    spec_final_summary(m0),
                                ));
                                assert(is_finalizer_summary(spec_final_summary(m0)));
                                assert(ctx_bool(m1, "critique.confident"@) == ctx_bool(
                                    m0,
                                    "critique.confident"@,
                                ));
                            } else {
                                assert(ctx_str(m1, "final.summary"@) == Option::Some(
                                    spec_manual_summary(),
                                ));
                            }
                        }
                    }
                }
                return Result::Ok(());
            },
            crate::tasks::NextAction::WaitingForInput => {
                proof {
                    assert(false);
                }
                storage.save(session);
            },
            crate::tasks::NextAction::ContinueAndExecute => {
                proof {
                    if entry_term {
                        assert(node_kind(g, current@) is Finalize || node_kind(
                            g,
                            current@,
                        ) is ManualReview);
                        assert(false);
                    }
                }
                match g.advance(&session.context, current.as_str()) {
                    Option::Some(next) => {
                        proof {
                            if entry_ok {
                                lemma_default_advance(g, m1, current@);
                            }
                            if entry_tr {
                                assert(ctx_bool(m1, "trace.enabled"@) == ctx_bool(
                                    m0,
                                    "trace.enabled"@,
                                ));
                                if ctx_bool(m0, "trace.enabled"@) == Option::Some(true) {
                                    assert(trace_events_of(m1).last().task_id@ == current@);
                                    assert(default_edge(current@, next@));
                                } else {
                                    assert(trace_events_of(m1) == trace_events_of(m0));
                                }
                            }
                        }
                        session.current_task_id = next;
                        storage.save(session);
                    },
                    Option::None => {
                        proof {
                            if entry_ok {
                                lemma_default_advance(g, m1, current@);
                            }
                        }
                        session.status = SessionPhase::Failed;
                        storage.save(session);
                        return Result::Err(
                            DeepResearchError::OrchestrationError(
                                "no outgoing edge from the current task".to_owned(),
                            ),
                        );
                    },
                }
            },
        }
    }
    proof {
        assert(!entry_ok);
    }
    Result::Err(
        DeepResearchError::OrchestrationError(
            "the workflow did not reach a terminal task within its step budget".to_owned(),
        ),
    )
}


/// The seeded pairs stay clear of the keys the engine itself manages.
pub open spec fn seed_clean(opts: SessionOptions) -> bool {
    forall|i: int|
        0 <= i < opts.initial_context@.len() ==> {
            let k = (#[trigger] opts.initial_context@[i]).0@;
            &&& k != "final.summary"@
            &&& k != "final.requires_manual"@
            &&& k != "trace.collector"@
        }
}

/// Run the research workflow end to end and return the detailed outcome.
///
/// The session is seeded with the query, its id, the caller's initial
/// pairs and (when requested) a fresh trace collector, persisted, then
/// driven to completion over the default graph. With the stub retriever
/// and no customizer, completion is guaranteed; the outcome's manual flag
/// is then the exact opposite of the critic's recorded confidence, the
/// summary is the finalizer's or the manual-review text accordingly, and
/// the recorded trace follows the default wiring from retrieval onwards.
pub fn run_research_session_with_report(
    options: SessionOptions,
    storage: &mut InMemorySessionStorage,
) -> (r: Result<SessionOutcome, DeepResearchError>)
    ensures
        options.retriever is Qdrant ==> r is Err,
        (options.retriever is Stub && options.customizer is None && seed_clean(options)) ==> r
            is Ok,
        (r is Ok && options.customizer is None && seed_clean(options)) ==> {
            let o = r->Ok_0;
            &&& (o.requires_manual ==> o.summary@ == spec_manual_summary())
            &&& (!o.requires_manual ==> is_finalizer_summary(o.summary@))
            &&& o.critic_confident == Option::Some(!o.requires_manual)
            &&& trace_path_follows(o.trace_events@)
            &&& final(storage)@.contains_key(o.session_id@)
            &&& final(storage)@[o.session_id@].id@ == o.session_id@
            &&& terminal_entry(final(storage)@[o.session_id@])
            &&& o.summary@ == spec_outcome_summary(final(storage)@[o.session_id@].context@)
            &&& o.requires_manual == (ctx_bool(
                final(storage)@[o.session_id@].context@,
                "final.requires_manual"@,
            ) == Option::Some(true))
            &&& o.critic_confident == ctx_bool(
                final(storage)@[o.session_id@].context@,
                "critique.confident"@,
            )
            &&& o.trace_events@ == trace_events_of(final(storage)@[o.session_id@].context@)
        },
        (r is Ok && options.customizer is None && seed_clean(options) && options.session_id
            is Some) ==> r->Ok_0.session_id@ == options.session_id->0@,
        (options.retriever is Stub && options.customizer is None && seed_clean(options)
            && options.stub_documents@.len() == 0) ==> {
            &&& r is Ok
            &&& r->Ok_0.requires_manual
            &&& r->Ok_0.summary@ == spec_manual_summary()
            &&& r->Ok_0.critic_confident == Option::Some(false)
        },
        (options.retriever is Stub && options.customizer is None && seed_clean(options)
            && options.fact_check_settings.verification_count == 0
            && options.fact_check_settings.min_confidence_hundredths > 50) ==> {
            &&& r is Ok
            &&& r->Ok_0.requires_manual
            &&& r->Ok_0.summary@ == spec_manual_summary()
            &&& r->Ok_0.critic_confident == Option::Some(false)
        },
        (options.retriever is Stub && options.customizer is None && seed_clean(options)
            && options.stub_documents@.len() >= 1 && (forall|i: int|
            0 <= i < options.stub_documents@.len() ==> !crate::strutil::spec_is_blank(
                (#[trigger] options.stub_documents@[i]).text@,
            ))) ==> {
            let passes = stub_run_passes(
                options.stub_documents@.len() as nat,
                options.fact_check_settings,
            );
            &&& r is Ok
            &&& r->Ok_0.critic_confident == Option::Some(passes)
            &&& r->Ok_0.requires_manual == !passes
        },
{
    match &options.retriever {
        RetrieverChoice::Qdrant { .. } => {
            return Result::Err(
                DeepResearchError::RetrievalError(
                    "the dense backend is driven by the service adapter; this entry point uses the in-memory stub".to_owned(),
                ),
            );
        },
        RetrieverChoice::Stub => {},
    }
    let graph = match build_graph(&options.customizer) {
        Result::Ok(gr) => gr,
        Result::Err(e) => {
            return Result::Err(e);
        },
    };
    let session_id = match &options.session_id {
        Option::Some(s) => s.clone(),
        Option::None => new_session_id(),
    };
    let mut session = Session::new_from_task(session_id.clone(), "researcher".to_owned());
    session.context.set("query".to_owned(), CtxValue::Str(options.query.clone()));
    session.context.set("session_id".to_owned(), CtxValue::Str(session_id.clone()));
    proof {
        schema_keys_distinct();
    }
    let mut i: usize = 0;
    while i < options.initial_context.len()
        invariant
            i <= options.initial_context@.len(),
            seed_clean(options) ==> {
                &&& !session.context@.contains_key("final.summary"@)
                &&& !session.context@.contains_key("final.requires_manual"@)
                &&& !session.context@.contains_key("trace.collector"@)
            },
            session.id@ == session_id@,
            session.current_task_id@ == "researcher"@,
            session.status == SessionPhase::Active,
        decreases options.initial_context@.len() - i,
    {
        proof {
            schema_keys_distinct();
        }
        let key = options.initial_context[i].0.clone();
        let value = options.initial_context[i].1.clone();
        session.context.set(key, value);
        i = i + 1;
    }
    proof {
        schema_keys_distinct();
    }
    if options.trace_enabled {
        session.context.set("trace.enabled".to_owned(), CtxValue::Bool(true));
        session.context.set("trace.collector".to_owned(), CtxValue::Trace(TraceCollector::new()));
    }
    let ghost seeded = session.context@;
    storage.save(session);

    let mut stub = StubRetriever::new();
    let seed_docs = options.stub_documents;
    proof {
        assert(session_docs(stub.sessions@, session_id@) =~= Seq::<IngestDocument>::empty());
    }
    if seed_docs.len() > 0 {
        let ghost seed_view = seed_docs@;
        stub.ingest(session_id.as_str(), seed_docs);
        proof {
            assert(session_docs(stub.sessions@, session_id@) =~= seed_view);
        }
    }
    let mut outcomes = options.sandbox_outcomes;
    let mut streak = FailureStreak::new();
    proof {
        if options.customizer is None && seed_clean(options) {
            assert(entry_runnable(&graph, storage@, session_id@));
            assert(session_consistent(storage@[session_id@]));
            assert(trace_events_of(seeded) =~= Seq::<TraceEvent>::empty());
        }
    }
    match drive_to_completion(
        &graph,
        storage,
        session_id.as_str(),
        &options.fact_check_settings,
        &stub,
        &mut outcomes,
        &mut streak,
    ) {
        Result::Ok(()) => {},
        Result::Err(e) => {
            return Result::Err(e);
        },
    }
    let final_session = match storage.get(session_id.as_str()) {
        Option::Some(s) => s,
        Option::None => {
            return Result::Err(
                DeepResearchError::StorageError("the finished session disappeared".to_owned()),
            );
        },
    };
    proof {
        if options.customizer is None && seed_clean(options) {
            crate::context::lemma_like_reads(
                storage@[session_id@].context@,
                final_session.context@,
            );
            assert(final_session.id@ == session_id@);
        }
    }
    Result::Ok(build_outcome(&final_session, &options.trace_output_dir))
}

/// Run with default settings and return only the summary.
pub fn run_research_session(query: String, storage: &mut InMemorySessionStorage) -> (r: Result<
    String,
    DeepResearchError,
>)
    ensures
        r is Ok,
        r->Ok_0@ == spec_manual_summary(),
        exists|sid: Seq<char>|
            {
                &&& #[trigger] final(storage)@.contains_key(sid)
                &&& terminal_entry(final(storage)@[sid])
                &&& ctx_str(final(storage)@[sid].context@, "final.summary"@) == Option::Some(
                    r->Ok_0@,
                )
            },
{
    let options = SessionOptions::new(query);
    match run_research_session_with_report(options, storage) {
        Result::Ok(o) => {
            proof {
                let sid = o.session_id@;
                assert(final(storage)@.contains_key(sid) && terminal_entry(final(storage)@[sid])
                    && ctx_str(final(storage)@[sid].context@, "final.summary"@) == Option::Some(
                    o.summary@,
                ));
            }
            Result::Ok(o.summary)
        },
        Result::Err(e) => Result::Err(e),
    }
}

/// Run with custom options and return only the summary.
pub fn run_research_session_with_options(
    options: SessionOptions,
    storage: &mut InMemorySessionStorage,
) -> (r: Result<String, DeepResearchError>)
    ensures
        options.retriever is Qdrant ==> r is Err,
        (options.retriever is Stub && options.customizer is None && seed_clean(options)) ==> r
            is Ok,
        (options.retriever is Stub && options.customizer is None && seed_clean(options)) ==> (r
            is Ok && exists|sid: Seq<char>|
            {
                &&& #[trigger] final(storage)@.contains_key(sid)
                &&& terminal_entry(final(storage)@[sid])
                &&& ctx_str(final(storage)@[sid].context@, "final.summary"@) == Option::Some(
                    r->Ok_0@,
                )
            }),
        (options.retriever is Stub && options.customizer is None && seed_clean(options)
            && options.stub_documents@.len() == 0) ==> (r is Ok && r->Ok_0@
            == spec_manual_summary()),
        (options.retriever is Stub && options.customizer is None && seed_clean(options)
            && options.fact_check_settings.verification_count == 0
            && options.fact_check_settings.min_confidence_hundredths > 50) ==> (r is Ok
            && r->Ok_0@ == spec_manual_summary()),
        (options.retriever is Stub && options.customizer is None && seed_clean(options)
            && options.stub_documents@.len() >= 1 && (forall|i: int|
            0 <= i < options.stub_documents@.len() ==> !crate::strutil::spec_is_blank(
                (#[trigger] options.stub_documents@[i]).text@,
            ))) ==> {
            let passes = stub_run_passes(
                options.stub_documents@.len() as nat,
                options.fact_check_settings,
            );
            &&& r is Ok
            &&& (passes ==> is_finalizer_summary(r->Ok_0@))
            &&& (!passes ==> r->Ok_0@ == spec_manual_summary())
        },
{
    match run_research_session_with_report(options, storage) {
        Result::Ok(o) => {
            proof {
                if options.retriever is Stub && options.customizer is None && seed_clean(
                    options,
                ) {
                    let sid = o.session_id@;
                    assert(final(storage)@.contains_key(sid) && terminal_entry(
                        final(storage)@[sid],
                    ) && ctx_str(final(storage)@[sid].context@, "final.summary"@)
                        == Option::Some(o.summary@));
                }
            }
            Result::Ok(o.summary)
        },
        Result::Err(e) => Result::Err(e),
    }
}

/// Resume a previously started session and return the detailed outcome.
/// Resuming an unknown session is an input-validation error. A session
/// parked on any of the default tasks resumes to completion; resuming a
/// finished one re-runs its terminal task and reports the stored summary
/// again.
pub fn resume_research_session_with_report(
    options: ResumeOptions,
    storage: &mut InMemorySessionStorage,
) -> (r: Result<SessionOutcome, DeepResearchError>)
    ensures
        !old(storage)@.contains_key(options.session_id@) ==> r is Err,
        options.retriever is Qdrant ==> r is Err,
        (options.retriever is Stub && options.customizer is None && old(storage)@.contains_key(
            options.session_id@,
        ) && old(storage)@[options.session_id@].id@ == options.session_id@
            && is_default_task_id(old(storage)@[options.session_id@].current_task_id@)) ==> (r
            is Ok && final(storage)@.contains_key(options.session_id@)
            && final(storage)@[options.session_id@].id@ == options.session_id@
            && terminal_entry(final(storage)@[options.session_id@])),
        (options.retriever is Stub && options.customizer is None && old(storage)@.contains_key(
            options.session_id@,
        ) && old(storage)@[options.session_id@].id@ == options.session_id@ && terminal_entry(
            old(storage)@[options.session_id@],
        ) && !options.trace_enabled) ==> (r is Ok && r->Ok_0.summary@ == ctx_str(
            old(storage)@[options.session_id@].context@,
            "final.summary"@,
        )->0),
{
    match &options.retriever {
        RetrieverChoice::Qdrant { .. } => {
            return Result::Err(
                DeepResearchError::RetrievalError(
                    "the dense backend is driven by the service adapter; this entry point uses the in-memory stub".to_owned(),
                ),
            );
        },
        RetrieverChoice::Stub => {},
    }
    let graph = match build_graph(&options.customizer) {
        Result::Ok(gr) => gr,
        Result::Err(e) => {
            return Result::Err(e);
        },
    };
    let mut session = match storage.get(options.session_id.as_str()) {
        Option::Some(s) => s,
        Option::None => {
            let mut msg: String = "session '".to_owned();
            msg.append(options.session_id.as_str());
            msg.append("' was not found");
            return Result::Err(DeepResearchError::InputValidation(msg));
        },
    };
    if options.trace_enabled {
        session.context.set("trace.enabled".to_owned(), CtxValue::Bool(true));
        let has_collector = match session.context.get_trace("trace.collector") {
            Option::Some(_) => true,
            Option::None => false,
        };
        if !has_collector {
            session.context.set(
                "trace.collector".to_owned(),
                CtxValue::Trace(TraceCollector::new()),
            );
        }
        storage.save(session);
    }

    let stub = StubRetriever::new();
    let mut outcomes = options.sandbox_outcomes;
    let mut streak = FailureStreak::new();
    match drive_to_completion(
        &graph,
        storage,
        options.session_id.as_str(),
        &options.fact_check_settings,
        &stub,
        &mut outcomes,
        &mut streak,
    ) {
        Result::Ok(()) => {},
        Result::Err(e) => {
            return Result::Err(e);
        },
    }
    let final_session = match storage.get(options.session_id.as_str()) {
        Option::Some(s) => s,
        Option::None => {
            return Result::Err(
                DeepResearchError::StorageError("the finished session disappeared".to_owned()),
            );
        },
    };
    proof {
        crate::context::lemma_like_reads(
            storage@[options.session_id@].context@,
            final_session.context@,
        );
    }
    Result::Ok(build_outcome(&final_session, &options.trace_output_dir))
}

/// Resume and return only the summary.
pub fn resume_research_session(
    options: ResumeOptions,
    storage: &mut InMemorySessionStorage,
) -> (r: Result<String, DeepResearchError>)
    ensures
        !old(storage)@.contains_key(options.session_id@) ==> r is Err,
        options.retriever is Qdrant ==> r is Err,
        (options.retriever is Stub && options.customizer is None && old(storage)@.contains_key(
            options.session_id@,
        ) && old(storage)@[options.session_id@].id@ == options.session_id@
            && is_default_task_id(old(storage)@[options.session_id@].current_task_id@)) ==> (r
            is Ok && final(storage)@.contains_key(options.session_id@)
            && final(storage)@[options.session_id@].id@ == options.session_id@
            && terminal_entry(final(storage)@[options.session_id@])),
        (options.retriever is Stub && options.customizer is None && old(storage)@.contains_key(
            options.session_id@,
        ) && old(storage)@[options.session_id@].id@ == options.session_id@ && terminal_entry(
            old(storage)@[options.session_id@],
        ) && !options.trace_enabled) ==> (r is Ok && r->Ok_0@ == ctx_str(
            old(storage)@[options.session_id@].context@,
            "final.summary"@,
        )->0),
{
    match resume_research_session_with_report(options, storage) {
        Result::Ok(o) => Result::Ok(o.summary),
        Result::Err(e) => Result::Err(e),
    }
}

/// Materialize the outcome of a stored session without executing anything.
/// Every reported field is a function of the stored snapshot, so a load
/// after a run reports what the run reported.
pub fn load_session_report(
    options: LoadOptions,
    storage: &InMemorySessionStorage,
) -> (r: Result<SessionOutcome, DeepResearchError>)
    ensures
        r is Ok <==> storage@.contains_key(options.session_id@),
        r is Ok ==> {
            let m = storage@[options.session_id@].context@;
            let o = r->Ok_0;
            &&& o.session_id@ == storage@[options.session_id@].id@
            &&& o.summary@ == spec_outcome_summary(m)
            &&& o.trace_events@ == trace_events_of(m)
            &&& o.requires_manual == (ctx_bool(m, "final.requires_manual"@) == Option::Some(true))
            &&& o.factcheck_confidence == ctx_hundredths(m, "factcheck.confidence"@)
            &&& o.factcheck_passed == ctx_bool(m, "factcheck.passed"@)
            &&& o.critic_confident == ctx_bool(m, "critique.confident"@)
        },
{
    let session = match storage.get(options.session_id.as_str()) {
        Option::Some(s) => s,
        Option::None => {
            let mut msg: String = "session '".to_owned();
            msg.append(options.session_id.as_str());
            msg.append("' was not found");
            return Result::Err(DeepResearchError::InputValidation(msg));
        },
    };
    proof {
        crate::context::lemma_like_reads(
            storage@[options.session_id@].context@,
            session.context@,
        );
    }
    Result::Ok(build_outcome(&session, &options.trace_output_dir))
}

/// Delete a stored session. Deleting an unknown session is an
/// input-validation error; a successful delete removes exactly that id.
pub fn delete_session(
    options: DeleteOptions,
    storage: &mut InMemorySessionStorage,
) -> (r: Result<(), DeepResearchError>)
    ensures
        r is Ok <==> old(storage)@.contains_key(options.session_id@),
        r is Ok ==> final(storage)@ == old(storage)@.remove(options.session_id@),
        !(r is Ok) ==> final(storage)@ == old(storage)@,
{
    let exists = match storage.get(options.session_id.as_str()) {
        Option::Some(_) => true,
        Option::None => false,
    };
    if !exists {
        let mut msg: String = "session '".to_owned();
        msg.append(options.session_id.as_str());
        msg.append("' was not found");
        return Result::Err(DeepResearchError::InputValidation(msg));
    }
    storage.delete(options.session_id.as_str());
    Result::Ok(())
}

/// Forward documents to the chosen retrieval layer. The stub variant
/// appends them to the caller's in-memory store under the session's key,
/// where that store's later `retrieve` calls see them (and from where a
/// caller can seed a run); the dense variant is reached through the
/// service adapter.
pub fn ingest_documents(options: IngestOptions, retriever: &mut StubRetriever) -> (r: Result<
    (),
    DeepResearchError,
>)
    requires
        old(retriever).wf(),
    ensures
        final(retriever).wf(),
        options.retriever is Stub ==> r is Ok,
        options.retriever is Qdrant ==> r is Err,
        options.retriever is Stub ==> session_docs(
            final(retriever).sessions@,
            options.session_id@,
        ) == session_docs(old(retriever).sessions@, options.session_id@) + options.documents@,
        options.retriever is Stub ==> forall|k: Seq<char>|
            k != options.session_id@ ==> #[trigger] session_docs(final(retriever).sessions@, k)
                == session_docs(old(retriever).sessions@, k),
        options.retriever is Qdrant ==> final(retriever).sessions@ == old(retriever).sessions@,
{
    match &options.retriever {
        RetrieverChoice::Stub => {
            retriever.ingest(options.session_id.as_str(), options.documents);
            Result::Ok(())
        },
        RetrieverChoice::Qdrant { .. } => {
            Result::Err(
                DeepResearchError::RetrievalError(
                    "the dense backend is driven by the service adapter".to_owned(),
                ),
            )
        },
    }
}


/// The rendering formats an outcome can be explained in.
#[derive(Debug, Clone, Copy, PartialEq, Eq, Structural)]
pub enum ExplainFormat {
    Markdown,
    Mermaid,
    Graphviz,
}

impl ExplainFormat {
    /// Render the outcome's trace in this format, when events exist.
    pub fn render(self, outcome: &SessionOutcome) -> (r: Option<String>)
        ensures
            r is Some <==> outcome.trace_events@.len() > 0,
            (r is Some && self is Markdown) ==> r->0@ == markdown_of(outcome.trace_summary.steps@),
            (r is Some && self is Mermaid) ==> r->0@ == mermaid_of(outcome.trace_summary.steps@),
            (r is Some && self is Graphviz) ==> r->0@ == graphviz_of(outcome.trace_summary.steps@),
    {
        match self {
            ExplainFormat::Markdown => outcome.explain_markdown(),
            ExplainFormat::Mermaid => outcome.explain_mermaid(),
            ExplainFormat::Graphviz => outcome.explain_graphviz(),
        }
    }

    /// The format's lowercase label.
    pub fn label(self) -> (r: &'static str)
        ensures
            self is Markdown ==> r@ == "markdown"@,
            self is Mermaid ==> r@ == "mermaid"@,
            self is Graphviz ==> r@ == "graphviz"@,
    {
        match self {
            ExplainFormat::Markdown => "markdown",
            ExplainFormat::Mermaid => "mermaid",
            ExplainFormat::Graphviz => "graphviz",
        }
    }
}

/// The retrieval layer's short label.
pub fn retrieval_mode(retriever: &RetrieverChoice) -> (r: &'static str)
    ensures
        retriever is Stub ==> r@ == "stub"@,
        retriever is Qdrant ==> r@ == "qdrant"@,
{
    match retriever {
        RetrieverChoice::Stub => "stub",
        RetrieverChoice::Qdrant { .. } => "qdrant",
    }
}

} // verus!
