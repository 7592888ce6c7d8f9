//! The workflow graph and its execution step.
//!
//! A graph is a set of task nodes keyed by stable id, unconditional edges,
//! and conditional edges whose predicates read the context synchronously.
//! Build-time validation rejects a missing start task, duplicate ids, and
//! dangling edges. One execution step runs the current task against the
//! context and the outside work handed in by the driver, then the outgoing
//! edges decide the next task.

use vstd::prelude::*;
use vstd::string::StringExecFns;

use crate::context::{Context, ctx_bool};
use crate::error::DeepResearchError;
use crate::retrieval::RetrievedDocument;
use crate::sandbox::{FailureStreak, SandboxResult};
use crate::strutil::str_eq;
use crate::context::{ctx_str, ctx_strings, preserves_except, traced_step};
use crate::tasks::{
    FactCheckSettings, NextAction, TaskResult, math_keys, researcher_output, run_analyst,
    run_critic, run_fact_check, run_finalize, run_manual_review, run_math_tool, run_researcher,
    spec_analysis_sources, spec_analyst_findings, spec_analyst_sources, spec_analyst_summary,
    spec_critic_confident, spec_fact_passed, spec_final_summary, spec_manual_summary, spec_verdict,
};

verus! {

/// The seven task kinds of the workflow library.
#[derive(Debug, Clone, Copy, PartialEq, Eq, Structural)]
pub enum TaskKind {
    Researcher,
    Analyst,
    MathTool,
    FactCheck,
    Critic,
    Finalize,
    ManualReview,
}

impl TaskKind {
    /// The stable id a task of this kind records under.
    pub fn label(&self) -> (r: String)
        ensures
            r@ == self.spec_label(),
    {
        match self {
            TaskKind::Researcher => "researcher".to_owned(),
            TaskKind::Analyst => "analyst".to_owned(),
            TaskKind::MathTool => "math_tool".to_owned(),
            TaskKind::FactCheck => "fact_check".to_owned(),
            TaskKind::Critic => "critic".to_owned(),
            TaskKind::Finalize => "finalize".to_owned(),
            TaskKind::ManualReview => "manual_review".to_owned(),
        }
    }

    pub open spec fn spec_label(&self) -> Seq<char> {
        match self {
            TaskKind::Researcher => "researcher"@,
            TaskKind::Analyst => "analyst"@,
            TaskKind::MathTool => "math_tool"@,
            TaskKind::FactCheck => "fact_check"@,
            TaskKind::Critic => "critic"@,
            TaskKind::Finalize => "finalize"@,
            TaskKind::ManualReview => "manual_review"@,
        }
    }
}

/// One task node: a stable id and the behavior bound to it.
#[derive(Debug)]
pub struct GraphNode {
    pub id: String,
    pub kind: TaskKind,
}

impl Clone for GraphNode {
    fn clone(&self) -> (r: Self)
        ensures
            r.id@ == self.id@,
            r.kind == self.kind,
    {
        GraphNode { id: self.id.clone(), kind: self.kind }
    }
}

/// An unconditional edge.
#[derive(Debug)]
pub struct Edge {
    pub from: String,
    pub to: String,
}

impl Clone for Edge {
    fn clone(&self) -> (r: Self)
        ensures
            r.from@ == self.from@,
            r.to@ == self.to@,
    {
        Edge { from: self.from.clone(), to: self.to.clone() }
    }
}

/// A synchronously evaluable predicate over the context.
#[derive(Debug)]
pub enum Predicate {
    /// True exactly when the key holds the boolean `true`.
    BoolKeyIsTrue(String),
}

impl Clone for Predicate {
    fn clone(&self) -> (r: Self)
        ensures
            pred_like(r, *self),
    {
        match self {
            Predicate::BoolKeyIsTrue(k) => Predicate::BoolKeyIsTrue(k.clone()),
        }
    }
}

pub open spec fn pred_like(a: Predicate, b: Predicate) -> bool {
    match (a, b) {
        (Predicate::BoolKeyIsTrue(x), Predicate::BoolKeyIsTrue(y)) => x@ == y@,
    }
}

/// What a predicate evaluates to over a context snapshot: an absent or
/// non-boolean key counts as false.
pub open spec fn spec_eval_pred(p: Predicate, m: Map<Seq<char>, crate::context::CtxValue>) -> bool {
    match p {
        Predicate::BoolKeyIsTrue(k) => ctx_bool(m, k@) == Option::Some(true),
    }
}

/// A conditional edge: the predicate picks between two successors.
#[derive(Debug)]
pub struct CondEdge {
    pub from: String,
    pub predicate: Predicate,
    pub then_to: String,
    pub else_to: String,
}

impl Clone for CondEdge {
    fn clone(&self) -> (r: Self)
        ensures
            r.from@ == self.from@,
            pred_like(r.predicate, self.predicate),
            r.then_to@ == self.then_to@,
            r.else_to@ == self.else_to@,
    {
        CondEdge {
            from: self.from.clone(),
            predicate: self.predicate.clone(),
            then_to: self.then_to.clone(),
            else_to: self.else_to.clone(),
        }
    }
}

/// A validated workflow graph.
#[derive(Debug)]
pub struct Graph {
    pub nodes: Vec<GraphNode>,
    pub edges: Vec<Edge>,
    pub cond_edges: Vec<CondEdge>,
    pub start: String,
}

pub open spec fn has_node(nodes: Seq<GraphNode>, id: Seq<char>) -> bool {
    exists|i: int| 0 <= i < nodes.len() && (#[trigger] nodes[i]).id@ == id
}

pub open spec fn unique_node_ids(nodes: Seq<GraphNode>) -> bool {
    forall|i: int, j: int|
        0 <= i < j < nodes.len() ==> (#[trigger] nodes[i]).id@ != (#[trigger] nodes[j]).id@
}

/// A well-formed graph: a declared start node, unique ids, and no dangling
/// edge endpoint.
pub open spec fn graph_wf(
    nodes: Seq<GraphNode>,
    edges: Seq<Edge>,
    cond_edges: Seq<CondEdge>,
    start: Option<Seq<char>>,
) -> bool {
    &&& start is Some
    &&& has_node(nodes, start->0)
    &&& unique_node_ids(nodes)
    &&& forall|i: int|
        0 <= i < edges.len() ==> has_node(nodes, (#[trigger] edges[i]).from@) && has_node(
            nodes,
            edges[i].to@,
        )
    &&& forall|i: int|
        0 <= i < cond_edges.len() ==> has_node(nodes, (#[trigger] cond_edges[i]).from@)
            && has_node(nodes, cond_edges[i].then_to@) && has_node(nodes, cond_edges[i].else_to@)
}

impl Graph {
    pub open spec fn wf(&self) -> bool {
        graph_wf(self.nodes@, self.edges@, self.cond_edges@, Option::Some(self.start@))
    }

    /// The kind bound to a node id, if the node exists.
    pub fn find_kind(&self, id: &str) -> (r: Option<TaskKind>)
        ensures
            r is Some <==> has_node(self.nodes@, id@),
            r is Some ==> exists|i: int|
                0 <= i < self.nodes@.len() && (#[trigger] self.nodes@[i]).id@ == id@
                    && self.nodes@[i].kind == r->0,
    {
        let mut i: usize = 0;
        while i < self.nodes.len()
            invariant
                i <= self.nodes@.len(),
                forall|j: int| 0 <= j < i ==> (#[trigger] self.nodes@[j]).id@ != id@,
            decreases self.nodes@.len() - i,
        {
            if str_eq(self.nodes[i].id.as_str(), id) {
                return Option::Some(self.nodes[i].kind);
            }
            i = i + 1;
        }
        Option::None
    }
}

/// The first conditional edge leaving `from`, if any.
pub open spec fn first_cond_from(cond: Seq<CondEdge>, from: Seq<char>, n: nat) -> Option<CondEdge>
    decreases n,
{
    if n == 0 {
        Option::None
    } else {
        match first_cond_from(cond, from, (n - 1) as nat) {
            Option::Some(e) => Option::Some(e),
            Option::None => if cond[n - 1].from@ == from {
                Option::Some(cond[n - 1])
            } else {
                Option::None
            },
        }
    }
}

/// The first unconditional edge leaving `from`, if any.
pub open spec fn first_edge_from(edges: Seq<Edge>, from: Seq<char>, n: nat) -> Option<Edge>
    decreases n,
{
    if n == 0 {
        Option::None
    } else {
        match first_edge_from(edges, from, (n - 1) as nat) {
            Option::Some(e) => Option::Some(e),
            Option::None => if edges[n - 1].from@ == from {
                Option::Some(edges[n - 1])
            } else {
                Option::None
            },
        }
    }
}

/// The successor the edges select for the current task, conditional edges
/// first.
pub open spec fn spec_advance(
    g: &Graph,
    m: Map<Seq<char>, crate::context::CtxValue>,
    cur: Seq<char>,
) -> Option<Seq<char>> {
    match first_cond_from(g.cond_edges@, cur, g.cond_edges@.len()) {
        Option::Some(ce) => if spec_eval_pred(ce.predicate, m) {
            Option::Some(ce.then_to@)
        } else {
            Option::Some(ce.else_to@)
        },
        Option::None => match first_edge_from(g.edges@, cur, g.edges@.len()) {
            Option::Some(e) => Option::Some(e.to@),
            Option::None => Option::None,
        },
    }
}

/// Some edge of the graph leads from `a` to `b` (either branch of a
/// conditional counts).
pub open spec fn edge_allows(g: &Graph, a: Seq<char>, b: Seq<char>) -> bool {
    ||| exists|i: int|
        0 <= i < g.edges@.len() && (#[trigger] g.edges@[i]).from@ == a && g.edges@[i].to@ == b
    ||| exists|i: int|
        0 <= i < g.cond_edges@.len() && (#[trigger] g.cond_edges@[i]).from@ == a && (
        g.cond_edges@[i].then_to@ == b || g.cond_edges@[i].else_to@ == b)
}

proof fn lemma_first_cond_member(cond: Seq<CondEdge>, from: Seq<char>, n: nat)
    requires
        n <= cond.len(),
        first_cond_from(cond, from, n) is Some,
    ensures
        exists|i: int|
            0 <= i < n && cond[i] == first_cond_from(cond, from, n)->0 && (
            #[trigger] cond[i]).from@ == from,
    decreases n,
{
    if n > 0 {
        if first_cond_from(cond, from, (n - 1) as nat) is Some {
            lemma_first_cond_member(cond, from, (n - 1) as nat);
        } else {
            assert(cond[n - 1].from@ == from);
        }
    }
}

proof fn lemma_first_edge_member(edges: Seq<Edge>, from: Seq<char>, n: nat)
    requires
        n <= edges.len(),
        first_edge_from(edges, from, n) is Some,
    ensures
        exists|i: int|
            0 <= i < n && edges[i] == first_edge_from(edges, from, n)->0 && (
            #[trigger] edges[i]).from@ == from,
    decreases n,
{
    if n > 0 {
        if first_edge_from(edges, from, (n - 1) as nat) is Some {
            lemma_first_edge_member(edges, from, (n - 1) as nat);
        } else {
            assert(edges[n - 1].from@ == from);
        }
    }
}

/// Whatever `spec_advance` selects is reachable over an edge of the graph:
/// execution can only follow declared edges.
pub proof fn lemma_advance_allowed(
    g: &Graph,
    m: Map<Seq<char>, crate::context::CtxValue>,
    cur: Seq<char>,
)
    requires
        spec_advance(g, m, cur) is Some,
    ensures
        edge_allows(g, cur, spec_advance(g, m, cur)->0),
{
    match first_cond_from(g.cond_edges@, cur, g.cond_edges@.len()) {
        Option::Some(ce) => {
            lemma_first_cond_member(g.cond_edges@, cur, g.cond_edges@.len());
        },
        Option::None => {
            lemma_first_edge_member(g.edges@, cur, g.edges@.len());
        },
    }
}

impl Graph {
    /// Evaluate the outgoing edges of `cur` against the context.
    pub fn advance(&self, ctx: &Context, cur: &str) -> (r: Option<String>)
        ensures
            r is Some <==> spec_advance(self, ctx@, cur@) is Some,
            r is Some ==> r->0@ == spec_advance(self, ctx@, cur@)->0,
    {
        let mut i: usize = 0;
        while i < self.cond_edges.len()
            invariant
                i <= self.cond_edges@.len(),
                first_cond_from(self.cond_edges@, cur@, i as nat) is None,
            decreases self.cond_edges@.len() - i,
        {
            if str_eq(self.cond_edges[i].from.as_str(), cur) {
                let ce = &self.cond_edges[i];
                let take_then = match &ce.predicate {
                    Predicate::BoolKeyIsTrue(key) => {
                        match ctx.get_bool(key.as_str()) {
                            Option::Some(b) => b,
                            Option::None => false,
                        }
                    },
                };
                proof {
                    assert(first_cond_from(self.cond_edges@, cur@, (i + 1) as nat)
                        == Option::Some(self.cond_edges@[i as int]));
                    crate::engine::lemma_first_cond_extends(
                        self.cond_edges@,
                        cur@,
                        (i + 1) as nat,
                        self.cond_edges@.len() as nat,
                    );
                }
                if take_then {
                    return Option::Some(ce.then_to.clone());
                } else {
                    return Option::Some(ce.else_to.clone());
                }
            }
            i = i + 1;
        }
        let mut k: usize = 0;
        while k < self.edges.len()
            invariant
                k <= self.edges@.len(),
                first_cond_from(self.cond_edges@, cur@, self.cond_edges@.len()) is None,
                first_edge_from(self.edges@, cur@, k as nat) is None,
            decreases self.edges@.len() - k,
        {
            if str_eq(self.edges[k].from.as_str(), cur) {
                proof {
                    assert(first_edge_from(self.edges@, cur@, (k + 1) as nat) == Option::Some(
                        self.edges@[k as int],
                    ));
                    crate::engine::lemma_first_edge_extends(
                        self.edges@,
                        cur@,
                        (k + 1) as nat,
                        self.edges@.len() as nat,
                    );
                }
                return Option::Some(self.edges[k].to.clone());
            }
            k = k + 1;
        }
        Option::None
    }
}

/// Once found at prefix `n`, the first conditional edge stays the same for
/// any longer prefix.
pub proof fn lemma_first_cond_extends(cond: Seq<CondEdge>, from: Seq<char>, n: nat, m: nat)
    requires
        n <= m <= cond.len(),
        first_cond_from(cond, from, n) is Some,
    ensures
        first_cond_from(cond, from, m) == first_cond_from(cond, from, n),
    decreases m,
{
    if m > n {
        lemma_first_cond_extends(cond, from, n, (m - 1) as nat);
    }
}

pub proof fn lemma_first_edge_extends(edges: Seq<Edge>, from: Seq<char>, n: nat, m: nat)
    requires
        n <= m <= edges.len(),
        first_edge_from(edges, from, n) is Some,
    ensures
        first_edge_from(edges, from, m) == first_edge_from(edges, from, n),
    decreases m,
{
    if m > n {
        lemma_first_edge_extends(edges, from, n, (m - 1) as nat);
    }
}

/// Builds a graph, validating it on `build`.
#[derive(Debug)]
pub struct GraphBuilder {
    pub nodes: Vec<GraphNode>,
    pub edges: Vec<Edge>,
    pub cond_edges: Vec<CondEdge>,
    pub start: Option<String>,
}

impl GraphBuilder {
    pub fn new() -> (b: Self)
        ensures
            b.nodes@.len() == 0,
            b.edges@.len() == 0,
            b.cond_edges@.len() == 0,
            b.start is None,
    {
        GraphBuilder { nodes: Vec::new(), edges: Vec::new(), cond_edges: Vec::new(), start: Option::None }
    }

    pub fn add_task(&mut self, id: String, kind: TaskKind)
        ensures
            final(self).nodes@.len() == old(self).nodes@.len() + 1,
            final(self).nodes@.last().id@ == id@,
            final(self).nodes@.last().kind == kind,
            final(self).nodes@.subrange(0, old(self).nodes@.len() as int) == old(self).nodes@,
            final(self).edges@ == old(self).edges@,
            final(self).cond_edges@ == old(self).cond_edges@,
            final(self).start == old(self).start,
    {
        self.nodes.push(GraphNode { id, kind });
        proof {
            assert(self.nodes@.subrange(0, self.nodes@.len() - 1) =~= old(self).nodes@);
        }
    }

    pub fn add_edge(&mut self, from: String, to: String)
        ensures
            final(self).edges@.len() == old(self).edges@.len() + 1,
            final(self).edges@.last().from@ == from@,
            final(self).edges@.last().to@ == to@,
            final(self).edges@.subrange(0, old(self).edges@.len() as int) == old(self).edges@,
            final(self).nodes@ == old(self).nodes@,
            final(self).cond_edges@ == old(self).cond_edges@,
            final(self).start == old(self).start,
    {
        self.edges.push(Edge { from, to });
        proof {
            assert(self.edges@.subrange(0, self.edges@.len() - 1) =~= old(self).edges@);
        }
    }

    pub fn add_conditional_edge(
        &mut self,
        from: String,
        predicate: Predicate,
        then_to: String,
        else_to: String,
    )
        ensures
            final(self).cond_edges@.len() == old(self).cond_edges@.len() + 1,
            final(self).cond_edges@.last().from@ == from@,
            pred_like(final(self).cond_edges@.last().predicate, predicate),
            final(self).cond_edges@.last().then_to@ == then_to@,
            final(self).cond_edges@.last().else_to@ == else_to@,
            final(self).cond_edges@.subrange(0, old(self).cond_edges@.len() as int) == old(
                self,
            ).cond_edges@,
            final(self).nodes@ == old(self).nodes@,
            final(self).edges@ == old(self).edges@,
            final(self).start == old(self).start,
    {
        self.cond_edges.push(CondEdge { from, predicate, then_to, else_to });
        proof {
            assert(self.cond_edges@.subrange(0, self.cond_edges@.len() - 1) =~= old(
                self,
            ).cond_edges@);
        }
    }

    pub fn set_start_task(&mut self, id: String)
        ensures
            final(self).start is Some && final(self).start->0@ == id@,
            final(self).nodes@ == old(self).nodes@,
            final(self).edges@ == old(self).edges@,
            final(self).cond_edges@ == old(self).cond_edges@,
    {
        self.start = Option::Some(id);
    }

    fn has_node_exec(&self, id: &str) -> (r: bool)
        ensures
            r == has_node(self.nodes@, id@),
    {
        let mut i: usize = 0;
        while i < self.nodes.len()
            invariant
                i <= self.nodes@.len(),
                forall|j: int| 0 <= j < i ==> (#[trigger] self.nodes@[j]).id@ != id@,
            decreases self.nodes@.len() - i,
        {
            if str_eq(self.nodes[i].id.as_str(), id) {
                return true;
            }
            i = i + 1;
        }
        false
    }

    /// Validate and build: rejects a missing start task, duplicate node
    /// ids, and edges whose endpoints are not nodes — exactly the
    /// well-formedness condition.
    pub fn build(self) -> (r: Result<Graph, DeepResearchError>)
        ensures
            r is Ok <==> graph_wf(
                self.nodes@,
                self.edges@,
                self.cond_edges@,
                match self.start {
                    Option::Some(s) => Option::Some(s@),
                    Option::None => Option::None,
                },
            ),
            r is Ok ==> {
                &&& r->Ok_0.nodes@ == self.nodes@
                &&& r->Ok_0.edges@ == self.edges@
                &&& r->Ok_0.cond_edges@ == self.cond_edges@
                &&& r->Ok_0.start@ == self.start->0@
                &&& r->Ok_0.wf()
            },
    {
        let start = match &self.start {
            Option::Some(s) => s.clone(),
            Option::None => {
                return Result::Err(
                    DeepResearchError::PlanningError("graph has no start task".to_owned()),
                );
            },
        };
        if !self.has_node_exec(start.as_str()) {
            return Result::Err(
                DeepResearchError::PlanningError("start task is not a node".to_owned()),
            );
        }
        let mut i: usize = 0;
        while i < self.nodes.len()
            invariant
                i <= self.nodes@.len(),
                forall|a: int, b: int|
                    0 <= a < b < self.nodes@.len() && a < i ==> (#[trigger] self.nodes@[a]).id@
                        != (#[trigger] self.nodes@[b]).id@,
            decreases self.nodes@.len() - i,
        {
            let mut j: usize = i + 1;
            while j < self.nodes.len()
                invariant
                    i < j || j == i + 1,
                    i <= j <= self.nodes@.len(),
                    i < self.nodes@.len(),
                    forall|b: int|
                        i < b < j ==> (#[trigger] self.nodes@[b]).id@ != self.nodes@[i as int].id@,
                decreases self.nodes@.len() - j,
            {
                if str_eq(self.nodes[i].id.as_str(), self.nodes[j].id.as_str()) {
                    return Result::Err(
                        DeepResearchError::PlanningError("duplicate task id".to_owned()),
                    );
                }
                j = j + 1;
            }
            i = i + 1;
        }
        let mut k: usize = 0;
        while k < self.edges.len()
            invariant
                k <= self.edges@.len(),
                forall|a: int|
                    0 <= a < k ==> has_node(self.nodes@, (#[trigger] self.edges@[a]).from@)
                        && has_node(self.nodes@, self.edges@[a].to@),
            decreases self.edges@.len() - k,
        {
            if !self.has_node_exec(self.edges[k].from.as_str()) || !self.has_node_exec(
                self.edges[k].to.as_str(),
            ) {
                return Result::Err(
                    DeepResearchError::PlanningError("edge endpoint is not a node".to_owned()),
                );
            }
            k = k + 1;
        }
        let mut c: usize = 0;
        while c < self.cond_edges.len()
            invariant
                c <= self.cond_edges@.len(),
                forall|a: int|
                    0 <= a < c ==> has_node(self.nodes@, (#[trigger] self.cond_edges@[a]).from@)
                        && has_node(self.nodes@, self.cond_edges@[a].then_to@) && has_node(
                        self.nodes@,
                        self.cond_edges@[a].else_to@,
                    ),
            decreases self.cond_edges@.len() - c,
        {
            if !self.has_node_exec(self.cond_edges[c].from.as_str()) || !self.has_node_exec(
                self.cond_edges[c].then_to.as_str(),
            ) || !self.has_node_exec(self.cond_edges[c].else_to.as_str()) {
                return Result::Err(
                    DeepResearchError::PlanningError(
                        "conditional edge endpoint is not a node".to_owned(),
                    ),
                );
            }
            c = c + 1;
        }
        Result::Ok(
            Graph {
                nodes: self.nodes,
                edges: self.edges,
                cond_edges: self.cond_edges,
                start,
            },
        )
    }
}

/// Every node id equals its kind's label: true of the default wiring, and
/// what lets the recorded trace mirror the node path.
pub open spec fn standard_ids(g: &Graph) -> bool {
    forall|i: int|
        0 <= i < g.nodes@.len() ==> (#[trigger] g.nodes@[i]).id@ == g.nodes@[i].kind.spec_label()
}


/// The kind of the (unique) node carrying an id.
pub open spec fn node_kind(g: &Graph, id: Seq<char>) -> TaskKind {
    g.nodes@[choose|i: int| 0 <= i < g.nodes@.len() && (#[trigger] g.nodes@[i]).id@ == id].kind
}

/// What one task execution does to the context and the step outcome, by
/// kind: which keys it may touch, what it decides, and whether it ends the
/// workflow.
pub open spec fn task_effect(
    k: TaskKind,
    m0: Map<Seq<char>, crate::context::CtxValue>,
    m1: Map<Seq<char>, crate::context::CtxValue>,
    r: TaskResult,
) -> bool {
    match k {
        TaskKind::Researcher => {
            &&& preserves_except(
                m0,
                m1,
                set!["research.findings"@, "research.sources"@, "trace.collector"@],
            )
            &&& ctx_strings(m1, "research.findings"@) is Some
            &&& ctx_strings(m1, "research.sources"@) is Some
            &&& r.next_action == NextAction::ContinueAndExecute
        },
        TaskKind::Analyst => {
            &&& preserves_except(m0, m1, set!["analysis.output"@, "trace.collector"@])
            &&& m1.contains_key("analysis.output"@) && m1["analysis.output"@] is Analyst
            &&& m1["analysis.output"@]->Analyst_0.summary@ == spec_analyst_summary(
                spec_analyst_findings(m0),
                spec_analyst_sources(m0).len(),
            )
            &&& m1["analysis.output"@]->Analyst_0.sources.deep_view() == spec_analyst_sources(m0)
            &&& r.next_action == NextAction::ContinueAndExecute
        },
        TaskKind::MathTool => {
            &&& preserves_except(m0, m1, math_keys().insert("trace.collector"@))
            &&& r.next_action == NextAction::ContinueAndExecute
        },
        TaskKind::FactCheck => {
            &&& preserves_except(
                m0,
                m1,
                set![
                    "factcheck.confidence"@,
                    "factcheck.verified_sources"@,
                    "factcheck.passed"@,
                    "factcheck.notes"@,
                    "trace.collector"@,
                ],
            )
            &&& r.next_action == NextAction::ContinueAndExecute
        },
        TaskKind::Critic => {
            &&& preserves_except(
                m0,
                m1,
                set!["critique.confident"@, "critique.verdict"@, "trace.collector"@],
            )
            &&& ctx_bool(m1, "critique.confident"@) == Option::Some(spec_critic_confident(m0))
            &&& ctx_str(m1, "critique.verdict"@) == Option::Some(
                spec_verdict(spec_critic_confident(m0)),
            )
            &&& r.next_action == NextAction::ContinueAndExecute
        },
        TaskKind::Finalize => {
            &&& preserves_except(
                m0,
                m1,
                set!["final.summary"@, "final.requires_manual"@, "trace.collector"@],
            )
            &&& ctx_str(m1, "final.summary"@) == Option::Some(spec_final_summary(m0))
            &&& ctx_bool(m1, "final.requires_manual"@) == Option::Some(false)
            &&& r.next_action == NextAction::End
            &&& r.message is Some && r.message->0@ == spec_final_summary(m0)
        },
        TaskKind::ManualReview => {
            &&& preserves_except(
                m0,
                m1,
                set!["final.summary"@, "final.requires_manual"@, "trace.collector"@],
            )
            &&& ctx_str(m1, "final.summary"@) == Option::Some(spec_manual_summary())
            &&& ctx_bool(m1, "final.requires_manual"@) == Option::Some(true)
            &&& r.next_action == NextAction::End
            &&& r.message is Some && r.message->0@ == spec_manual_summary()
        },
    }
}

/// The outside outcome handed back to the step.
#[derive(Debug)]
pub enum StepInput {
    Nothing,
    Retrieved(Result<Vec<RetrievedDocument>, String>),
    SandboxDone(Option<Result<SandboxResult, String>>),
}

/// Execute the task the session currently points at. The caller supplies
/// whatever outside outcome the task needs; a missing outcome degrades the
/// way the task library prescribes (placeholder findings, failed tool run).
/// Fails only when the current id is not a node of the graph.
pub fn execute_current(
    g: &Graph,
    ctx: &mut Context,
    current: &str,
    input: StepInput,
    settings: &FactCheckSettings,
    streak: &mut FailureStreak,
) -> (r: Result<TaskResult, DeepResearchError>)
    requires
        g.wf(),
    ensures
        r is Ok <==> has_node(g.nodes@, current@),
        !(r is Ok) ==> final(ctx)@ == old(ctx)@ && *final(streak) == *old(streak),
        r is Ok ==> exists|i: int|
            0 <= i < g.nodes@.len() && (#[trigger] g.nodes@[i]).id@ == current@ && crate::context::traced_step(
                old(ctx)@,
                final(ctx)@,
                g.nodes@[i].kind.spec_label(),
            ),
        r is Ok ==> ((r->Ok_0.next_action is End) <==> exists|i: int|
            0 <= i < g.nodes@.len() && (#[trigger] g.nodes@[i]).id@ == current@ && (
            g.nodes@[i].kind is Finalize || g.nodes@[i].kind is ManualReview)),
        r is Ok ==> task_effect(node_kind(g, current@), old(ctx)@, final(ctx)@, r->Ok_0),
        r is Ok ==> traced_step(old(ctx)@, final(ctx)@, node_kind(g, current@).spec_label()),
        (r is Ok && node_kind(g, current@) is Researcher) ==> match input {
            StepInput::Retrieved(rr) => {
                &&& ctx_strings(final(ctx)@, "research.findings"@) == Option::Some(
                    researcher_output(old(ctx)@, rr).0,
                )
                &&& ctx_strings(final(ctx)@, "research.sources"@) == Option::Some(
                    researcher_output(old(ctx)@, rr).1,
                )
            },
            _ => ctx_strings(final(ctx)@, "research.sources"@) is Some,
        },
        (r is Ok && node_kind(g, current@) is FactCheck) ==> ctx_bool(
            final(ctx)@,
            "factcheck.passed"@,
        ) == Option::Some(
            spec_fact_passed(
                spec_analysis_sources(old(ctx)@).len(),
                crate::tasks::spec_verified_count(
                    spec_analysis_sources(old(ctx)@).len(),
                    settings.verification_count as nat,
                ),
                settings.min_confidence_hundredths as nat,
            ),
        ),
{
    let kind = match g.find_kind(current) {
        Option::Some(k) => {
            proof {
                let i = choose|i: int|
                    0 <= i < g.nodes@.len() && (#[trigger] g.nodes@[i]).id@ == current@;
                assert(g.nodes@[i].kind == k);
            }
            k
        },
        Option::None => {
            let mut m: String = "task '".to_owned();
            m.append(current);
            m.append("' is not part of the graph");
            return Result::Err(DeepResearchError::OrchestrationError(m));
        },
    };
    let result = match kind {
        TaskKind::Researcher => {
            let retrieval = match input {
                StepInput::Retrieved(r) => r,
                _ => Result::Err("retrieval outcome missing".to_owned()),
            };
            run_researcher(ctx, retrieval)
        },
        TaskKind::Analyst => run_analyst(ctx),
        TaskKind::MathTool => {
            let outcome = match input {
                StepInput::SandboxDone(o) => o,
                _ => Option::None,
            };
            run_math_tool(ctx, outcome, streak)
        },
        TaskKind::FactCheck => run_fact_check(ctx, settings),
        TaskKind::Critic => run_critic(ctx),
        TaskKind::Finalize => run_finalize(ctx),
        TaskKind::ManualReview => run_manual_review(ctx),
    };
    Result::Ok(result)
}

} // verus!
