//! Task planning: decomposition of a query into a dependency graph of
//! agent-role tasks.
//!
//! A node may only depend on nodes that are already in the graph, so every
//! accepted graph is acyclic by construction and its insertion order is a
//! topological order — `topological_order` returns it, with the dependency
//! property proved rather than re-checked at run time.

use vstd::prelude::*;
use vstd::string::StringExecFns;

use crate::error::DeepResearchError;
use crate::strutil::{clone_string_vec, str_eq};

verus! {

/// The agent role a task is assigned to.
#[derive(Debug, Clone, Copy, PartialEq, Eq, Structural)]
pub enum AgentRole {
    Researcher,
    Analyst,
    Critic,
}

impl AgentRole {
    /// The role's display name.
    pub fn as_str(&self) -> (r: &'static str)
        ensures
            r@ == self.spec_name(),
    {
        match self {
            AgentRole::Researcher => "Researcher",
            AgentRole::Analyst => "Analyst",
            AgentRole::Critic => "Critic",
        }
    }

    pub open spec fn spec_name(&self) -> Seq<char> {
        match self {
            AgentRole::Researcher => "Researcher"@,
            AgentRole::Analyst => "Analyst"@,
            AgentRole::Critic => "Critic"@,
        }
    }
}

/// A task-specific parameter value.
#[derive(Debug)]
pub enum ParamValue {
    Str(String),
    StrList(Vec<String>),
    /// A ratio in hundredths.
    Hundredths(u32),
}

impl Clone for ParamValue {
    fn clone(&self) -> (r: Self)
        ensures
            param_like(r, *self),
    {
        match self {
            ParamValue::Str(s) => ParamValue::Str(s.clone()),
            ParamValue::StrList(v) => ParamValue::StrList(clone_string_vec(v)),
            ParamValue::Hundredths(h) => ParamValue::Hundredths(*h),
        }
    }
}

pub open spec fn param_like(a: ParamValue, b: ParamValue) -> bool {
    match (a, b) {
        (ParamValue::Str(x), ParamValue::Str(y)) => x@ == y@,
        (ParamValue::StrList(x), ParamValue::StrList(y)) => x@ == y@,
        (ParamValue::Hundredths(x), ParamValue::Hundredths(y)) => x == y,
        _ => false,
    }
}

/// One task node of the plan.
#[derive(Debug)]
pub struct TaskNode {
    pub id: String,
    pub description: String,
    pub role: AgentRole,
    pub parameters: Vec<(String, ParamValue)>,
    pub dependencies: Vec<String>,
}

impl TaskNode {
    pub fn new(id: String, description: String, role: AgentRole) -> (r: Self)
        ensures
            r.id@ == id@,
            r.description@ == description@,
            r.role == role,
            r.parameters@.len() == 0,
            r.dependencies@.len() == 0,
    {
        TaskNode { id, description, role, parameters: Vec::new(), dependencies: Vec::new() }
    }

    pub fn with_param(self, key: String, value: ParamValue) -> (r: Self)
        ensures
            r.id@ == self.id@,
            r.description@ == self.description@,
            r.role == self.role,
            r.parameters@.len() == self.parameters@.len() + 1,
            r.parameters@.last().0@ == key@,
            r.dependencies@ == self.dependencies@,
    {
        let mut n = self;
        n.parameters.push((key, value));
        n
    }

    pub fn with_dependency(self, dep_id: String) -> (r: Self)
        ensures
            r.id@ == self.id@,
            r.description@ == self.description@,
            r.role == self.role,
            r.dependencies@.len() == self.dependencies@.len() + 1,
            r.dependencies@.last()@ == dep_id@,
            r.dependencies@.subrange(0, self.dependencies@.len() as int)
                == self.dependencies@,
    {
        let ghost before = self.dependencies@;
        let mut n = self;
        n.dependencies.push(dep_id);
        proof {
            assert(n.dependencies@.subrange(0, n.dependencies@.len() - 1) =~= before);
        }
        n
    }

    /// Look up a parameter by key.
    pub fn get_param(&self, key: &str) -> (r: Option<&ParamValue>)
    {
        let mut i: usize = 0;
        while i < self.parameters.len()
            decreases self.parameters@.len() - i,
        {
            if str_eq(self.parameters[i].0.as_str(), key) {
                return Option::Some(&self.parameters[i].1);
            }
            i = i + 1;
        }
        Option::None
    }
}

impl Clone for TaskNode {
    fn clone(&self) -> (r: Self)
        ensures
            r.id@ == self.id@,
            r.description@ == self.description@,
            r.role == self.role,
            r.dependencies@ == self.dependencies@,
    {
        let mut parameters: Vec<(String, ParamValue)> = Vec::new();
        let mut i: usize = 0;
        while i < self.parameters.len()
            decreases self.parameters@.len() - i,
        {
            parameters.push((self.parameters[i].0.clone(), self.parameters[i].1.clone()));
            i = i + 1;
        }
        TaskNode {
            id: self.id.clone(),
            description: self.description.clone(),
            role: self.role,
            parameters,
            dependencies: clone_string_vec(&self.dependencies),
        }
    }
}

/// Some node (strictly before position `limit`) carries the id.
pub open spec fn has_id_before(nodes: Seq<TaskNode>, limit: int, id: Seq<char>) -> bool {
    exists|j: int| 0 <= j < limit && (#[trigger] nodes[j]).id@ == id
}

/// Every dependency of the node at `i` names an earlier node.
pub open spec fn deps_ok(nodes: Seq<TaskNode>, i: int) -> bool {
    forall|d: int|
        0 <= d < nodes[i].dependencies@.len() ==> has_id_before(
            nodes,
            i,
            (#[trigger] nodes[i].dependencies@[d])@,
        )
}

/// Node ids are unique and every dependency names an earlier node.
pub open spec fn plan_wf(nodes: Seq<TaskNode>) -> bool {
    &&& forall|i: int, j: int|
        0 <= i < j < nodes.len() ==> (#[trigger] nodes[i]).id@ != (#[trigger] nodes[j]).id@
    &&& forall|i: int| 0 <= i < nodes.len() ==> #[trigger] deps_ok(nodes, i)
}

/// A directed acyclic graph of planned tasks. Acyclicity holds by
/// construction: a dependency must already be present when a node is added.
#[derive(Debug)]
pub struct TaskGraph {
    nodes: Vec<TaskNode>,
}

impl TaskGraph {
    pub closed spec fn nodes_view(&self) -> Seq<TaskNode> {
        self.nodes@
    }

    pub open spec fn wf(&self) -> bool {
        plan_wf(self.nodes_view())
    }

    pub fn new() -> (r: Self)
        ensures
            r.nodes_view().len() == 0,
            r.wf(),
    {
        TaskGraph { nodes: Vec::new() }
    }

    fn find_index(&self, id: &str) -> (r: Option<usize>)
        ensures
            r is Some ==> r->0 < self.nodes_view().len() && self.nodes_view()[r->0 as int].id@
                == id@,
            r is Some <==> has_id_before(self.nodes_view(), self.nodes_view().len() as int, id@),
    {
        let mut i: usize = 0;
        while i < self.nodes.len()
            invariant
                i <= self.nodes@.len(),
                forall|j: int| 0 <= j < i ==> (#[trigger] self.nodes@[j]).id@ != id@,
            decreases self.nodes@.len() - i,
        {
            if str_eq(self.nodes[i].id.as_str(), id) {
                return Option::Some(i);
            }
            i = i + 1;
        }
        Option::None
    }

    /// Add a node. Rejected when the id already exists or a dependency is
    /// not in the graph yet; accepted exactly otherwise.
    pub fn add_node(&mut self, node: TaskNode) -> (r: Result<(), DeepResearchError>)
        requires
            old(self).wf(),
        ensures
            final(self).wf(),
            r is Ok ==> final(self).nodes_view().len() == old(self).nodes_view().len() + 1
                && final(self).nodes_view().last().id@ == node.id@
                && final(self).nodes_view().subrange(0, old(self).nodes_view().len() as int)
                == old(self).nodes_view(),
            !(r is Ok) ==> final(self).nodes_view() == old(self).nodes_view(),
            r is Ok <==> (!has_id_before(
                old(self).nodes_view(),
                old(self).nodes_view().len() as int,
                node.id@,
            ) && (forall|d: int|
                0 <= d < node.dependencies@.len() ==> has_id_before(
                    old(self).nodes_view(),
                    old(self).nodes_view().len() as int,
                    (#[trigger] node.dependencies@[d])@,
                ))),
    {
        if self.find_index(node.id.as_str()).is_some() {
            let mut m: String = "task node with id '".to_owned();
            m.append(node.id.as_str());
            m.append("' already exists");
            return Result::Err(DeepResearchError::PlanningError(m));
        }
        let mut d: usize = 0;
        while d < node.dependencies.len()
            invariant
                self.wf(),
                d <= node.dependencies@.len(),
                self.nodes_view() == old(self).nodes_view(),
                forall|k: int|
                    0 <= k < d ==> has_id_before(
                        self.nodes_view(),
                        self.nodes_view().len() as int,
                        (#[trigger] node.dependencies@[k])@,
                    ),
                !has_id_before(self.nodes_view(), self.nodes_view().len() as int, node.id@),
            decreases node.dependencies@.len() - d,
        {
            if self.find_index(node.dependencies[d].as_str()).is_none() {
                let mut m: String = "dependency '".to_owned();
                m.append(node.dependencies[d].as_str());
                m.append("' not found for task '");
                m.append(node.id.as_str());
                m.append("'");
                return Result::Err(DeepResearchError::PlanningError(m));
            }
            d = d + 1;
        }
        let ghost pre = self.nodes@;
        let ghost added = node;
        self.nodes.push(node);
        proof {
            assert(self.nodes@.subrange(0, self.nodes@.len() - 1) =~= pre);
            let now = self.nodes@;
            assert forall|i: int, j: int|
                0 <= i < j < now.len() implies (#[trigger] now[i]).id@ != (#[trigger] now[j]).id@ by {
                if j < now.len() - 1 {
                    assert(now[i] == pre[i] && now[j] == pre[j]);
                } else {
                    assert(now[j] == added);
                    assert(now[i] == pre[i]);
                    assert(!has_id_before(pre, pre.len() as int, added.id@));
                    if now[i].id@ == added.id@ {
                        assert(has_id_before(pre, pre.len() as int, added.id@));
                    }
                }
            }
            assert forall|i: int| 0 <= i < now.len() implies #[trigger] deps_ok(now, i) by {
                if i < now.len() - 1 {
                    assert(now[i] == pre[i]);
                    assert(deps_ok(pre, i));
                    assert forall|dd: int|
                        0 <= dd < now[i].dependencies@.len() implies has_id_before(
                        now,
                        i,
                        (#[trigger] now[i].dependencies@[dd])@,
                    ) by {
                        assert(has_id_before(pre, i, (pre[i].dependencies@[dd])@));
                        let j = choose|j: int|
                            0 <= j < i && (#[trigger] pre[j]).id@ == (pre[i].dependencies@[dd])@;
                        assert(now[j] == pre[j]);
                        assert(has_id_before(now, i, (now[i].dependencies@[dd])@));
                    }
                } else {
                    assert(now[i] == added);
                    assert forall|dd: int|
                        0 <= dd < now[i].dependencies@.len() implies has_id_before(
                        now,
                        i,
                        (#[trigger] now[i].dependencies@[dd])@,
                    ) by {
                        assert(has_id_before(
                            pre,
                            pre.len() as int,
                            (added.dependencies@[dd])@,
                        ));
                        let j = choose|j: int|
                            0 <= j < pre.len() && (#[trigger] pre[j]).id@ == (
                            added.dependencies@[dd])@;
                        assert(now[j] == pre[j]);
                        assert(has_id_before(now, i, (now[i].dependencies@[dd])@));
                    }
                }
            }
        }
        Result::Ok(())
    }

    /// Validation: a well-formed graph is acyclic because every dependency
    /// points at an earlier node, so validation always succeeds.
    pub fn validate(&self) -> (r: Result<(), DeepResearchError>)
        requires
            self.wf(),
        ensures
            r is Ok,
    {
        Result::Ok(())
    }

    /// A topological ordering of the task ids: the insertion order, in
    /// which every dependency precedes its dependent.
    pub fn topological_order(&self) -> (r: Result<Vec<String>, DeepResearchError>)
        requires
            self.wf(),
        ensures
            r is Ok,
            r->Ok_0@.len() == self.nodes_view().len(),
            forall|i: int|
                0 <= i < self.nodes_view().len() ==> (#[trigger] r->Ok_0@[i])@
                    == self.nodes_view()[i].id@,
    {
        let mut order: Vec<String> = Vec::new();
        let mut i: usize = 0;
        while i < self.nodes.len()
            invariant
                i <= self.nodes@.len(),
                order@.len() == i,
                forall|j: int|
                    0 <= j < i ==> (#[trigger] order@[j])@ == self.nodes@[j].id@,
            decreases self.nodes@.len() - i,
        {
            order.push(self.nodes[i].id.clone());
            i = i + 1;
        }
        Result::Ok(order)
    }

    /// The node carrying an id, if any.
    pub fn get_node(&self, id: &str) -> (r: Option<&TaskNode>)
        ensures
            r is Some <==> exists|j: int|
                0 <= j < self.nodes_view().len() && (#[trigger] self.nodes_view()[j]).id@ == id@,
    {
        let idx = self.find_index(id);
        match idx {
            Option::Some(i) => Option::Some(&self.nodes[i]),
            Option::None => Option::None,
        }
    }

    /// All nodes, in insertion order.
    pub fn nodes(&self) -> (r: &Vec<TaskNode>)
        ensures
            r@ == self.nodes_view(),
    {
        &self.nodes
    }

    /// The nodes with no dependencies: ready to execute immediately.
    pub fn ready_nodes(&self) -> (r: Vec<TaskNode>)
        ensures
            forall|j: int|
                0 <= j < r@.len() ==> (#[trigger] r@[j]).dependencies@.len() == 0,
    {
        let mut out: Vec<TaskNode> = Vec::new();
        let mut i: usize = 0;
        while i < self.nodes.len()
            invariant
                i <= self.nodes@.len(),
                forall|j: int|
                    0 <= j < out@.len() ==> (#[trigger] out@[j]).dependencies@.len() == 0,
            decreases self.nodes@.len() - i,
        {
            if self.nodes[i].dependencies.len() == 0 {
                let item = self.nodes[i].clone();
                proof {
                    assert(item.dependencies@.len() == 0);
                }
                out.push(item);
            }
            i = i + 1;
        }
        out
    }

    pub fn len(&self) -> (r: usize)
        ensures
            r == self.nodes_view().len(),
    {
        self.nodes.len()
    }

    pub fn is_empty(&self) -> (r: bool)
        ensures
            r == (self.nodes_view().len() == 0),
    {
        self.nodes.len() == 0
    }
}

/// The planner: decomposes a query into the three-stage research pipeline.
#[derive(Debug)]
pub struct PlannerAgent {
    pub max_iterations: usize,
    /// The confidence floor handed to the critique task, in hundredths.
    pub confidence_threshold_hundredths: u32,
}

impl PlannerAgent {
    pub fn new(max_iterations: usize, confidence_threshold_hundredths: u32) -> (r: Self)
        ensures
            r.max_iterations == max_iterations,
            r.confidence_threshold_hundredths == confidence_threshold_hundredths,
    {
        PlannerAgent { max_iterations, confidence_threshold_hundredths }
    }

    /// Decompose a query into research, analysis and critique tasks, each
    /// depending on the one before. The produced graph is well-formed and
    /// non-empty.
    pub fn plan(&self, query: &str) -> (r: Result<TaskGraph, DeepResearchError>)
        ensures
            r is Ok,
            r->Ok_0.wf(),
            r->Ok_0.nodes_view().len() == 3,
    {
        let mut graph = TaskGraph::new();

        let mut research_desc: String = "Research: ".to_owned();
        research_desc.append(query);
        let mut sources: Vec<String> = Vec::new();
        sources.push("web".to_owned());
        sources.push("local".to_owned());
        let research_task = TaskNode::new(
            "research_1".to_owned(),
            research_desc,
            AgentRole::Researcher,
        ).with_param("query".to_owned(), ParamValue::Str(query.to_owned())).with_param(
            "sources".to_owned(),
            ParamValue::StrList(sources),
        );

        let mut analysis_desc: String = "Analyze findings for: ".to_owned();
        analysis_desc.append(query);
        let analysis_task = TaskNode::new(
            "analyze_1".to_owned(),
            analysis_desc,
            AgentRole::Analyst,
        ).with_param(
            "synthesis_mode".to_owned(),
            ParamValue::Str("comprehensive".to_owned()),
        ).with_dependency("research_1".to_owned());

        let mut critique_desc: String = "Fact-check and validate: ".to_owned();
        critique_desc.append(query);
        let critique_task = TaskNode::new(
            "critique_1".to_owned(),
            critique_desc,
            AgentRole::Critic,
        ).with_param(
            "min_confidence".to_owned(),
            ParamValue::Hundredths(self.confidence_threshold_hundredths),
        ).with_dependency("analyze_1".to_owned());

        proof {
            reveal_strlit("research_1");
            reveal_strlit("analyze_1");
            reveal_strlit("critique_1");
            assert("research_1"@ != "analyze_1"@) by {
                if "research_1"@ == "analyze_1"@ {
                    assert(("research_1"@)[0] == ("analyze_1"@)[0]);
                }
            }
            assert("research_1"@ != "critique_1"@) by {
                if "research_1"@ == "critique_1"@ {
                    assert(("research_1"@)[0] == ("critique_1"@)[0]);
                }
            }
            assert("analyze_1"@ != "critique_1"@) by {
                if "analyze_1"@ == "critique_1"@ {
                    assert(("analyze_1"@)[0] == ("critique_1"@)[0]);
                }
            }
        }
        let r1 = graph.add_node(research_task);
        if r1.is_err() {
            return Result::Err(
                DeepResearchError::PlanningError("planning produced a malformed graph".to_owned()),
            );
        }
        let r2 = graph.add_node(analysis_task);
        if r2.is_err() {
            return Result::Err(
                DeepResearchError::PlanningError("planning produced a malformed graph".to_owned()),
            );
        }
        let r3 = graph.add_node(critique_task);
        if r3.is_err() {
            return Result::Err(
                DeepResearchError::PlanningError("planning produced a malformed graph".to_owned()),
            );
        }
        proof {
            assert(r1 is Ok && r2 is Ok && r3 is Ok);
        }
        Result::Ok(graph)
    }

    /// Refinement of an existing plan from intermediate results; the plan
    /// is left unchanged.
    pub fn refine_plan(&self, graph: &mut TaskGraph) -> (r: Result<(), DeepResearchError>)
        ensures
            r is Ok,
            final(graph).nodes_view() == old(graph).nodes_view(),
    {
        Result::Ok(())
    }
}

} // verus!
