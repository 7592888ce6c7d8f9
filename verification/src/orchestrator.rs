//! Orchestration of planned task graphs: execution in dependency order
//! with lifecycle events, plus the retry policy its driver applies.
//!
//! Planned tasks have no engine behavior of their own yet, so a run
//! records a uniform successful outcome per task; the retry and backoff
//! decisions are exact and ready for a driver that sleeps between
//! attempts.

use vstd::prelude::*;
use vstd::string::StringExecFns;

use crate::error::DeepResearchError;
use crate::events::{EventCollector, TaskOutcome};
use crate::planner::TaskGraph;

verus! {

/// Driver limits for graph execution.
#[derive(Debug, Clone, Copy, PartialEq, Eq, Structural)]
pub struct OrchestratorConfig {
    pub max_concurrent_tasks: usize,
    pub max_retries: usize,
    pub initial_backoff_ms: u64,
    pub max_backoff_ms: u64,
}

impl Default for OrchestratorConfig {
    fn default() -> (r: Self)
        ensures
            r.max_concurrent_tasks == 5,
            r.max_retries == 2,
            r.initial_backoff_ms == 1000,
            r.max_backoff_ms == 30000,
    {
        OrchestratorConfig {
            max_concurrent_tasks: 5,
            max_retries: 2,
            initial_backoff_ms: 1000,
            max_backoff_ms: 30000,
        }
    }
}

/// A failed attempt is retried exactly when attempts remain and the
/// failure is retryable.
pub fn retry_decision(attempt: usize, max_retries: usize, retryable: bool) -> (r: bool)
    ensures
        r == (attempt < max_retries && retryable),
{
    attempt < max_retries && retryable
}

/// Exponential backoff, capped: the next delay doubles up to the bound.
pub fn next_backoff(backoff_ms: u64, max_backoff_ms: u64) -> (r: u64)
    ensures
        r as int == if 2 * backoff_ms <= max_backoff_ms {
            2 * backoff_ms
        } else {
            max_backoff_ms as int
        },
{
    let doubled: u128 = 2u128 * (backoff_ms as u128);
    if doubled <= (max_backoff_ms as u128) {
        doubled as u64
    } else {
        max_backoff_ms
    }
}

/// The result of one executed task.
#[derive(Debug)]
pub struct TaskRunResult {
    pub task_id: String,
    pub outcome: TaskOutcome,
    pub output: Option<String>,
    pub duration_ms: u64,
}

/// The summary of one graph execution.
#[derive(Debug, Clone, Copy, PartialEq, Eq, Structural)]
pub struct ExecutionReport {
    pub total_tasks: usize,
    pub successful_tasks: usize,
    pub failed_tasks: usize,
    pub duration_ms: u64,
}

/// Executes planned graphs in dependency order, emitting start and finish
/// events and keeping per-task results.
#[derive(Debug)]
pub struct RigOrchestrator {
    pub config: OrchestratorConfig,
    pub collector: EventCollector,
    pub results: Vec<TaskRunResult>,
}

impl RigOrchestrator {
    pub fn new(config: OrchestratorConfig, collector: EventCollector) -> (r: Self)
        ensures
            r.config == config,
            r.results@.len() == 0,
    {
        RigOrchestrator { config, collector, results: Vec::new() }
    }

    /// Execute every task of the plan, in the graph's dependency order.
    /// Each planned task records a successful result; the report counts
    /// them all as successes.
    pub fn execute(&mut self, graph: &TaskGraph) -> (r: Result<ExecutionReport, DeepResearchError>)
        requires
            graph.wf(),
        ensures
            r is Ok,
            r->Ok_0.total_tasks == graph.nodes_view().len(),
            r->Ok_0.successful_tasks == graph.nodes_view().len(),
            r->Ok_0.failed_tasks == 0,
            final(self).results@.len() == old(self).results@.len()
                + graph.nodes_view().len(),
    {
        let nodes = graph.nodes();
        let mut i: usize = 0;
        while i < nodes.len()
            invariant
                nodes@ == graph.nodes_view(),
                i <= nodes@.len(),
                self.results@.len() == old(self).results@.len() + i,
                self.config == old(self).config,
            decreases nodes@.len() - i,
        {
            let node = &nodes[i];
            self.collector.emit_start(node.id.clone(), node.role, node.description.clone());
            let mut output: String = "Executing: ".to_owned();
            output.append(node.description.as_str());
            self.collector.emit_message(node.id.clone(), Option::None, node.role, output);
            self.collector.emit_finish(node.id.clone(), node.role, TaskOutcome::Success, 0);
            self.results.push(
                TaskRunResult {
                    task_id: node.id.clone(),
                    outcome: TaskOutcome::Success,
                    output: Option::Some("Task executed successfully".to_owned()),
                    duration_ms: 0,
                },
            );
            i = i + 1;
        }
        Result::Ok(
            ExecutionReport {
                total_tasks: nodes.len(),
                successful_tasks: nodes.len(),
                failed_tasks: 0,
                duration_ms: 0,
            },
        )
    }

    /// The recorded per-task results, in execution order.
    pub fn get_results(&self) -> (r: &Vec<TaskRunResult>)
        ensures
            r@ == self.results@,
    {
        &self.results
    }
}

} // verus!
