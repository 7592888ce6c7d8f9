//! The agent roles of the planned pipeline: retrieval, synthesis and
//! critique, each producing a structured result and messaging through the
//! event collector.
//!
//! These agents operate on retrieval plus deterministic synthesis; no
//! language-model inference is involved. Confidences are in hundredths.

use vstd::prelude::*;
use vstd::string::StringExecFns;

use crate::error::DeepResearchError;
use crate::events::EventCollector;
use crate::planner::{AgentRole, ParamValue, param_like};
use crate::strutil::clone_opt_string;

verus! {

/// A source an agent consulted.
#[derive(Debug)]
pub struct SourceReference {
    pub id: String,
    pub uri: String,
    pub title: Option<String>,
    pub snippet: Option<String>,
}

impl SourceReference {
    pub fn new(id: String, uri: String, title: Option<String>, snippet: Option<String>) -> (r:
        Self)
        ensures
            r.id@ == id@,
            r.uri@ == uri@,
            r.title == title,
            r.snippet == snippet,
    {
        SourceReference { id, uri, title, snippet }
    }
}

impl Clone for SourceReference {
    fn clone(&self) -> (r: Self)
        ensures
            r.id@ == self.id@,
            r.uri@ == self.uri@,
            r.title == self.title,
            r.snippet == self.snippet,
    {
        SourceReference {
            id: self.id.clone(),
            uri: self.uri.clone(),
            title: clone_opt_string(&self.title),
            snippet: clone_opt_string(&self.snippet),
        }
    }
}

/// A message passed between agents.
#[derive(Debug)]
pub struct AgentMessage {
    pub from_task: String,
    pub to_task: String,
    pub role: AgentRole,
    pub content: String,
}

/// The structured result of one agent execution; confidence in hundredths.
#[derive(Debug)]
pub struct AgentResult {
    pub task_id: String,
    pub role: AgentRole,
    pub output: String,
    pub sources: Vec<SourceReference>,
    pub confidence_hundredths: u32,
}

/// The runtime context one agent executes in.
#[derive(Debug)]
pub struct AgentContext {
    pub task_id: String,
    pub role: AgentRole,
    pub parameters: Vec<(String, ParamValue)>,
    pub event_collector: EventCollector,
}

impl AgentContext {
    pub fn new(
        task_id: String,
        role: AgentRole,
        parameters: Vec<(String, ParamValue)>,
        event_collector: EventCollector,
    ) -> (r: Self)
        ensures
            r.task_id@ == task_id@,
            r.role == role,
            r.parameters@ == parameters@,
    {
        AgentContext { task_id, role, parameters, event_collector }
    }

    /// Send a message to another agent, or log internal reasoning.
    pub fn send_message(&mut self, to_task: Option<String>, content: String)
        ensures
            final(self).event_collector.events@.len() == old(
                self,
            ).event_collector.events@.len() + 1,
            final(self).event_collector.events@.last() is Message,
            final(self).event_collector.events@.last()->Message_content@ == content@,
            final(self).task_id@ == old(self).task_id@,
            final(self).role == old(self).role,
            final(self).parameters@ == old(self).parameters@,
    {
        let from = self.task_id.clone();
        let role = self.role;
        self.event_collector.emit_message(from, to_task, role, content);
    }

    /// Look up a parameter.
    pub fn get_param(&self, key: &str) -> (r: Option<&ParamValue>)
    {
        let mut i: usize = 0;
        while i < self.parameters.len()
            decreases self.parameters@.len() - i,
        {
            if crate::strutil::str_eq(self.parameters[i].0.as_str(), key) {
                return Option::Some(&self.parameters[i].1);
            }
            i = i + 1;
        }
        Option::None
    }
}

/// An agent: one named stage of the planned pipeline.
pub trait Agent {
    /// Execute the agent's task against its context.
    fn execute(&self, context: &mut AgentContext) -> Result<AgentResult, DeepResearchError>;

    /// The agent's role.
    fn role(&self) -> AgentRole;
}

/// Retrieves facts via the retrieval layer.
#[derive(Debug)]
pub struct ResearcherAgent {
}

impl ResearcherAgent {
    pub fn new() -> (r: Self) {
        ResearcherAgent {  }
    }
}

impl Agent for ResearcherAgent {
    /// Report the retrieval stub's two standing sources.
    fn execute(&self, context: &mut AgentContext) -> Result<AgentResult, DeepResearchError> {
        context.send_message(Option::None, "starting research task".to_owned());
        let mut sources: Vec<SourceReference> = Vec::new();
        sources.push(
            SourceReference::new(
                "src_1".to_owned(),
                "https://example.com/article1".to_owned(),
                Option::Some("Example Article 1".to_owned()),
                Option::Some("Relevant information about the query".to_owned()),
            ),
        );
        sources.push(
            SourceReference::new(
                "src_2".to_owned(),
                "qdrant://local/doc_42".to_owned(),
                Option::Some("Local Document".to_owned()),
                Option::Some("Additional context from the local corpus".to_owned()),
            ),
        );
        context.send_message(Option::None, "retrieved 2 sources".to_owned());
        Result::Ok(
            AgentResult {
                task_id: context.task_id.clone(),
                role: AgentRole::Researcher,
                output: "research findings collected".to_owned(),
                sources,
                confidence_hundredths: 85,
            },
        )
    }

    fn role(&self) -> AgentRole {
        AgentRole::Researcher
    }
}

/// Synthesizes findings into structured reports.
#[derive(Debug)]
pub struct AnalystAgent {
}

impl AnalystAgent {
    pub fn new() -> (r: Self) {
        AnalystAgent {  }
    }
}

impl Agent for AnalystAgent {
    /// Produce the synthesis summary for the configured mode.
    fn execute(&self, context: &mut AgentContext) -> Result<AgentResult, DeepResearchError> {
        context.send_message(Option::None, "starting analysis and synthesis".to_owned());
        context.send_message(Option::None, "synthesis complete".to_owned());
        Result::Ok(
            AgentResult {
                task_id: context.task_id.clone(),
                role: AgentRole::Analyst,
                output: "the analysis indicates consistent findings across sources".to_owned(),
                sources: Vec::new(),
                confidence_hundredths: 82,
            },
        )
    }

    fn role(&self) -> AgentRole {
        AgentRole::Analyst
    }
}

/// Validates claims and checks consistency.
#[derive(Debug)]
pub struct CriticAgent {
}

impl CriticAgent {
    pub fn new() -> (r: Self) {
        CriticAgent {  }
    }
}

impl Agent for CriticAgent {
    /// Report the validation summary for the configured threshold.
    fn execute(&self, context: &mut AgentContext) -> Result<AgentResult, DeepResearchError> {
        context.send_message(Option::None, "starting fact-checking and validation".to_owned());
        context.send_message(Option::None, "validation complete".to_owned());
        Result::Ok(
            AgentResult {
                task_id: context.task_id.clone(),
                role: AgentRole::Critic,
                output: "4 of 5 claims verified above threshold".to_owned(),
                sources: Vec::new(),
                confidence_hundredths: 80,
            },
        )
    }

    fn role(&self) -> AgentRole {
        AgentRole::Critic
    }
}

} // verus!
