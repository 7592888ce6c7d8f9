//! Lifecycle events of the plan orchestrator: start, finish and message
//! records, collected in order for trace generation.
//!
//! The collector buffers events in memory; the service may hand the
//! buffer to a channel. Event ids count up from zero within a collector.

use vstd::prelude::*;
use vstd::string::StringExecFns;

use crate::planner::AgentRole;
use crate::strutil::{fmt_u64, spec_digits};

verus! {

/// Why a task finished.
#[derive(Debug)]
pub enum TaskOutcome {
    Success,
    Failure { reason: String, retryable: bool },
    Timeout,
}

impl Clone for TaskOutcome {
    fn clone(&self) -> (r: Self)
        ensures
            outcome_like(r, *self),
    {
        match self {
            TaskOutcome::Success => TaskOutcome::Success,
            TaskOutcome::Failure { reason, retryable } => TaskOutcome::Failure {
                reason: reason.clone(),
                retryable: *retryable,
            },
            TaskOutcome::Timeout => TaskOutcome::Timeout,
        }
    }
}

pub open spec fn outcome_like(a: TaskOutcome, b: TaskOutcome) -> bool {
    match (a, b) {
        (TaskOutcome::Success, TaskOutcome::Success) => true,
        (
            TaskOutcome::Failure { reason: r1, retryable: t1 },
            TaskOutcome::Failure { reason: r2, retryable: t2 },
        ) => r1@ == r2@ && t1 == t2,
        (TaskOutcome::Timeout, TaskOutcome::Timeout) => true,
        _ => false,
    }
}

/// One orchestration event.
#[derive(Debug)]
pub enum Event {
    Start { event_id: String, timestamp: u64, task_id: String, role: AgentRole, description: String },
    Finish {
        event_id: String,
        timestamp: u64,
        task_id: String,
        role: AgentRole,
        outcome: TaskOutcome,
        duration_ms: u64,
    },
    Message {
        event_id: String,
        timestamp: u64,
        from_task: String,
        to_task: Option<String>,
        role: AgentRole,
        content: String,
    },
}

impl Event {
    pub fn event_id(&self) -> (r: &String)
        ensures
            self is Start ==> r@ == self->Start_event_id@,
            self is Finish ==> r@ == self->Finish_event_id@,
            self is Message ==> r@ == self->Message_event_id@,
    {
        match self {
            Event::Start { event_id, .. } => event_id,
            Event::Finish { event_id, .. } => event_id,
            Event::Message { event_id, .. } => event_id,
        }
    }

    pub fn timestamp(&self) -> (r: u64)
        ensures
            self is Start ==> r == self->Start_timestamp,
            self is Finish ==> r == self->Finish_timestamp,
            self is Message ==> r == self->Message_timestamp,
    {
        match self {
            Event::Start { timestamp, .. } => *timestamp,
            Event::Finish { timestamp, .. } => *timestamp,
            Event::Message { timestamp, .. } => *timestamp,
        }
    }

    pub fn task_id(&self) -> (r: &String)
        ensures
            self is Start ==> r@ == self->Start_task_id@,
            self is Finish ==> r@ == self->Finish_task_id@,
            self is Message ==> r@ == self->Message_from_task@,
    {
        match self {
            Event::Start { task_id, .. } => task_id,
            Event::Finish { task_id, .. } => task_id,
            Event::Message { from_task, .. } => from_task,
        }
    }
}

/// The id of the `n`-th event a collector emits.
pub open spec fn spec_event_id(n: nat) -> Seq<char> {
    "evt_"@ + spec_digits(n)
}

/// An in-order buffer of orchestration events with its own id counter.
#[derive(Debug)]
pub struct EventCollector {
    pub events: Vec<Event>,
    pub next_id: u64,
}

impl EventCollector {
    pub fn new() -> (r: Self)
        ensures
            r.events@.len() == 0,
            r.next_id == 0,
    {
        EventCollector { events: Vec::new(), next_id: 0 }
    }

    fn fresh_id(&mut self) -> (r: String)
        ensures
            r@ == spec_event_id(old(self).next_id as nat),
            final(self).next_id as int == if old(self).next_id < u64::MAX {
                old(self).next_id + 1
            } else {
                old(self).next_id as int
            },
            final(self).events@ == old(self).events@,
    {
        let mut id: String = "evt_".to_owned();
        id.append(fmt_u64(self.next_id).as_str());
        if self.next_id < u64::MAX {
            self.next_id = self.next_id + 1;
        }
        id
    }

    /// Record a task start.
    pub fn emit_start(&mut self, task_id: String, role: AgentRole, description: String)
        ensures
            final(self).events@.len() == old(self).events@.len() + 1,
            final(self).events@.subrange(0, old(self).events@.len() as int) == old(self).events@,
            final(self).events@.last() is Start,
            final(self).events@.last()->Start_task_id@ == task_id@,
            final(self).events@.last()->Start_role == role,
            final(self).events@.last()->Start_description@ == description@,
            final(self).events@.last()->Start_event_id@ == spec_event_id(old(self).next_id as nat),
    {
        let event_id = self.fresh_id();
        let timestamp = clock_millis();
        self.events.push(Event::Start { event_id, timestamp, task_id, role, description });
        proof {
            assert(self.events@.subrange(0, self.events@.len() - 1) =~= old(self).events@);
        }
    }

    /// Record a task finish with its outcome and duration.
    pub fn emit_finish(&mut self, task_id: String, role: AgentRole, outcome: TaskOutcome, duration_ms: u64)
        ensures
            final(self).events@.len() == old(self).events@.len() + 1,
            final(self).events@.subrange(0, old(self).events@.len() as int) == old(self).events@,
            final(self).events@.last() is Finish,
            final(self).events@.last()->Finish_task_id@ == task_id@,
            final(self).events@.last()->Finish_role == role,
            outcome_like(final(self).events@.last()->Finish_outcome, outcome),
            final(self).events@.last()->Finish_duration_ms == duration_ms,
    {
        let event_id = self.fresh_id();
        let timestamp = clock_millis();
        let ghost expected = outcome;
        self.events.push(Event::Finish { event_id, timestamp, task_id, role, outcome, duration_ms });
        proof {
            assert(self.events@.subrange(0, self.events@.len() - 1) =~= old(self).events@);
            assert(outcome_like(self.events@.last()->Finish_outcome, expected));
        }
    }

    /// Record an inter-agent message.
    pub fn emit_message(&mut self, from_task: String, to_task: Option<String>, role: AgentRole, content: String)
        ensures
            final(self).events@.len() == old(self).events@.len() + 1,
            final(self).events@.subrange(0, old(self).events@.len() as int) == old(self).events@,
            final(self).events@.last() is Message,
            final(self).events@.last()->Message_from_task@ == from_task@,
            final(self).events@.last()->Message_role == role,
            final(self).events@.last()->Message_content@ == content@,
    {
        let event_id = self.fresh_id();
        let timestamp = clock_millis();
        self.events.push(Event::Message { event_id, timestamp, from_task, to_task, role, content });
        proof {
            assert(self.events@.subrange(0, self.events@.len() - 1) =~= old(self).events@);
        }
    }

    /// The buffered events, in emission order.
    pub fn events(&self) -> (r: &Vec<Event>)
        ensures
            r@ == self.events@,
    {
        &self.events
    }

    /// Hand the buffer over and clear it.
    pub fn flush(&mut self) -> (r: Vec<Event>)
        ensures
            r@ == old(self).events@,
            final(self).events@.len() == 0,
            final(self).next_id == old(self).next_id,
    {
        let drained = self.events.split_off(0);
        proof {
            assert(drained@ =~= old(self).events@);
            assert(self.events@.len() == 0);
        }
        drained
    }
}

/// The wall clock in milliseconds, clamped to zero before the epoch.
fn clock_millis() -> u64 {
    let now = crate::trace::now_unix_millis();
    if now < 0 {
        0
    } else {
        now as u64
    }
}

} // verus!
