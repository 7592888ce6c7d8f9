//! Append-only trace of workflow steps and its three renderers.
//!
//! Each renderer is specified character by character: the `*_of` spec
//! functions below state the exact output for a given event sequence, so
//! rendering is provably a pure function of the events (timestamps excluded).

use vstd::prelude::*;
use vstd::string::StringExecFns;

use crate::strutil::{fmt_json_string, fmt_u64, fmt_usize, json_string, push_char, spec_digits, str_chars};

verus! {

/// One recorded workflow step.
#[derive(Debug)]
pub struct TraceEvent {
    pub task_id: String,
    pub message: String,
    pub timestamp_ms: u64,
}

/// Relies on chrono's `Utc::now`: the wall clock, about which nothing is
/// promised.
#[verifier::external_body]
pub fn now_unix_millis() -> i64 {
    chrono::Utc::now().timestamp_millis()
}

impl TraceEvent {
    /// Stamp a new event with the current wall-clock time.
    pub fn new(task_id: String, message: String) -> (e: Self)
        ensures
            e.task_id@ == task_id@,
            e.message@ == message@,
    {
        let now = now_unix_millis();
        let timestamp_ms: u64 = if now < 0 {
            0
        } else {
            now as u64
        };
        TraceEvent { task_id, message, timestamp_ms }
    }
}

/// Append-only, insertion-ordered event log.
#[derive(Debug)]
pub struct TraceCollector {
    events: Vec<TraceEvent>,
}

impl View for TraceCollector {
    type V = Seq<TraceEvent>;

    closed spec fn view(&self) -> Seq<TraceEvent> {
        self.events@
    }
}

impl Clone for TraceEvent {
    fn clone(&self) -> (r: Self)
        ensures
            r == *self,
    {
        TraceEvent {
            task_id: self.task_id.clone(),
            message: self.message.clone(),
            timestamp_ms: self.timestamp_ms,
        }
    }
}

impl Clone for TraceCollector {
    fn clone(&self) -> (r: Self)
        ensures
            r@ == self@,
    {
        let mut events: Vec<TraceEvent> = Vec::new();
        let mut i: usize = 0;
        while i < self.events.len()
            invariant
                i <= self.events@.len(),
                events@ == self.events@.subrange(0, i as int),
            decreases self.events@.len() - i,
        {
            events.push(self.events[i].clone());
            proof {
                assert(events@ =~= self.events@.subrange(0, i + 1 as int));
            }
            i = i + 1;
        }
        proof {
            assert(events@ =~= self.events@);
        }
        TraceCollector { events }
    }
}

impl TraceCollector {
    pub fn new() -> (c: Self)
        ensures
            c@.len() == 0,
    {
        TraceCollector { events: Vec::new() }
    }

    pub fn from_events(events: Vec<TraceEvent>) -> (c: Self)
        ensures
            c@ == events@,
    {
        TraceCollector { events }
    }

    /// Record one step; the new event carries the given task id and message.
    pub fn record(&mut self, task_id: String, message: String)
        ensures
            final(self)@.len() == old(self)@.len() + 1,
            final(self)@.subrange(0, old(self)@.len() as int) == old(self)@,
            final(self)@.last().task_id@ == task_id@,
            final(self)@.last().message@ == message@,
    {
        let e = TraceEvent::new(task_id, message);
        self.events.push(e);
        proof {
            assert(self.events@.subrange(0, self.events@.len() - 1) =~= old(self).events@);
        }
    }

    pub fn extend(&mut self, events: Vec<TraceEvent>)
        ensures
            final(self)@ == old(self)@ + events@,
    {
        let mut rest = events;
        self.events.append(&mut rest);
    }

    pub fn events(&self) -> (r: &Vec<TraceEvent>)
        ensures
            r@ == self@,
    {
        &self.events
    }

    pub fn into_events(self) -> (r: Vec<TraceEvent>)
        ensures
            r@ == self@,
    {
        self.events
    }

    pub fn is_empty(&self) -> (r: bool)
        ensures
            r == (self@.len() == 0),
    {
        self.events.len() == 0
    }

    pub fn summary(&self) -> (s: TraceSummary)
        ensures
            s.steps@.len() == self@.len(),
            forall|i: int|
                0 <= i < s.steps@.len() ==> steps_match(#[trigger] s.steps@[i], self@[i], i),
    {
        TraceSummary::from_events(&self.events)
    }
}

/// One numbered step of a rendered summary.
#[derive(Debug)]
pub struct TraceStep {
    pub index: usize,
    pub task_id: String,
    pub message: String,
}

/// A step mirrors the event at position `i`, numbered from one.
pub open spec fn steps_match(step: TraceStep, event: TraceEvent, i: int) -> bool {
    &&& step.index == i + 1
    &&& step.task_id@ == event.task_id@
    &&& step.message@ == event.message@
}

impl Clone for TraceStep {
    fn clone(&self) -> (r: Self)
        ensures
            r == *self,
    {
        TraceStep {
            index: self.index,
            task_id: self.task_id.clone(),
            message: self.message.clone(),
        }
    }
}

/// The numbered view of a trace, input to the renderers.
#[derive(Debug)]
pub struct TraceSummary {
    pub steps: Vec<TraceStep>,
}

impl Clone for TraceSummary {
    fn clone(&self) -> (r: Self)
        ensures
            r.steps@ == self.steps@,
    {
        let mut steps: Vec<TraceStep> = Vec::new();
        let mut i: usize = 0;
        while i < self.steps.len()
            invariant
                i <= self.steps@.len(),
                steps@ == self.steps@.subrange(0, i as int),
            decreases self.steps@.len() - i,
        {
            steps.push(self.steps[i].clone());
            proof {
                assert(steps@ =~= self.steps@.subrange(0, i + 1 as int));
            }
            i = i + 1;
        }
        proof {
            assert(steps@ =~= self.steps@);
        }
        TraceSummary { steps }
    }
}

/// Markdown output, one numbered line per step, built left to right.
pub open spec fn markdown_upto(steps: Seq<TraceStep>, n: nat) -> Seq<char>
    decreases n,
{
    if n == 0 {
        "### Trace Summary\n"@
    } else {
        markdown_upto(steps, (n - 1) as nat) + spec_digits(steps[n - 1].index as nat) + ". "@
            + steps[n - 1].task_id@ + " → "@ + steps[n - 1].message@ + "\n"@
    }
}

pub open spec fn markdown_of(steps: Seq<TraceStep>) -> Seq<char> {
    if steps.len() == 0 {
        "No trace events recorded."@
    } else {
        markdown_upto(steps, steps.len())
    }
}

/// Mermaid escaping, character by character.
pub open spec fn mermaid_escape_char(c: char) -> Seq<char> {
    if c == '\\' {
        seq!['\\', '\\']
    } else if c == '"' {
        seq!['\\', '"']
    } else if c == '[' {
        seq!['(']
    } else if c == ']' {
        seq![')']
    } else if c == '\n' {
        seq!['<', 'b', 'r', '/', '>']
    } else {
        seq![c]
    }
}

pub open spec fn mermaid_escaped_upto(s: Seq<char>, n: nat) -> Seq<char>
    decreases n,
{
    if n == 0 {
        Seq::<char>::empty()
    } else {
        mermaid_escaped_upto(s, (n - 1) as nat) + mermaid_escape_char(s[n - 1])
    }
}

pub open spec fn mermaid_escaped(s: Seq<char>) -> Seq<char> {
    mermaid_escaped_upto(s, s.len())
}

/// Escape a label for a node-edge diagram.
pub fn sanitize_mermaid(text: &str) -> (r: String)
    ensures
        r@ == mermaid_escaped(text@),
{
    let chars = str_chars(text);
    let mut out = String::new();
    let mut i: usize = 0;
    while i < chars.len()
        invariant
            i <= chars.len(),
            chars@ == text@,
            out@ == mermaid_escaped_upto(text@, i as nat),
        decreases chars.len() - i,
    {
        let c = chars[i];
        if c == '\\' {
            push_char(&mut out, '\\');
            push_char(&mut out, '\\');
        } else if c == '"' {
            push_char(&mut out, '\\');
            push_char(&mut out, '"');
        } else if c == '[' {
            push_char(&mut out, '(');
        } else if c == ']' {
            push_char(&mut out, ')');
        } else if c == '\n' {
            push_char(&mut out, '<');
            push_char(&mut out, 'b');
            push_char(&mut out, 'r');
            push_char(&mut out, '/');
            push_char(&mut out, '>');
        } else {
            push_char(&mut out, c);
        }
        proof {
            assert(out@ =~= mermaid_escaped_upto(text@, (i + 1) as nat));
        }
        i = i + 1;
    }
    out
}

/// Graphviz escaping: double quotes are escaped, newlines become spaces.
pub open spec fn graphviz_escape_char(c: char) -> Seq<char> {
    if c == '"' {
        seq!['\\', '"']
    } else if c == '\n' {
        seq![' ']
    } else {
        seq![c]
    }
}

pub open spec fn graphviz_escaped_upto(s: Seq<char>, n: nat) -> Seq<char>
    decreases n,
{
    if n == 0 {
        Seq::<char>::empty()
    } else {
        graphviz_escaped_upto(s, (n - 1) as nat) + graphviz_escape_char(s[n - 1])
    }
}

pub open spec fn graphviz_escaped(s: Seq<char>) -> Seq<char> {
    graphviz_escaped_upto(s, s.len())
}

/// Escape a label for a directed-graph rendering.
pub fn escape_graphviz(text: &str) -> (r: String)
    ensures
        r@ == graphviz_escaped(text@),
{
    let chars = str_chars(text);
    let mut out = String::new();
    let mut i: usize = 0;
    while i < chars.len()
        invariant
            i <= chars.len(),
            chars@ == text@,
            out@ == graphviz_escaped_upto(text@, i as nat),
        decreases chars.len() - i,
    {
        let c = chars[i];
        if c == '"' {
            push_char(&mut out, '\\');
            push_char(&mut out, '"');
        } else if c == '\n' {
            push_char(&mut out, ' ');
        } else {
            push_char(&mut out, c);
        }
        proof {
            assert(out@ =~= graphviz_escaped_upto(text@, (i + 1) as nat));
        }
        i = i + 1;
    }
    out
}

/// Node section of the mermaid rendering.
pub open spec fn mermaid_nodes_upto(steps: Seq<TraceStep>, n: nat) -> Seq<char>
    decreases n,
{
    if n == 0 {
        "flowchart TD\n  %% auto-generated trace\n"@
    } else {
        mermaid_nodes_upto(steps, (n - 1) as nat) + "  step"@ + spec_digits(
            steps[n - 1].index as nat,
        ) + "[\""@ + mermaid_escaped(
            steps[n - 1].task_id@ + ": "@ + steps[n - 1].message@,
        ) + "\"]\n"@
    }
}

/// Link section, appended after all nodes: step k points at step k+1.
pub open spec fn mermaid_links_upto(steps: Seq<TraceStep>, k: nat) -> Seq<char>
    decreases k,
{
    if k == 0 {
        mermaid_nodes_upto(steps, steps.len())
    } else {
        mermaid_links_upto(steps, (k - 1) as nat) + "  step"@ + spec_digits(k) + " --> step"@
            + spec_digits(k + 1) + "\n"@
    }
}

pub open spec fn mermaid_of(steps: Seq<TraceStep>) -> Seq<char> {
    if steps.len() == 0 {
        "flowchart TD\n  %% no trace events captured"@
    } else {
        mermaid_links_upto(steps, (steps.len() - 1) as nat)
    }
}

/// Node section of the graphviz rendering.
pub open spec fn graphviz_nodes_upto(steps: Seq<TraceStep>, n: nat) -> Seq<char>
    decreases n,
{
    if n == 0 {
        "digraph Trace {\n  rankdir=LR;\n  node [shape=box];\n"@
    } else {
        graphviz_nodes_upto(steps, (n - 1) as nat) + "  step"@ + spec_digits(
            steps[n - 1].index as nat,
        ) + " [label=\""@ + steps[n - 1].task_id@ + ": "@ + graphviz_escaped(
            steps[n - 1].message@,
        ) + "\"];\n\n"@
    }
}

pub open spec fn graphviz_links_upto(steps: Seq<TraceStep>, k: nat) -> Seq<char>
    decreases k,
{
    if k == 0 {
        graphviz_nodes_upto(steps, steps.len())
    } else {
        graphviz_links_upto(steps, (k - 1) as nat) + "  step"@ + spec_digits(k) + " -> step"@
            + spec_digits(k + 1) + ";\n"@
    }
}

pub open spec fn graphviz_of(steps: Seq<TraceStep>) -> Seq<char> {
    if steps.len() == 0 {
        "digraph Trace {\n  // no trace events captured\n}"@
    } else {
        graphviz_links_upto(steps, (steps.len() - 1) as nat) + "}\n"@
    }
}

impl TraceSummary {
    pub fn new() -> (s: Self)
        ensures
            s.steps@.len() == 0,
    {
        TraceSummary { steps: Vec::new() }
    }

    /// Number the events one by one, in order.
    pub fn from_events(events: &Vec<TraceEvent>) -> (s: Self)
        ensures
            s.steps@.len() == events@.len(),
            forall|i: int|
                0 <= i < s.steps@.len() ==> steps_match(#[trigger] s.steps@[i], events@[i], i),
    {
        let mut steps: Vec<TraceStep> = Vec::new();
        let mut i: usize = 0;
        while i < events.len()
            invariant
                i <= events@.len(),
                steps@.len() == i,
                forall|j: int|
                    0 <= j < i ==> steps_match(#[trigger] steps@[j], events@[j], j),
            decreases events@.len() - i,
        {
            let e = &events[i];
            steps.push(
                TraceStep {
                    index: i + 1,
                    task_id: e.task_id.clone(),
                    message: e.message.clone(),
                },
            );
            i = i + 1;
        }
        TraceSummary { steps }
    }

    /// Numbered list, `N. task → message` per line.
    pub fn render_markdown(&self) -> (r: String)
        ensures
            r@ == markdown_of(self.steps@),
    {
        if self.steps.len() == 0 {
            return "No trace events recorded.".to_owned();
        }
        let mut out: String = "### Trace Summary\n".to_owned();
        let mut i: usize = 0;
        while i < self.steps.len()
            invariant
                i <= self.steps@.len(),
                out@ == markdown_upto(self.steps@, i as nat),
            decreases self.steps@.len() - i,
        {
            let step = &self.steps[i];
            out.append(fmt_usize(step.index).as_str());
            out.append(". ");
            out.append(step.task_id.as_str());
            out.append(" → ");
            out.append(step.message.as_str());
            out.append("\n");
            i = i + 1;
        }
        out
    }

    /// Node-edge diagram: one node per step, each step linked to the next.
    pub fn render_mermaid(&self) -> (r: String)
        ensures
            r@ == mermaid_of(self.steps@),
    {
        if self.steps.len() == 0 {
            return "flowchart TD\n  %% no trace events captured".to_owned();
        }
        let mut out: String = "flowchart TD\n  %% auto-generated trace\n".to_owned();
        let mut i: usize = 0;
        while i < self.steps.len()
            invariant
                i <= self.steps@.len(),
                out@ == mermaid_nodes_upto(self.steps@, i as nat),
            decreases self.steps@.len() - i,
        {
            let step = &self.steps[i];
            let mut label_src: String = step.task_id.clone();
            label_src.append(": ");
            label_src.append(step.message.as_str());
            let label = sanitize_mermaid(label_src.as_str());
            out.append("  step");
            out.append(fmt_usize(step.index).as_str());
            out.append("[\"");
            out.append(label.as_str());
            out.append("\"]\n");
            i = i + 1;
        }
        let mut k: usize = 0;
        while k < self.steps.len() - 1
            invariant
                self.steps@.len() > 0,
                k <= self.steps@.len() - 1,
                out@ == mermaid_links_upto(self.steps@, k as nat),
            decreases self.steps@.len() - 1 - k,
        {
            out.append("  step");
            out.append(fmt_usize(k + 1).as_str());
            out.append(" --> step");
            out.append(fmt_usize(k + 2).as_str());
            out.append("\n");
            k = k + 1;
        }
        out
    }

    /// Directed-graph rendering: left-to-right, box nodes, same link rule.
    pub fn render_graphviz(&self) -> (r: String)
        ensures
            r@ == graphviz_of(self.steps@),
    {
        if self.steps.len() == 0 {
            return "digraph Trace {\n  // no trace events captured\n}".to_owned();
        }
        let mut out: String = "digraph Trace {\n  rankdir=LR;\n  node [shape=box];\n".to_owned();
        let mut i: usize = 0;
        while i < self.steps.len()
            invariant
                i <= self.steps@.len(),
                out@ == graphviz_nodes_upto(self.steps@, i as nat),
            decreases self.steps@.len() - i,
        {
            let step = &self.steps[i];
            let label = escape_graphviz(step.message.as_str());
            out.append("  step");
            out.append(fmt_usize(step.index).as_str());
            out.append(" [label=\"");
            out.append(step.task_id.as_str());
            out.append(": ");
            out.append(label.as_str());
            out.append("\"];\n\n");
            i = i + 1;
        }
        let mut k: usize = 0;
        while k < self.steps.len() - 1
            invariant
                self.steps@.len() > 0,
                k <= self.steps@.len() - 1,
                out@ == graphviz_links_upto(self.steps@, k as nat),
            decreases self.steps@.len() - 1 - k,
        {
            out.append("  step");
            out.append(fmt_usize(k + 1).as_str());
            out.append(" -> step");
            out.append(fmt_usize(k + 2).as_str());
            out.append(";\n");
            k = k + 1;
        }
        out.append("}\n");
        out
    }
}

/// Rendering is a pure function of the step sequence: two summaries with the
/// same steps render identically in all three formats.
pub proof fn lemma_render_pure(a: TraceSummary, b: TraceSummary)
    requires
        a.steps@ == b.steps@,
    ensures
        markdown_of(a.steps@) == markdown_of(b.steps@),
        mermaid_of(a.steps@) == mermaid_of(b.steps@),
        graphviz_of(a.steps@) == graphviz_of(b.steps@),
{
}

/// An empty trace renders to the documented placeholders in every format;
/// a non-empty trace is numbered contiguously from one.
pub proof fn lemma_empty_trace_placeholders(s: TraceSummary)
    requires
        s.steps@.len() == 0,
    ensures
        markdown_of(s.steps@) == "No trace events recorded."@,
        mermaid_of(s.steps@) == "flowchart TD\n  %% no trace events captured"@,
        graphviz_of(s.steps@) == "digraph Trace {\n  // no trace events captured\n}"@,
{
}


/// One trace event as a pretty-printed JSON object, indented for the
/// trace-file array.
pub open spec fn trace_event_json(e: TraceEvent) -> Seq<char> {
    "  {\n    \"task_id\": "@ + json_string(e.task_id@) + ",\n    \"message\": "@ + json_string(
        e.message@,
    ) + ",\n    \"timestamp_ms\": "@ + spec_digits(e.timestamp_ms as nat) + "\n  }"@
}

/// The array items, opening bracket included, comma-and-newline separated.
pub open spec fn trace_json_items(events: Seq<TraceEvent>, n: nat) -> Seq<char>
    decreases n,
{
    if n == 0 {
        "[\n"@
    } else if n == 1 {
        "[\n"@ + trace_event_json(events[0])
    } else {
        trace_json_items(events, (n - 1) as nat) + ",\n"@ + trace_event_json(events[n - 1])
    }
}

/// The trace file's text: a pretty JSON array of the recorded events,
/// `[]` when there are none.
pub open spec fn trace_events_json_of(events: Seq<TraceEvent>) -> Seq<char> {
    if events.len() == 0 {
        "[]"@
    } else {
        trace_json_items(events, events.len()) + "\n]"@
    }
}

/// Render the trace file's text for a persisted `{session_id}.json`.
pub fn trace_events_json(events: &Vec<TraceEvent>) -> (r: String)
    ensures
        r@ == trace_events_json_of(events@),
{
    if events.len() == 0 {
        return "[]".to_owned();
    }
    let mut out: String = "[\n".to_owned();
    let mut i: usize = 0;
    while i < events.len()
        invariant
            events@.len() > 0,
            i <= events@.len(),
            out@ == trace_json_items(events@, i as nat),
        decreases events@.len() - i,
    {
        if i > 0 {
            out.append(",\n");
        } else {
            proof {
                assert(out@ =~= trace_json_items(events@, 0));
            }
        }
        let e = &events[i];
        let mut obj: String = "  {\n    \"task_id\": ".to_owned();
        obj.append(fmt_json_string(e.task_id.as_str()).as_str());
        obj.append(",\n    \"message\": ");
        obj.append(fmt_json_string(e.message.as_str()).as_str());
        obj.append(",\n    \"timestamp_ms\": ");
        obj.append(fmt_u64(e.timestamp_ms).as_str());
        obj.append("\n  }");
        out.append(obj.as_str());
        proof {
            if i == 0 {
                assert(out@ =~= trace_json_items(events@, 1));
            } else {
                assert(out@ =~= trace_json_items(events@, (i + 1) as nat));
            }
        }
        i = i + 1;
    }
    out.append("\n]");
    out
}

} // verus!
