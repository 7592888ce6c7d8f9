//! The session service core: the status index, admission accounting, the
//! lifecycle events, the prompt rewrite, and the trace timeline that the
//! HTTP adapter serves.
//!
//! Spawning workers, awaiting the admission semaphore and broadcasting
//! over channels is async plumbing and lives with the service around this
//! library; every decision and every record it stores is built here. The
//! try-acquire admission path is exact: it fails when and only when no
//! permit is free.

use vstd::prelude::*;
use vstd::string::StringExecFns;

use crate::redact::ws_end;
use crate::strutil::{
    ascii_lowered, clone_opt_string, clone_string_vec, spec_starts_with, starts_with, str_chars,
    str_eq, to_ascii_lowercase,
};
use crate::trace::{TraceCollector, TraceEvent, TraceSummary};
use crate::workflow::SessionOutcome;

verus! {

/// Where a tracked session stands.
#[derive(Debug, Clone, Copy, PartialEq, Eq, Structural)]
pub enum SessionState {
    Running,
    Completed,
    Failed,
}

/// A lifecycle event kind, as sent to subscribers.
#[derive(Debug, Clone, Copy, PartialEq, Eq, Structural)]
pub enum SessionEventKind {
    Started,
    Completed,
    Error,
}

impl SessionEventKind {
    pub fn as_str(&self) -> (r: &'static str)
        ensures
            self is Started ==> r@ == "started"@,
            self is Completed ==> r@ == "completed"@,
            self is Error ==> r@ == "error"@,
    {
        match self {
            SessionEventKind::Started => "started",
            SessionEventKind::Completed => "completed",
            SessionEventKind::Error => "error",
        }
    }
}

/// One lifecycle event.
#[derive(Debug)]
pub struct SessionEvent {
    pub kind: SessionEventKind,
    pub message: Option<String>,
    pub summary: Option<String>,
    pub trace_available: Option<bool>,
    pub requires_manual: Option<bool>,
}

impl Clone for SessionEvent {
    fn clone(&self) -> (r: Self)
        ensures
            event_like(r, *self),
    {
        SessionEvent {
            kind: self.kind,
            message: clone_opt_string(&self.message),
            summary: clone_opt_string(&self.summary),
            trace_available: self.trace_available,
            requires_manual: self.requires_manual,
        }
    }
}

pub open spec fn event_like(a: SessionEvent, b: SessionEvent) -> bool {
    &&& a.kind == b.kind
    &&& a.message == b.message
    &&& a.summary == b.summary
    &&& a.trace_available == b.trace_available
    &&& a.requires_manual == b.requires_manual
}

impl SessionEvent {
    /// The event emitted when a session is admitted to the index.
    pub fn started() -> (r: Self)
        ensures
            r.kind is Started,
            r.message is Some && r.message->0@ == "session started"@,
            r.summary is None,
            r.trace_available is None,
            r.requires_manual is None,
    {
        SessionEvent {
            kind: SessionEventKind::Started,
            message: Option::Some("session started".to_owned()),
            summary: Option::None,
            trace_available: Option::None,
            requires_manual: Option::None,
        }
    }

    /// The terminal event for a successful outcome.
    pub fn completed(outcome: &SessionOutcome) -> (r: Self)
        ensures
            r.kind is Completed,
            r.message is Some && r.message->0@ == "session completed"@,
            r.summary is Some && r.summary->0@ == outcome.summary@,
            r.trace_available == Option::Some(outcome.trace_events@.len() > 0),
            r.requires_manual == Option::Some(outcome.requires_manual),
    {
        SessionEvent {
            kind: SessionEventKind::Completed,
            message: Option::Some("session completed".to_owned()),
            summary: Option::Some(outcome.summary.clone()),
            trace_available: Option::Some(outcome.trace_events.len() > 0),
            requires_manual: Option::Some(outcome.requires_manual),
        }
    }

    /// The terminal event for a failure.
    pub fn error(error: &str) -> (r: Self)
        ensures
            r.kind is Error,
            r.message is Some && r.message->0@ == "session failed: "@ + error@,
            r.summary is None,
            r.trace_available == Option::Some(false),
            r.requires_manual == Option::Some(false),
    {
        let mut msg: String = "session failed: ".to_owned();
        msg.append(error);
        SessionEvent {
            kind: SessionEventKind::Error,
            message: Option::Some(msg),
            summary: Option::None,
            trace_available: Option::Some(false),
            requires_manual: Option::Some(false),
        }
    }
}

/// What the index remembers about one session.
#[derive(Debug)]
pub enum SessionRecord {
    Running,
    Completed { outcome: SessionOutcome, event: SessionEvent },
    Failed { error: String, event: SessionEvent },
}

/// One row of a status listing.
#[derive(Debug)]
pub struct SessionStatus {
    pub session_id: String,
    pub state: SessionState,
    pub summary: Option<String>,
    pub error: Option<String>,
    pub trace_available: bool,
    pub requires_manual: bool,
}

/// The observable service counters.
#[derive(Debug, Clone, Copy, PartialEq, Eq, Structural)]
pub struct SessionMetrics {
    pub max_concurrency: usize,
    pub available_permits: usize,
    pub running_sessions: usize,
    pub total_sessions: usize,
}

/// The capacity block of HTTP responses.
#[derive(Debug, Clone, Copy, PartialEq, Eq, Structural)]
pub struct CapacitySnapshot {
    pub max_concurrency: usize,
    pub available_permits: usize,
    pub running_sessions: usize,
    pub total_sessions: usize,
}

impl CapacitySnapshot {
    pub fn of(m: &SessionMetrics) -> (r: Self)
        ensures
            r.max_concurrency == m.max_concurrency,
            r.available_permits == m.available_permits,
            r.running_sessions == m.running_sessions,
            r.total_sessions == m.total_sessions,
    {
        CapacitySnapshot {
            max_concurrency: m.max_concurrency,
            available_permits: m.available_permits,
            running_sessions: m.running_sessions,
            total_sessions: m.total_sessions,
        }
    }
}

/// A request to start a session.
#[derive(Debug)]
pub struct SessionRequest {
    pub query: String,
    pub session_id: Option<String>,
    pub enable_trace: Option<bool>,
}

impl SessionRequest {
    pub fn new(query: String) -> (r: Self)
        ensures
            r.query@ == query@,
            r.session_id is None,
            r.enable_trace is None,
    {
        SessionRequest { query, session_id: Option::None, enable_trace: Option::None }
    }

    pub fn with_session_id(self, session_id: Option<String>) -> (r: Self)
        ensures
            r.query@ == self.query@,
            r.session_id == session_id,
            r.enable_trace == self.enable_trace,
    {
        SessionRequest { session_id, ..self }
    }

    pub fn with_trace(self, enable: Option<bool>) -> (r: Self)
        ensures
            r.query@ == self.query@,
            r.session_id == self.session_id,
            r.enable_trace == enable,
    {
        SessionRequest { enable_trace: enable, ..self }
    }
}

/// The wire body of a start request.
#[derive(Debug)]
pub struct StartSessionRequest {
    pub query: String,
    pub session_id: Option<String>,
    pub enable_trace: Option<bool>,
}

/// The wire body of a start response.
#[derive(Debug)]
pub struct StartSessionResponse {
    pub session_id: String,
    pub state: SessionState,
    pub capacity: CapacitySnapshot,
    pub message: Option<String>,
}

/// The wire body of a session listing.
#[derive(Debug)]
pub struct ListSessionsResponse {
    pub sessions: Vec<SessionStatus>,
    pub capacity: CapacitySnapshot,
}

/// The renderable artifacts of a trace bundle.
#[derive(Debug)]
pub struct TraceArtifacts {
    pub markdown: Option<String>,
    pub mermaid: Option<String>,
    pub graphviz: Option<String>,
}

/// The fact-check block of a trace bundle; confidence in hundredths.
#[derive(Debug)]
pub struct FactCheckSnapshot {
    pub confidence_hundredths: u32,
    pub passed: bool,
    pub verified_sources: Vec<String>,
}

/// The critic block of a trace bundle.
#[derive(Debug, Clone, Copy, PartialEq, Eq, Structural)]
pub struct CriticSnapshot {
    pub confident: bool,
}

/// One step of the rendered timeline.
#[derive(Debug)]
pub struct TimelinePoint {
    pub step_index: usize,
    pub task_id: String,
    pub message: String,
    pub timestamp_ms: u64,
    pub offset_ms: u64,
    pub duration_ms: Option<u64>,
}

/// Per-task aggregates over the timeline.
#[derive(Debug)]
pub struct TaskMetric {
    pub task_id: String,
    pub occurrences: usize,
    pub total_duration_ms: Option<u64>,
    pub average_duration_ms: Option<u64>,
}

/// The duration of step `i`: the gap to the next event, when it is not
/// negative.
pub open spec fn spec_duration(events: Seq<TraceEvent>, i: int) -> Option<u64> {
    if i + 1 < events.len() && events[i + 1].timestamp_ms >= events[i].timestamp_ms {
        Option::Some((events[i + 1].timestamp_ms - events[i].timestamp_ms) as u64)
    } else {
        Option::None
    }
}

/// One timeline point per trace event: numbered from one, with the offset
/// from the first event and the duration to the next.
pub fn build_timeline(events: &Vec<TraceEvent>) -> (r: Vec<TimelinePoint>)
    ensures
        r@.len() == events@.len(),
        forall|i: int|
            0 <= i < r@.len() ==> {
                let p = #[trigger] r@[i];
                &&& p.step_index == i + 1
                &&& p.task_id@ == events@[i].task_id@
                &&& p.message@ == events@[i].message@
                &&& p.timestamp_ms == events@[i].timestamp_ms
                &&& p.offset_ms == if events@[i].timestamp_ms >= events@[0].timestamp_ms {
                    (events@[i].timestamp_ms - events@[0].timestamp_ms) as u64
                } else {
                    0u64
                }
                &&& p.duration_ms == spec_duration(events@, i)
            },
{
    let mut out: Vec<TimelinePoint> = Vec::new();
    if events.len() == 0 {
        return out;
    }
    let first = events[0].timestamp_ms;
    let mut i: usize = 0;
    while i < events.len()
        invariant
            events@.len() > 0,
            first == events@[0].timestamp_ms,
            i <= events@.len(),
            out@.len() == i,
            forall|j: int|
                0 <= j < i ==> {
                    let p = #[trigger] out@[j];
                    &&& p.step_index == j + 1
                    &&& p.task_id@ == events@[j].task_id@
                    &&& p.message@ == events@[j].message@
                    &&& p.timestamp_ms == events@[j].timestamp_ms
                    &&& p.offset_ms == if events@[j].timestamp_ms >= events@[0].timestamp_ms {
                        (events@[j].timestamp_ms - events@[0].timestamp_ms) as u64
                    } else {
                        0u64
                    }
                    &&& p.duration_ms == spec_duration(events@, j)
                },
        decreases events@.len() - i,
    {
        let e = &events[i];
        let offset: u64 = if e.timestamp_ms >= first {
            e.timestamp_ms - first
        } else {
            0
        };
        let duration: Option<u64> = if i + 1 < events.len() && events[i + 1].timestamp_ms
            >= e.timestamp_ms {
            Option::Some(events[i + 1].timestamp_ms - e.timestamp_ms)
        } else {
            Option::None
        };
        out.push(
            TimelinePoint {
                step_index: i + 1,
                task_id: e.task_id.clone(),
                message: e.message.clone(),
                timestamp_ms: e.timestamp_ms,
                offset_ms: offset,
                duration_ms: duration,
            },
        );
        i = i + 1;
    }
    out
}

/// How often a task id occurs in a timeline prefix.
pub open spec fn tl_count(tl: Seq<TimelinePoint>, id: Seq<char>, n: nat) -> nat
    decreases n,
{
    if n == 0 {
        0
    } else {
        tl_count(tl, id, (n - 1) as nat) + if tl[n - 1].task_id@ == id {
            1nat
        } else {
            0nat
        }
    }
}

/// Sum of the recorded durations of a task over a timeline prefix.
pub open spec fn tl_dur_sum(tl: Seq<TimelinePoint>, id: Seq<char>, n: nat) -> int
    decreases n,
{
    if n == 0 {
        0
    } else {
        tl_dur_sum(tl, id, (n - 1) as nat) + if tl[n - 1].task_id@ == id {
            match tl[n - 1].duration_ms {
                Option::Some(d) => d as int,
                Option::None => 0,
            }
        } else {
            0
        }
    }
}

/// How many steps of a task carry a duration, over a timeline prefix.
pub open spec fn tl_dur_cnt(tl: Seq<TimelinePoint>, id: Seq<char>, n: nat) -> nat
    decreases n,
{
    if n == 0 {
        0
    } else {
        tl_dur_cnt(tl, id, (n - 1) as nat) + if tl[n - 1].task_id@ == id && tl[n
            - 1].duration_ms is Some {
            1nat
        } else {
            0nat
        }
    }
}

/// Aggregate the timeline per task id, in first-occurrence order: one
/// metric per distinct task with its occurrence count and, when any step
/// carried a duration, the (saturated) total and mean duration.
pub fn build_task_metrics(timeline: &Vec<TimelinePoint>) -> (r: Vec<TaskMetric>)
    ensures
        forall|a: int, b: int|
            0 <= a < b < r@.len() ==> (#[trigger] r@[a]).task_id@ != (#[trigger] r@[b]).task_id@,
        forall|a: int|
            0 <= a < r@.len() ==> {
                let m = #[trigger] r@[a];
                let n = timeline@.len() as nat;
                let sum = tl_dur_sum(timeline@, m.task_id@, n);
                let cnt = tl_dur_cnt(timeline@, m.task_id@, n);
                &&& m.occurrences == tl_count(timeline@, m.task_id@, n)
                &&& m.occurrences > 0
                &&& (cnt == 0 <==> m.total_duration_ms is None)
                &&& (m.total_duration_ms is Some ==> m.total_duration_ms->0 == if sum
                    <= u64::MAX {
                    sum
                } else {
                    u64::MAX as int
                })
                &&& (m.average_duration_ms is Some <==> cnt > 0)
                &&& (m.average_duration_ms is Some ==> m.average_duration_ms->0 == if sum / (
                cnt as int) <= u64::MAX {
                    sum / (cnt as int)
                } else {
                    u64::MAX as int
                })
            },
        forall|i: int|
            0 <= i < timeline@.len() ==> exists|a: int|
                0 <= a < r@.len() && (#[trigger] r@[a]).task_id@ == (
                #[trigger] timeline@[i]).task_id@,
{
    let mut out: Vec<TaskMetric> = Vec::new();
    let total_len = timeline.len();
    let mut i: usize = 0;
    while i < timeline.len()
        invariant
            total_len == timeline@.len(),
            i <= timeline@.len(),
            forall|a: int, b: int|
                0 <= a < b < out@.len() ==> (#[trigger] out@[a]).task_id@ != (
                #[trigger] out@[b]).task_id@,
            forall|a: int|
                0 <= a < out@.len() ==> {
                    let m = #[trigger] out@[a];
                    let n = timeline@.len() as nat;
                    let sum = tl_dur_sum(timeline@, m.task_id@, n);
                    let cnt = tl_dur_cnt(timeline@, m.task_id@, n);
                    &&& m.occurrences == tl_count(timeline@, m.task_id@, n)
                    &&& m.occurrences > 0
                    &&& (cnt == 0 <==> m.total_duration_ms is None)
                    &&& (m.total_duration_ms is Some ==> m.total_duration_ms->0 == if sum
                        <= u64::MAX {
                        sum
                    } else {
                        u64::MAX as int
                    })
                    &&& (m.average_duration_ms is Some <==> cnt > 0)
                    &&& (m.average_duration_ms is Some ==> m.average_duration_ms->0 == if sum / (
                    cnt as int) <= u64::MAX {
                        sum / (cnt as int)
                    } else {
                        u64::MAX as int
                    })
                },
            forall|k: int|
                0 <= k < i ==> exists|a: int|
                    0 <= a < out@.len() && (#[trigger] out@[a]).task_id@ == (
                    #[trigger] timeline@[k]).task_id@,
        decreases timeline@.len() - i,
    {
        let ghost pre = out@;
        let p = &timeline[i];
        let mut seen = false;
        let mut a: usize = 0;
        while a < out.len() && !seen
            invariant
                a <= out@.len(),
                seen ==> exists|b: int|
                    0 <= b < out@.len() && (#[trigger] out@[b]).task_id@ == p.task_id@,
                !seen ==> forall|b: int|
                    0 <= b < a ==> (#[trigger] out@[b]).task_id@ != p.task_id@,
            decreases out@.len() - a, (if seen { 0int } else { 1int }),
        {
            if str_eq(out[a].task_id.as_str(), p.task_id.as_str()) {
                seen = true;
                proof {
                    assert(out@[a as int].task_id@ == p.task_id@);
                }
            } else {
                a = a + 1;
            }
        }
        if !seen {
            let mut occurrences: usize = 0;
            let mut total: u128 = 0;
            let mut cnt: usize = 0;
            let mut k: usize = 0;
            while k < total_len
                invariant
                    total_len == timeline@.len(),
                    i < timeline@.len(),
                    p.task_id@ == timeline@[i as int].task_id@,
                    k <= timeline@.len(),
                    occurrences == tl_count(timeline@, p.task_id@, k as nat),
                    occurrences <= k,
                    k > i ==> occurrences >= 1,
                    cnt == tl_dur_cnt(timeline@, p.task_id@, k as nat),
                    cnt <= k,
                    total == tl_dur_sum(timeline@, p.task_id@, k as nat),
                    total <= (k as int) * (u64::MAX as int),
                decreases timeline@.len() - k,
            {
                proof {
                    assert(((k + 1) as int) * (u64::MAX as int) == (k as int) * (
                    u64::MAX as int) + (u64::MAX as int)) by (nonlinear_arith);
                    assert((timeline@.len() as int) * (u64::MAX as int)
                        < 0x100000000000000000000000000000000) by (nonlinear_arith)
                        requires
                            timeline@.len() < 0x10000000000000000,
                    ;
                    assert((k as int) * (u64::MAX as int) <= (timeline@.len() as int) * (
                    u64::MAX as int)) by (nonlinear_arith)
                        requires
                            0 <= k as int <= timeline@.len() as int,
                    ;
                }
                proof {
                    if k == i {
                        assert(timeline@[k as int].task_id@ == p.task_id@);
                    }
                }
                if str_eq(timeline[k].task_id.as_str(), p.task_id.as_str()) {
                    occurrences = occurrences + 1;
                    match timeline[k].duration_ms {
                        Option::Some(d) => {
                            total = total + (d as u128);
                            cnt = cnt + 1;
                        },
                        Option::None => {},
                    }
                }
                k = k + 1;
            }
            let total_field: Option<u64> = if cnt > 0 {
                if total <= 0xFFFF_FFFF_FFFF_FFFFu128 {
                    Option::Some(total as u64)
                } else {
                    Option::Some(u64::MAX)
                }
            } else {
                Option::None
            };
            let average_field: Option<u64> = if cnt > 0 {
                let avg = total / (cnt as u128);
                if avg <= 0xFFFF_FFFF_FFFF_FFFFu128 {
                    Option::Some(avg as u64)
                } else {
                    Option::Some(u64::MAX)
                }
            } else {
                Option::None
            };
            let item = TaskMetric {
                task_id: p.task_id.clone(),
                occurrences,
                total_duration_ms: total_field,
                average_duration_ms: average_field,
            };
            out.push(item);
            proof {
                assert(out@[out@.len() - 1].task_id@ == timeline@[i as int].task_id@);
            }
        }
        proof {
            assert(exists|a: int|
                0 <= a < out@.len() && (#[trigger] out@[a]).task_id@
                    == timeline@[i as int].task_id@);
            assert(pre.len() <= out@.len());
            assert forall|k: int| 0 <= k < i + 1 implies exists|a: int|
                0 <= a < out@.len() && (#[trigger] out@[a]).task_id@ == (
                #[trigger] timeline@[k]).task_id@ by {
                if k < i {
                    let a0 = choose|a: int|
                        0 <= a < pre.len() && (#[trigger] pre[a]).task_id@
                            == timeline@[k].task_id@;
                    assert(out@[a0] == pre[a0]);
                    assert(out@[a0].task_id@ == timeline@[k].task_id@);
                }
            }
        }
        i = i + 1;
    }
    out
}


impl Clone for SessionStatus {
    fn clone(&self) -> (r: Self)
        ensures
            status_like(r, *self),
    {
        SessionStatus {
            session_id: self.session_id.clone(),
            state: self.state,
            summary: clone_opt_string(&self.summary),
            error: clone_opt_string(&self.error),
            trace_available: self.trace_available,
            requires_manual: self.requires_manual,
        }
    }
}

pub open spec fn status_like(a: SessionStatus, b: SessionStatus) -> bool {
    &&& a.session_id@ == b.session_id@
    &&& a.state == b.state
    &&& a.summary == b.summary
    &&& a.error == b.error
    &&& a.trace_available == b.trace_available
    &&& a.requires_manual == b.requires_manual
}

/// A supplied id under a namespace: kept when it already starts with the
/// namespace, otherwise prefixed `namespace::id`.
pub open spec fn spec_normalized_id(ns: Option<Seq<char>>, raw: Seq<char>) -> Seq<char> {
    match ns {
        Option::Some(n) => if spec_starts_with(raw, n) {
            raw
        } else {
            n + "::"@ + raw
        },
        Option::None => raw,
    }
}

/// Rewrite a prompt so that it carries a literal leading `use context7`
/// token: kept as is when (ignoring leading whitespace and ASCII case) it
/// already starts with the token, the bare token for a blank prompt, and
/// the token prefixed otherwise.
pub open spec fn spec_context7_prompt(q: Seq<char>) -> Seq<char> {
    let t = q.subrange(ws_end(q, 0), q.len() as int);
    if spec_starts_with(ascii_lowered(t), "use context7"@) {
        q
    } else if t.len() == 0 {
        "use context7"@
    } else {
        "use context7 "@ + q
    }
}

pub fn ensure_context7_prefix(query: &str) -> (r: String)
    ensures
        r@ == spec_context7_prompt(query@),
{
    let chars = str_chars(query);
    let mut t: usize = 0;
    while t < chars.len() && crate::strutil::is_whitespace(chars[t])
        invariant
            t <= chars@.len(),
            chars@ == query@,
            forall|j: int| 0 <= j < t ==> crate::strutil::is_whitespace_char(#[trigger] query@[j]),
        decreases chars@.len() - t,
    {
        t = t + 1;
    }
    proof {
        crate::redact::lemma_ws_end_prefix(query@, 0, t as int);
    }
    let mut trimmed: Vec<char> = Vec::new();
    let mut k: usize = t;
    while k < chars.len()
        invariant
            t <= k <= chars@.len(),
            chars@ == query@,
            trimmed@ == query@.subrange(t as int, k as int),
        decreases chars@.len() - k,
    {
        trimmed.push(chars[k]);
        proof {
            assert(trimmed@ =~= query@.subrange(t as int, k + 1 as int));
        }
        k = k + 1;
    }
    let trimmed_s = crate::strutil::chars_to_string(&trimmed);
    let lowered = to_ascii_lowercase(trimmed_s.as_str());
    if starts_with(lowered.as_str(), "use context7") {
        query.to_owned()
    } else if trimmed.len() == 0 {
        "use context7".to_owned()
    } else {
        let mut out: String = "use context7 ".to_owned();
        out.append(query);
        out
    }
}

/// The service's status index and admission accounting. The async worker
/// pool, the semaphore it blocks on and the broadcast channels live with
/// the service; this core records every decision they act on. The permit
/// counter mirrors the semaphore: the try-acquire path fails exactly when
/// no permit is free.
#[derive(Debug)]
pub struct SessionService {
    pub records: Vec<(String, SessionRecord)>,
    pub max_concurrency: usize,
    pub available_permits: usize,
    pub default_enable_trace: bool,
    pub namespace: Option<String>,
    pub active_streams: usize,
}

impl SessionService {
    pub open spec fn records_view(&self) -> Seq<(String, SessionRecord)> {
        self.records@
    }

    /// Record keys are unique and permits never exceed the bound.
    pub open spec fn wf(&self) -> bool {
        &&& forall|a: int, b: int|
            0 <= a < b < self.records_view().len() ==> (#[trigger] self.records_view()[a]).0@ != (
            #[trigger] self.records_view()[b]).0@
        &&& self.available_permits <= self.max_concurrency
        &&& self.max_concurrency >= 1
    }

    /// A fresh service with all permits free.
    pub fn new(max_concurrency: usize, default_enable_trace: bool, namespace: Option<String>) -> (r:
        Self)
        ensures
            r.wf(),
            r.max_concurrency == if max_concurrency >= 1 {
                max_concurrency
            } else {
                1
            },
            r.available_permits == r.max_concurrency,
            r.default_enable_trace == default_enable_trace,
            r.namespace == namespace,
            r.records_view().len() == 0,
            r.active_streams == 0,
    {
        let cap = if max_concurrency >= 1 {
            max_concurrency
        } else {
            1
        };
        SessionService {
            records: Vec::new(),
            max_concurrency: cap,
            available_permits: cap,
            default_enable_trace,
            namespace,
            active_streams: 0,
        }
    }

    /// Prefix a caller-supplied or minted id with the namespace, unless it
    /// already carries it. With a namespace configured, the result always
    /// starts with it; a supplied id maps exactly (kept when already
    /// prefixed, otherwise `namespace::id`).
    pub fn normalize_session_id(&self, session_id: Option<String>) -> (r: String)
        ensures
            self.namespace is Some ==> spec_starts_with(r@, self.namespace->0@),
            session_id is Some ==> r@ == spec_normalized_id(
                match self.namespace {
                    Option::Some(ref ns) => Option::Some(ns@),
                    Option::None => Option::None,
                },
                session_id->0@,
            ),
    {
        let raw = match session_id {
            Option::Some(s) => s,
            Option::None => crate::workflow::new_session_id(),
        };
        match &self.namespace {
            Option::Some(ns) => {
                if starts_with(raw.as_str(), ns.as_str()) {
                    raw
                } else {
                    let mut out: String = ns.clone();
                    out.append("::");
                    out.append(raw.as_str());
                    proof {
                        assert(out@.subrange(0, ns@.len() as int) =~= ns@);
                    }
                    out
                }
            },
            Option::None => raw,
        }
    }

    /// The try-acquire admission path: succeeds and takes a permit exactly
    /// when one is free; otherwise the caller sees immediate backpressure.
    pub fn try_admit(&mut self) -> (r: bool)
        requires
            old(self).wf(),
        ensures
            final(self).wf(),
            r == (old(self).available_permits > 0),
            r ==> final(self).available_permits == old(self).available_permits - 1,
            !r ==> final(self).available_permits == old(self).available_permits,
            final(self).records_view() == old(self).records_view(),
            final(self).max_concurrency == old(self).max_concurrency,
            final(self).namespace == old(self).namespace,
            final(self).default_enable_trace == old(self).default_enable_trace,
            final(self).active_streams == old(self).active_streams,
    {
        if self.available_permits > 0 {
            self.available_permits = self.available_permits - 1;
            proof {
                assert forall|a: int, b: int|
                    0 <= a < b < self.records_view().len() implies (
                #[trigger] self.records_view()[a]).0@ != (#[trigger] self.records_view()[b]).0@ by {
                    assert((old(self).records_view()[a]).0@ != (old(self).records_view()[b]).0@);
                }
            }
            true
        } else {
            false
        }
    }

    /// The immediate-backpressure admission path as callers see it: an
    /// admission-rejected error exactly when no permit is free.
    pub fn try_acquire_session(&mut self) -> (r: Result<(), crate::error::DeepResearchError>)
        requires
            old(self).wf(),
        ensures
            final(self).wf(),
            r is Ok <==> old(self).available_permits > 0,
            r is Ok ==> final(self).available_permits == old(self).available_permits - 1,
            !(r is Ok) ==> final(self).available_permits == old(self).available_permits,
            r is Err ==> r->Err_0 is AdmissionRejected,
            final(self).records_view() == old(self).records_view(),
            final(self).max_concurrency == old(self).max_concurrency,
    {
        if self.try_admit() {
            Result::Ok(())
        } else {
            Result::Err(crate::error::DeepResearchError::AdmissionRejected)
        }
    }

    /// Return a permit on worker exit; the count never exceeds the bound.
    pub fn release_permit(&mut self)
        requires
            old(self).wf(),
        ensures
            final(self).wf(),
            final(self).available_permits as int == if old(self).available_permits
                < old(self).max_concurrency {
                old(self).available_permits + 1
            } else {
                old(self).available_permits as int
            },
            final(self).records_view() == old(self).records_view(),
            final(self).max_concurrency == old(self).max_concurrency,
    {
        if self.available_permits < self.max_concurrency {
            self.available_permits = self.available_permits + 1;
        }
        proof {
            assert forall|a: int, b: int|
                0 <= a < b < self.records_view().len() implies (
            #[trigger] self.records_view()[a]).0@ != (#[trigger] self.records_view()[b]).0@ by {
                assert((old(self).records_view()[a]).0@ != (old(self).records_view()[b]).0@);
            }
        }
    }

    fn find_record(&self, session_id: &str) -> (r: Option<usize>)
        ensures
            r is Some ==> r->0 < self.records_view().len() && self.records_view()[r->0 as int].0@
                == session_id@,
            r is None ==> forall|j: int|
                0 <= j < self.records_view().len() ==> (#[trigger] self.records_view()[j]).0@
                    != session_id@,
    {
        let mut i: usize = 0;
        while i < self.records.len()
            invariant
                i <= self.records@.len(),
                forall|j: int| 0 <= j < i ==> (#[trigger] self.records@[j]).0@ != session_id@,
            decreases self.records@.len() - i,
        {
            if str_eq(self.records[i].0.as_str(), session_id) {
                return Option::Some(i);
            }
            i = i + 1;
        }
        Option::None
    }

    /// Insert or replace the record stored under an id.
    pub fn put_record(&mut self, session_id: String, record: SessionRecord)
        requires
            old(self).wf(),
        ensures
            final(self).wf(),
            final(self).records_view().len() > 0,
            final(self).records_view().last().0@ == session_id@,
            final(self).records_view().last().1 == record,
            forall|j: int|
                0 <= j < final(self).records_view().len() - 1
                    ==> (#[trigger] final(self).records_view()[j]).0@ != session_id@,
            final(self).max_concurrency == old(self).max_concurrency,
            final(self).available_permits == old(self).available_permits,
    {
        let idx = self.find_record(session_id.as_str());
        match idx {
            Option::Some(i) => {
                let ghost pre = self.records@;
                self.records.remove(i);
                proof {
                    assert forall|a: int, b: int|
                        0 <= a < b < self.records@.len() implies (
                    #[trigger] self.records@[a]).0@ != (#[trigger] self.records@[b]).0@ by {
                        if a < i && b < i {
                            assert(self.records@[a] == pre[a] && self.records@[b] == pre[b]);
                        } else if a < i {
                            assert(self.records@[a] == pre[a] && self.records@[b] == pre[b + 1]);
                        } else {
                            assert(self.records@[a] == pre[a + 1] && self.records@[b] == pre[b
                                + 1]);
                        }
                    }
                    assert forall|j: int| 0 <= j < self.records@.len() implies (
                    #[trigger] self.records@[j]).0@ != session_id@ by {
                        if j < i {
                            assert(self.records@[j] == pre[j]);
                        } else {
                            assert(self.records@[j] == pre[j + 1]);
                        }
                    }
                }
                let ghost mid = self.records@;
                let ghost sid_view = session_id@;
                proof {
                    assert(forall|j: int|
                        0 <= j < mid.len() ==> (#[trigger] mid[j]).0@ != sid_view);
                }
                self.records.push((session_id, record));
                proof {
                    let now = self.records@;
                    assert forall|a: int, b: int|
                        0 <= a < b < now.len() implies (#[trigger] now[a]).0@ != (
                    #[trigger] now[b]).0@ by {
                        if b < now.len() - 1 {
                            assert(now[a] == mid[a] && now[b] == mid[b]);
                        } else {
                            assert(now[a] == mid[a]);
                            assert(mid[a].0@ != sid_view);
                        }
                    }
                }
            },
            Option::None => {
                let ghost prev = *self;
                let ghost sid_view = session_id@;
                self.records.push((session_id, record));
                proof {
                    let now = self.records@;
                    assert forall|a: int, b: int|
                        0 <= a < b < now.len() implies (#[trigger] now[a]).0@ != (
                    #[trigger] now[b]).0@ by {
                        if b < now.len() - 1 {
                            assert(now[a] == prev.records_view()[a] && now[b]
                                == prev.records_view()[b]);
                        } else {
                            assert(now[a] == prev.records_view()[a]);
                            assert((prev.records_view()[a]).0@ != sid_view);
                        }
                    }
                }
            },
        }
    }

    /// The status a record reports.
    fn status_of(session_id: &str, record: &SessionRecord) -> (r: SessionStatus)
        ensures
            r.session_id@ == session_id@,
            record is Running ==> r.state is Running && r.summary is None && r.error is None
                && !r.trace_available && !r.requires_manual,
            record is Completed ==> r.state is Completed && r.summary is Some && r.summary->0@
                == record->Completed_outcome.summary@ && r.error is None && r.trace_available == (
            record->Completed_outcome.trace_events@.len() > 0) && r.requires_manual
                == record->Completed_outcome.requires_manual,
            record is Failed ==> r.state is Failed && r.summary is None && r.error is Some
                && r.error->0@ == record->Failed_error@ && !r.trace_available
                && !r.requires_manual,
    {
        match record {
            SessionRecord::Running => SessionStatus {
                session_id: session_id.to_owned(),
                state: SessionState::Running,
                summary: Option::None,
                error: Option::None,
                trace_available: false,
                requires_manual: false,
            },
            SessionRecord::Completed { outcome, .. } => SessionStatus {
                session_id: session_id.to_owned(),
                state: SessionState::Completed,
                summary: Option::Some(outcome.summary.clone()),
                error: Option::None,
                trace_available: outcome.trace_events.len() > 0,
                requires_manual: outcome.requires_manual,
            },
            SessionRecord::Failed { error, .. } => SessionStatus {
                session_id: session_id.to_owned(),
                state: SessionState::Failed,
                summary: Option::None,
                error: Option::Some(error.clone()),
                trace_available: false,
                requires_manual: false,
            },
        }
    }

    /// The status of one session, when it is tracked.
    pub fn status(&self, session_id: &str) -> (r: Option<SessionStatus>)
        ensures
            r is Some <==> exists|j: int|
                0 <= j < self.records_view().len() && (#[trigger] self.records_view()[j]).0@
                    == session_id@,
            r is Some ==> r->0.session_id@ == session_id@,
    {
        let idx = self.find_record(session_id);
        match idx {
            Option::Some(i) => Option::Some(
                SessionService::status_of(session_id, &self.records[i].1),
            ),
            Option::None => Option::None,
        }
    }

    /// All tracked sessions, in index order.
    pub fn list_sessions(&self) -> (r: Vec<SessionStatus>)
        ensures
            r@.len() == self.records_view().len(),
            forall|j: int|
                0 <= j < r@.len() ==> (#[trigger] r@[j]).session_id@
                    == self.records_view()[j].0@,
    {
        let mut out: Vec<SessionStatus> = Vec::new();
        let mut i: usize = 0;
        while i < self.records.len()
            invariant
                i <= self.records@.len(),
                out@.len() == i,
                forall|j: int|
                    0 <= j < i ==> (#[trigger] out@[j]).session_id@ == self.records@[j].0@,
            decreases self.records@.len() - i,
        {
            out.push(SessionService::status_of(self.records[i].0.as_str(), &self.records[i].1));
            i = i + 1;
        }
        out
    }

    /// How many tracked sessions are still running.
    pub closed spec fn spec_running(records: Seq<(String, SessionRecord)>, n: nat) -> nat
        decreases n,
    {
        if n == 0 {
            0
        } else {
            SessionService::spec_running(records, (n - 1) as nat) + if records[n - 1].1
                is Running {
                1nat
            } else {
                0nat
            }
        }
    }

    /// The observable counters: the admission picture and the index sizes.
    pub fn metrics(&self) -> (r: SessionMetrics)
        ensures
            r.max_concurrency == self.max_concurrency,
            r.available_permits == self.available_permits,
            r.total_sessions == self.records_view().len(),
            r.running_sessions == SessionService::spec_running(
                self.records_view(),
                self.records_view().len() as nat,
            ),
    {
        let mut running: usize = 0;
        let mut i: usize = 0;
        while i < self.records.len()
            invariant
                i <= self.records@.len(),
                running == SessionService::spec_running(self.records@, i as nat),
                running <= i,
            decreases self.records@.len() - i,
        {
            match &self.records[i].1 {
                SessionRecord::Running => {
                    running = running + 1;
                },
                _ => {},
            }
            i = i + 1;
        }
        SessionMetrics {
            max_concurrency: self.max_concurrency,
            available_permits: self.available_permits,
            running_sessions: running,
            total_sessions: self.records.len(),
        }
    }

    /// A subscriber attached to a stream.
    pub fn stream_opened(&mut self)
        ensures
            final(self).active_streams as int == if old(self).active_streams < usize::MAX {
                old(self).active_streams + 1
            } else {
                old(self).active_streams as int
            },
            final(self).records_view() == old(self).records_view(),
    {
        if self.active_streams < usize::MAX {
            self.active_streams = self.active_streams + 1;
        }
    }

    /// A subscriber dropped its stream.
    pub fn stream_closed(&mut self)
        ensures
            final(self).active_streams == if old(self).active_streams > 0 {
                old(self).active_streams - 1
            } else {
                0
            },
            final(self).records_view() == old(self).records_view(),
    {
        if self.active_streams > 0 {
            self.active_streams = self.active_streams - 1;
        }
    }
}



impl SessionService {
    /// Admit a start request: normalize the id, guarantee the prompt's
    /// leading token, mark the session running, and hand back the started
    /// event for subscribers. The worker that runs the session still has
    /// to win a permit.
    pub fn admit_session(&mut self, request: SessionRequest) -> (r: (String, String, bool, SessionEvent))
        requires
            old(self).wf(),
        ensures
            final(self).wf(),
            r.1@ == spec_context7_prompt(request.query@),
            r.2 == match request.enable_trace {
                Option::Some(b) => b,
                Option::None => old(self).default_enable_trace,
            },
            r.3.kind is Started,
            final(self).records_view().len() > 0,
            final(self).records_view().last().0@ == r.0@,
            final(self).records_view().last().1 is Running,
            old(self).namespace is Some ==> spec_starts_with(r.0@, old(self).namespace->0@),
            final(self).available_permits == old(self).available_permits,
            final(self).max_concurrency == old(self).max_concurrency,
    {
        let session_id = self.normalize_session_id(request.session_id);
        let prompt = ensure_context7_prefix(request.query.as_str());
        let enable_trace = match request.enable_trace {
            Option::Some(b) => b,
            Option::None => self.default_enable_trace,
        };
        let event = SessionEvent::started();
        self.put_record(session_id.clone(), SessionRecord::Running);
        (session_id, prompt, enable_trace, event)
    }

    /// Record a successful outcome and hand back the terminal event.
    pub fn complete_session(&mut self, session_id: String, outcome: SessionOutcome) -> (r:
        SessionEvent)
        requires
            old(self).wf(),
        ensures
            final(self).wf(),
            r.kind is Completed,
            r.summary is Some && r.summary->0@ == outcome.summary@,
            r.requires_manual == Option::Some(outcome.requires_manual),
            final(self).records_view().len() > 0,
            final(self).records_view().last().0@ == session_id@,
            final(self).records_view().last().1 is Completed,
    {
        let event = SessionEvent::completed(&outcome);
        let stored = event.clone();
        self.put_record(session_id, SessionRecord::Completed { outcome, event: stored });
        event
    }

    /// Record a failure and hand back the terminal event.
    pub fn fail_session(&mut self, session_id: String, error: String) -> (r: SessionEvent)
        requires
            old(self).wf(),
        ensures
            final(self).wf(),
            r.kind is Error,
            final(self).records_view().len() > 0,
            final(self).records_view().last().0@ == session_id@,
            final(self).records_view().last().1 is Failed,
            final(self).records_view().last().1->Failed_error@ == error@,
    {
        let event = SessionEvent::error(error.as_str());
        let stored = event.clone();
        self.put_record(session_id, SessionRecord::Failed { error, event: stored });
        event
    }

    /// The stored outcome of a completed session: present exactly when the
    /// record under the id is a completed one, and then it is that
    /// record's outcome.
    pub fn outcome(&self, session_id: &str) -> (r: Option<&SessionOutcome>)
        requires
            self.wf(),
        ensures
            r is Some <==> exists|j: int|
                0 <= j < self.records_view().len() && (#[trigger] self.records_view()[j]).0@
                    == session_id@ && self.records_view()[j].1 is Completed,
            r is Some ==> exists|j: int|
                0 <= j < self.records_view().len() && (#[trigger] self.records_view()[j]).0@
                    == session_id@ && self.records_view()[j].1 is Completed && *(r->0)
                    == self.records_view()[j].1->Completed_outcome,
    {
        let idx = self.find_record(session_id);
        match idx {
            Option::Some(i) => {
                match &self.records[i].1 {
                    SessionRecord::Completed { outcome, .. } => {
                        proof {
                            assert(self.records_view()[i as int].0@ == session_id@);
                        }
                        Option::Some(outcome)
                    },
                    _ => {
                        proof {
                            assert forall|j: int|
                                0 <= j < self.records_view().len() && (
                                #[trigger] self.records_view()[j]).0@ == session_id@ implies !(
                            self.records_view()[j].1 is Completed) by {
                                if j != i as int {
                                    assert(self.records_view()[j].0@ != self.records_view()[
                                        i as int
                                    ].0@);
                                }
                            }
                        }
                        Option::None
                    },
                }
            },
            Option::None => Option::None,
        }
    }

    /// The stored terminal event, replayed to late subscribers of a
    /// finished session: present exactly when the record under the id is
    /// terminal, and then it is that record's stored event.
    pub fn terminal_event(&self, session_id: &str) -> (r: Option<&SessionEvent>)
        requires
            self.wf(),
        ensures
            r is Some <==> exists|j: int|
                0 <= j < self.records_view().len() && (#[trigger] self.records_view()[j]).0@
                    == session_id@ && !(self.records_view()[j].1 is Running),
            r is Some ==> exists|j: int|
                0 <= j < self.records_view().len() && (#[trigger] self.records_view()[j]).0@
                    == session_id@ && ((self.records_view()[j].1 is Completed && *(r->0)
                    == self.records_view()[j].1->Completed_event) || (self.records_view()[j].1
                    is Failed && *(r->0) == self.records_view()[j].1->Failed_event)),
    {
        let idx = self.find_record(session_id);
        match idx {
            Option::Some(i) => {
                proof {
                    assert(self.records_view()[i as int].0@ == session_id@);
                }
                match &self.records[i].1 {
                    SessionRecord::Completed { event, .. } => Option::Some(event),
                    SessionRecord::Failed { event, .. } => Option::Some(event),
                    SessionRecord::Running => {
                        proof {
                            assert forall|j: int|
                                0 <= j < self.records_view().len() && (
                                #[trigger] self.records_view()[j]).0@ == session_id@ implies
                            self.records_view()[j].1 is Running by {
                                if j != i as int {
                                    assert(self.records_view()[j].0@ != self.records_view()[
                                        i as int
                                    ].0@);
                                }
                            }
                        }
                        Option::None
                    },
                }
            },
            Option::None => Option::None,
        }
    }
}

} // verus!
