//! Telemetry records: what the service reports to operators, built as
//! plain values. The service hands them to its log subscriber; the
//! threshold decision for elevated sandbox telemetry is exact.

use vstd::prelude::*;
use vstd::string::StringExecFns;

use crate::strutil::{fmt_u64, fmt_usize, spec_digits};

verus! {

/// Options for installing the log subscriber.
#[derive(Debug)]
pub struct TelemetryOptions {
    pub env_filter: Option<String>,
    pub with_ansi: bool,
}

impl Default for TelemetryOptions {
    fn default() -> (r: Self)
        ensures
            r.env_filter is None,
            r.with_ansi,
    {
        TelemetryOptions { env_filter: Option::None, with_ansi: true }
    }
}

/// One structured telemetry record: a severity, a message, and labeled
/// fields.
#[derive(Debug, Clone, Copy, PartialEq, Eq, Structural)]
pub enum TelemetrySeverity {
    Info,
    Warn,
    Elevated,
}

#[derive(Debug)]
pub struct TelemetryRecord {
    pub severity: TelemetrySeverity,
    pub message: String,
    pub fields: Vec<(String, String)>,
}

/// The record announcing a configured collector endpoint.
pub fn init_telemetry(endpoint: &str) -> (r: TelemetryRecord)
    ensures
        r.severity is Info,
        r.fields@.len() == 1,
        r.fields@[0].0@ == "endpoint"@,
        r.fields@[0].1@ == endpoint@,
{
    let mut fields: Vec<(String, String)> = Vec::new();
    fields.push(("endpoint".to_owned(), endpoint.to_owned()));
    TelemetryRecord {
        severity: TelemetrySeverity::Info,
        message: "telemetry endpoint configured; forward spans via a collector-side subscriber".to_owned(),
        fields,
    }
}

/// Symmetric counterpart of subscriber shutdown; nothing to release.
pub fn shutdown_metrics() {
}

fn counters_fields(session_id: &str, running: usize, available_permits: usize) -> (r: Vec<(
    String,
    String,
)>)
    ensures
        r@.len() == 3,
        r@[0].0@ == "session_id"@ && r@[0].1@ == session_id@,
        r@[1].0@ == "running_sessions"@ && r@[1].1@ == spec_digits(running as nat),
        r@[2].0@ == "available_permits"@ && r@[2].1@ == spec_digits(available_permits as nat),
{
    let mut fields: Vec<(String, String)> = Vec::new();
    fields.push(("session_id".to_owned(), session_id.to_owned()));
    fields.push(("running_sessions".to_owned(), fmt_usize(running)));
    fields.push(("available_permits".to_owned(), fmt_usize(available_permits)));
    fields
}

/// A session was admitted.
pub fn session_started(session_id: &str, running: usize, available_permits: usize) -> (r:
    TelemetryRecord)
    ensures
        r.severity is Info,
        r.message@ == "session_started"@,
        r.fields@.len() == 3,
        r.fields@[0].1@ == session_id@,
{
    TelemetryRecord {
        severity: TelemetrySeverity::Info,
        message: "session_started".to_owned(),
        fields: counters_fields(session_id, running, available_permits),
    }
}

/// A session finished.
pub fn session_completed(
    session_id: &str,
    requires_manual: bool,
    trace_events: usize,
    running: usize,
    available_permits: usize,
) -> (r: TelemetryRecord)
    ensures
        r.severity is Info,
        r.message@ == "session_completed"@,
        r.fields@.len() == 5,
        r.fields@[0].1@ == session_id@,
        r.fields@[3].0@ == "requires_manual"@,
        r.fields@[3].1@ == (if requires_manual {
            "true"@
        } else {
            "false"@
        }),
        r.fields@[4].0@ == "trace_events"@ && r.fields@[4].1@ == spec_digits(trace_events as nat),
{
    let mut fields = counters_fields(session_id, running, available_permits);
    fields.push(
        (
            "requires_manual".to_owned(),
            if requires_manual {
                "true".to_owned()
            } else {
                "false".to_owned()
            },
        ),
    );
    fields.push(("trace_events".to_owned(), fmt_usize(trace_events)));
    TelemetryRecord {
        severity: TelemetrySeverity::Info,
        message: "session_completed".to_owned(),
        fields,
    }
}

/// A session failed.
pub fn session_failed(session_id: &str, running: usize, available_permits: usize, error: &str) -> (
    r: TelemetryRecord)
    ensures
        r.severity is Warn,
        r.message@ == "session_failed"@,
        r.fields@.len() == 4,
        r.fields@[0].1@ == session_id@,
        r.fields@[3].0@ == "error"@ && r.fields@[3].1@ == error@,
{
    let mut fields = counters_fields(session_id, running, available_permits);
    fields.push(("error".to_owned(), error.to_owned()));
    TelemetryRecord {
        severity: TelemetrySeverity::Warn,
        message: "session_failed".to_owned(),
        fields,
    }
}

/// A subscriber attached to an event stream.
pub fn stream_opened(session_id: &str, active_streams: usize) -> (r: TelemetryRecord)
    ensures
        r.severity is Info,
        r.message@ == "stream_opened"@,
        r.fields@.len() == 2,
        r.fields@[0].1@ == session_id@,
        r.fields@[1].0@ == "active_streams"@ && r.fields@[1].1@ == spec_digits(
            active_streams as nat,
        ),
{
    let mut fields: Vec<(String, String)> = Vec::new();
    fields.push(("session_id".to_owned(), session_id.to_owned()));
    fields.push(("active_streams".to_owned(), fmt_usize(active_streams)));
    TelemetryRecord { severity: TelemetrySeverity::Info, message: "stream_opened".to_owned(), fields }
}

/// A subscriber dropped its event stream.
pub fn stream_closed(session_id: &str, active_streams: usize) -> (r: TelemetryRecord)
    ensures
        r.severity is Info,
        r.message@ == "stream_closed"@,
        r.fields@.len() == 2,
        r.fields@[0].1@ == session_id@,
{
    let mut fields: Vec<(String, String)> = Vec::new();
    fields.push(("session_id".to_owned(), session_id.to_owned()));
    fields.push(("active_streams".to_owned(), fmt_usize(active_streams)));
    TelemetryRecord { severity: TelemetrySeverity::Info, message: "stream_closed".to_owned(), fields }
}

/// The warning emitted when ingestion is requested without a dense
/// backend configured.
pub fn warn_stub_ingest() -> (r: TelemetryRecord)
    ensures
        r.severity is Warn,
        r.message@ == "no dense backend configured; ingestion kept in the in-memory stub"@,
{
    TelemetryRecord {
        severity: TelemetrySeverity::Warn,
        message: "no dense backend configured; ingestion kept in the in-memory stub".to_owned(),
        fields: Vec::new(),
    }
}

/// What one sandbox run adds to the counters: one run always, and one
/// alert exactly when the failure streak has reached three.
pub fn record_sandbox_metrics(duration_ms: u64, outputs: usize, failure_streak: u64) -> (r: (
    u64,
    u64,
))
    ensures
        r.0 == 1,
        r.1 == if failure_streak >= 3 {
            1u64
        } else {
            0u64
        },
{
    let alert: u64 = if failure_streak >= 3 {
        1
    } else {
        0
    };
    (1, alert)
}

} // verus!
