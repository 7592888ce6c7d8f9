//! The pipeline sink's record: one self-contained JSON object per
//! completed session, appended by the service to the dated raw file, and
//! the small computations of the downstream consolidation step.
//!
//! File naming, appending and the columnar writer are I/O and live with
//! the service; the record text and the per-record decisions are built
//! and proved here.

use vstd::prelude::*;
use vstd::string::StringExecFns;

use crate::context::{Context, ctx_bool, ctx_str};
use crate::logging::{json_bool, json_opt_string};
use crate::sandbox::SandboxOutputKind;
use crate::storage::Session;
use crate::strutil::{fmt_json_string, fmt_usize, json_string, spec_digits};
use crate::tasks::{MathToolOutput, MathToolResult};
use crate::workflow::SessionOutcome;

verus! {

/// Where raw pipeline records live by default.
pub fn default_raw_dir() -> (r: String)
    ensures
        r@ == "data/pipeline/raw"@,
{
    "data/pipeline/raw".to_owned()
}

/// Where curated pipeline output lives by default.
pub fn default_curated_dir() -> (r: String)
    ensures
        r@ == "data/pipeline/curated"@,
{
    "data/pipeline/curated".to_owned()
}

/// The wire label of an artifact kind.
pub fn format_kind(kind: &SandboxOutputKind) -> (r: String)
    ensures
        kind is Binary ==> r@ == "binary"@,
        kind is Text ==> r@ == "text"@,
{
    match kind {
        SandboxOutputKind::Binary => "binary".to_owned(),
        SandboxOutputKind::Text => "text".to_owned(),
    }
}

/// One artifact, described for the pipeline record: path, kind label, and
/// the byte count rather than the bytes.
#[derive(Debug)]
pub struct MathArtifactRecord {
    pub path: String,
    pub kind: String,
    pub bytes_len: usize,
}

pub open spec fn artifact_of(a: MathArtifactRecord, o: MathToolOutput) -> bool {
    &&& a.path@ == o.path@
    &&& (o.kind is Binary ==> a.kind@ == "binary"@)
    &&& (o.kind is Text ==> a.kind@ == "text"@)
    &&& a.bytes_len == o.bytes@.len()
}

/// Describe the numeric tool's artifacts for the record.
pub fn collect_math_outputs(result: &MathToolResult) -> (r: Vec<MathArtifactRecord>)
    ensures
        r@.len() == result.outputs@.len(),
        forall|i: int|
            0 <= i < r@.len() ==> artifact_of(#[trigger] r@[i], result.outputs@[i]),
{
    let mut out: Vec<MathArtifactRecord> = Vec::new();
    let mut i: usize = 0;
    while i < result.outputs.len()
        invariant
            i <= result.outputs@.len(),
            out@.len() == i,
            forall|j: int| 0 <= j < i ==> artifact_of(#[trigger] out@[j], result.outputs@[j]),
        decreases result.outputs@.len() - i,
    {
        let o = &result.outputs[i];
        let item = MathArtifactRecord {
            path: o.path.clone(),
            kind: format_kind(&o.kind),
            bytes_len: o.bytes.len(),
        };
        proof {
            assert(artifact_of(item, result.outputs@[i as int]));
        }
        out.push(item);
        i = i + 1;
    }
    out
}

/// One artifact as a JSON object.
pub open spec fn artifact_json(a: MathArtifactRecord) -> Seq<char> {
    "{\"path\":"@ + json_string(a.path@) + ",\"kind\":"@ + json_string(a.kind@)
        + ",\"bytes_len\":"@ + spec_digits(a.bytes_len as nat) + "}"@
}

pub open spec fn artifacts_json_items(items: Seq<MathArtifactRecord>, n: nat) -> Seq<char>
    decreases n,
{
    if n == 0 {
        seq!['[']
    } else if n == 1 {
        seq!['['] + artifact_json(items[0])
    } else {
        artifacts_json_items(items, (n - 1) as nat) + seq![','] + artifact_json(items[n - 1])
    }
}

pub open spec fn artifacts_json(items: Seq<MathArtifactRecord>) -> Seq<char> {
    artifacts_json_items(items, items.len()).push(']')
}

fn fmt_artifacts_json(items: &Vec<MathArtifactRecord>) -> (r: String)
    ensures
        r@ == artifacts_json(items@),
{
    let mut out = String::new();
    crate::strutil::push_char(&mut out, '[');
    proof {
        assert(out@ =~= artifacts_json_items(items@, 0));
    }
    let mut i: usize = 0;
    while i < items.len()
        invariant
            i <= items@.len(),
            out@ == artifacts_json_items(items@, i as nat),
        decreases items@.len() - i,
    {
        if i > 0 {
            crate::strutil::push_char(&mut out, ',');
        }
        let a = &items[i];
        let mut piece: String = "{\"path\":".to_owned();
        piece.append(fmt_json_string(a.path.as_str()).as_str());
        piece.append(",\"kind\":");
        piece.append(fmt_json_string(a.kind.as_str()).as_str());
        piece.append(",\"bytes_len\":");
        piece.append(fmt_usize(a.bytes_len).as_str());
        piece.append("}");
        out.append(piece.as_str());
        proof {
            if i == 0 {
                assert(out@ =~= artifacts_json_items(items@, 1));
            } else {
                assert(out@ =~= artifacts_json_items(items@, (i + 1) as nat));
            }
        }
        i = i + 1;
    }
    crate::strutil::push_char(&mut out, ']');
    out
}

/// What the pipeline record reports of the numeric-tool keys: the status
/// label (defaulting to `skipped`), the alert flag, and the streams.
pub open spec fn spec_math_status_field(m: Map<Seq<char>, crate::context::CtxValue>) -> Seq<char> {
    match ctx_str(m, "math.status"@) {
        Option::Some(s) => s,
        Option::None => "skipped"@,
    }
}

pub open spec fn spec_math_text_field(
    m: Map<Seq<char>, crate::context::CtxValue>,
    k: Seq<char>,
) -> Seq<char> {
    match ctx_str(m, k) {
        Option::Some(s) => s,
        Option::None => Seq::<char>::empty(),
    }
}

/// The canonical pipeline record for a completed session, as one JSON
/// line: id, timestamp, query, verdict, manual flag, the numeric-tool
/// summary, and the trace path when one exists.
pub open spec fn spec_session_record_line(
    ts: Seq<char>,
    m: Map<Seq<char>, crate::context::CtxValue>,
    outcome_session_id: Seq<char>,
    requires_manual: bool,
    trace_path: Option<Seq<char>>,
    artifacts: Seq<MathArtifactRecord>,
) -> Seq<char> {
    "{\"session_id\":"@ + json_string(outcome_session_id) + ",\"timestamp\":"@ + json_string(ts)
        + ",\"query\":"@ + json_string(spec_math_text_field(m, "query"@)) + ",\"verdict\":"@
        + json_string(spec_math_text_field(m, "critique.verdict"@))
        + ",\"requires_manual_review\":"@ + json_bool(requires_manual) + ",\"math_status\":"@
        + json_string(spec_math_status_field(m)) + ",\"math_alert_required\":"@ + json_bool(
        ctx_bool(m, "math.alert_required"@) == Option::Some(true),
    ) + ",\"math_outputs\":"@ + artifacts_json(artifacts) + ",\"math_stdout\":"@ + json_string(
        spec_math_text_field(m, "math.stdout"@),
    ) + ",\"math_stderr\":"@ + json_string(spec_math_text_field(m, "math.stderr"@))
        + ",\"trace_path\":"@ + json_opt_string(trace_path) + "}"@
}

/// Build the pipeline record for a finished session at the given
/// wall-clock timestamp. The service appends the line to the dated raw
/// file; a failure to do so is logged and non-fatal there.
pub fn session_record_line(timestamp: &str, session: &Session, outcome: &SessionOutcome) -> (r:
    String)
    ensures
        ({
            let m = session.context@;
            let artifacts_src = if m.contains_key("math.result"@) && m["math.result"@]
                is MathRes {
                m["math.result"@]->MathRes_0.outputs@
            } else {
                Seq::<MathToolOutput>::empty()
            };
            exists|arts: Seq<MathArtifactRecord>|
                {
                    &&& arts.len() == artifacts_src.len()
                    &&& (forall|i: int|
                        0 <= i < arts.len() ==> artifact_of(#[trigger] arts[i], artifacts_src[i]))
                    &&& r@ == spec_session_record_line(
                        timestamp@,
                        m,
                        outcome.session_id@,
                        outcome.requires_manual,
                        match outcome.trace_path {
                            Option::Some(p) => Option::Some(p@),
                            Option::None => Option::None,
                        },
                        arts,
                    )
                }
        }),
{
    let math_result = session.context.get_math_result("math.result");
    let artifacts: Vec<MathArtifactRecord> = match &math_result {
        Option::Some(res) => collect_math_outputs(res),
        Option::None => Vec::new(),
    };
    let math_status = match session.context.get_str("math.status") {
        Option::Some(s) => s,
        Option::None => "skipped".to_owned(),
    };
    let alert = match session.context.get_bool("math.alert_required") {
        Option::Some(b) => b,
        Option::None => false,
    };
    let stdout_text = match session.context.get_str("math.stdout") {
        Option::Some(s) => s,
        Option::None => String::new(),
    };
    let stderr_text = match session.context.get_str("math.stderr") {
        Option::Some(s) => s,
        Option::None => String::new(),
    };
    let query = match session.context.get_str("query") {
        Option::Some(s) => s,
        Option::None => String::new(),
    };
    let verdict = match session.context.get_str("critique.verdict") {
        Option::Some(s) => s,
        Option::None => String::new(),
    };

    let mut line: String = "{\"session_id\":".to_owned();
    line.append(fmt_json_string(outcome.session_id.as_str()).as_str());
    line.append(",\"timestamp\":");
    line.append(fmt_json_string(timestamp).as_str());
    line.append(",\"query\":");
    line.append(fmt_json_string(query.as_str()).as_str());
    line.append(",\"verdict\":");
    line.append(fmt_json_string(verdict.as_str()).as_str());
    line.append(",\"requires_manual_review\":");
    if outcome.requires_manual {
        line.append("true");
    } else {
        line.append("false");
    }
    line.append(",\"math_status\":");
    line.append(fmt_json_string(math_status.as_str()).as_str());
    line.append(",\"math_alert_required\":");
    if alert {
        line.append("true");
    } else {
        line.append("false");
    }
    line.append(",\"math_outputs\":");
    line.append(fmt_artifacts_json(&artifacts).as_str());
    line.append(",\"math_stdout\":");
    line.append(fmt_json_string(stdout_text.as_str()).as_str());
    line.append(",\"math_stderr\":");
    line.append(fmt_json_string(stderr_text.as_str()).as_str());
    line.append(",\"trace_path\":");
    match &outcome.trace_path {
        Option::Some(p) => {
            line.append(fmt_json_string(p.as_str()).as_str());
        },
        Option::None => {
            line.append("null");
        },
    }
    line.append("}");
    line
}

/// A record is consolidated unless consent was explicitly withdrawn.
pub fn consent_allows(consent_provided: Option<bool>) -> (r: bool)
    ensures
        r == (consent_provided != Option::Some(false)),
{
    match consent_provided {
        Option::Some(false) => false,
        _ => true,
    }
}

/// The three 32-bit words of a 96-bit timestamp cell: the nanosecond count
/// split little-end first, the highest word zero for any 64-bit input.
pub fn int96_words(nanos: i64) -> (r: (u32, u32, u32))
    ensures
        r.0 == (nanos as u64) & 0xFFFF_FFFF,
        r.1 == ((nanos as u64) >> 32) & 0xFFFF_FFFF,
        r.2 == 0,
{
    let u = nanos as u64;
    let w0 = (u & 0xFFFF_FFFF) as u32;
    let w1 = ((u >> 32) & 0xFFFF_FFFF) as u32;
    proof {
        assert(u & 0xFFFF_FFFF <= 0xFFFF_FFFF && (u >> 32) & 0xFFFF_FFFF <= 0xFFFF_FFFF)
            by (bit_vector);
    }
    (w0, w1, 0)
}

} // verus!
