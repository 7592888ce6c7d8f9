//! The task library's data model: the numeric-tool request and result, the
//! analyst's structured output, and fact-check settings.
//!
//! Confidence values are exact rationals over the source counts; where the
//! context or a rendering needs a number, it is carried in hundredths
//! (75 stands for 0.75).

use vstd::prelude::*;
use vstd::string::StringExecFns;

use crate::sandbox::{
    FailureStreak, SandboxFile, SandboxOutput, SandboxOutputKind, SandboxOutputSpec, SandboxResult,
    spec_run_success,
};
use crate::context::{
    Context, CtxValue, ctx_bool, ctx_hundredths, ctx_opt_int, ctx_str, ctx_strings, ctx_u64,
    preserves_except, schema_keys_distinct, trace_events_of, traced_step,
};
use crate::retrieval::RetrievedDocument;
use crate::strutil::{
    clone_bytes, clone_opt_string, clone_string_vec, fmt_hundredths, fmt_usize, is_blank,
    join_strings, join_upto, spec_count_char, spec_digits, spec_hundredths, spec_is_blank,
};
use crate::trace::TraceCollector;

verus! {

/// Settings for the fact-check step. The confidence floor is in hundredths.
#[derive(Debug, Clone, Copy)]
pub struct FactCheckSettings {
    pub min_confidence_hundredths: u32,
    pub verification_count: usize,
    pub timeout_ms: u64,
}

impl Default for FactCheckSettings {
    /// A 0.75 confidence floor, three verified sources, and a generous
    /// verification timeout.
    fn default() -> (s: Self)
        ensures
            s.min_confidence_hundredths == 75,
            s.verification_count == 3,
            s.timeout_ms == 20000,
    {
        FactCheckSettings {
            min_confidence_hundredths: 75,
            verification_count: 3,
            timeout_ms: 20000,
        }
    }
}

/// A request for the numeric tool, carried in the context.
#[derive(Debug)]
pub struct MathToolRequest {
    pub script_name: Option<String>,
    pub script: String,
    pub args: Vec<String>,
    pub files: Vec<SandboxFile>,
    pub expected_outputs: Vec<SandboxOutputSpec>,
    pub timeout_ms: Option<u64>,
}

impl Default for MathToolRequest {
    fn default() -> (r: Self)
        ensures
            r.script_name is None,
            r.script@.len() == 0,
            r.args@.len() == 0,
            r.files@.len() == 0,
            r.expected_outputs@.len() == 0,
            r.timeout_ms is None,
    {
        MathToolRequest {
            script_name: Option::None,
            script: String::new(),
            args: Vec::new(),
            files: Vec::new(),
            expected_outputs: Vec::new(),
            timeout_ms: Option::None,
        }
    }
}

/// Two requests carry the same data, field by field, compared by view.
pub open spec fn math_request_like(a: MathToolRequest, b: MathToolRequest) -> bool {
    &&& (a.script_name is Some <==> b.script_name is Some)
    &&& (a.script_name is Some ==> a.script_name->0@ == b.script_name->0@)
    &&& a.script@ == b.script@
    &&& a.args@ == b.args@
    &&& a.files@.len() == b.files@.len()
    &&& forall|i: int|
        0 <= i < a.files@.len() ==> crate::sandbox::sandbox_file_like(
            #[trigger] a.files@[i],
            b.files@[i],
        )
    &&& a.expected_outputs@ == b.expected_outputs@
    &&& a.timeout_ms == b.timeout_ms
}

impl Clone for MathToolRequest {
    fn clone(&self) -> (r: Self)
        ensures
            math_request_like(r, *self),
    {
        let mut files: Vec<SandboxFile> = Vec::new();
        let mut i: usize = 0;
        while i < self.files.len()
            invariant
                i <= self.files@.len(),
                files@.len() == i,
                forall|j: int|
                    0 <= j < i ==> crate::sandbox::sandbox_file_like(
                        #[trigger] files@[j],
                        self.files@[j],
                    ),
            decreases self.files@.len() - i,
        {
            let item = self.files[i].clone();
            proof {
                assert(crate::sandbox::sandbox_file_like(item, self.files@[i as int]));
            }
            files.push(item);
            i = i + 1;
        }
        let mut outputs: Vec<SandboxOutputSpec> = Vec::new();
        let mut k: usize = 0;
        while k < self.expected_outputs.len()
            invariant
                k <= self.expected_outputs@.len(),
                outputs@ == self.expected_outputs@.subrange(0, k as int),
            decreases self.expected_outputs@.len() - k,
        {
            outputs.push(self.expected_outputs[k].clone());
            proof {
                assert(outputs@ =~= self.expected_outputs@.subrange(0, k + 1 as int));
            }
            k = k + 1;
        }
        proof {
            assert(outputs@ =~= self.expected_outputs@);
        }
        MathToolRequest {
            script_name: clone_opt_string(&self.script_name),
            script: self.script.clone(),
            args: clone_string_vec(&self.args),
            files,
            expected_outputs: outputs,
            timeout_ms: match self.timeout_ms {
                Option::Some(t) => Option::Some(t),
                Option::None => Option::None,
            },
        }
    }
}

/// One artifact produced by the numeric tool.
#[derive(Debug)]
pub struct MathToolOutput {
    pub path: String,
    pub kind: SandboxOutputKind,
    pub bytes: Vec<u8>,
}

pub open spec fn math_output_like(a: MathToolOutput, b: MathToolOutput) -> bool {
    &&& a.path@ == b.path@
    &&& a.kind == b.kind
    &&& a.bytes@ == b.bytes@
}

pub open spec fn math_outputs_like(a: Seq<MathToolOutput>, b: Seq<MathToolOutput>) -> bool {
    &&& a.len() == b.len()
    &&& forall|i: int| 0 <= i < a.len() ==> math_output_like(#[trigger] a[i], b[i])
}

impl Clone for MathToolOutput {
    fn clone(&self) -> (r: Self)
        ensures
            math_output_like(r, *self),
    {
        let mut bytes: Vec<u8> = Vec::new();
        let mut i: usize = 0;
        while i < self.bytes.len()
            invariant
                i <= self.bytes@.len(),
                bytes@ == self.bytes@.subrange(0, i as int),
            decreases self.bytes@.len() - i,
        {
            bytes.push(self.bytes[i]);
            proof {
                assert(bytes@ =~= self.bytes@.subrange(0, i + 1 as int));
            }
            i = i + 1;
        }
        proof {
            assert(bytes@ =~= self.bytes@);
        }
        MathToolOutput { path: self.path.clone(), kind: self.kind, bytes }
    }
}

pub fn clone_math_outputs(v: &Vec<MathToolOutput>) -> (r: Vec<MathToolOutput>)
    ensures
        math_outputs_like(r@, v@),
{
    let mut out: Vec<MathToolOutput> = Vec::new();
    let mut i: usize = 0;
    while i < v.len()
        invariant
            i <= v@.len(),
            out@.len() == i,
            forall|j: int| 0 <= j < i ==> math_output_like(#[trigger] out@[j], v@[j]),
        decreases v@.len() - i,
    {
        out.push(v[i].clone());
        i = i + 1;
    }
    out
}

/// Outcome classification of a numeric-tool run.
#[derive(Debug, Clone, Copy, PartialEq, Eq, Structural)]
pub enum MathToolStatus {
    Skipped,
    Success,
    Timeout,
    Failure,
}

impl MathToolStatus {
    /// The lowercase wire label for this status.
    pub fn label(&self) -> (r: String)
        ensures
            r@ == self.spec_label(),
    {
        match self {
            MathToolStatus::Skipped => "skipped".to_owned(),
            MathToolStatus::Success => "success".to_owned(),
            MathToolStatus::Timeout => "timeout".to_owned(),
            MathToolStatus::Failure => "failure".to_owned(),
        }
    }

    pub open spec fn spec_label(&self) -> Seq<char> {
        match self {
            MathToolStatus::Skipped => "skipped"@,
            MathToolStatus::Success => "success"@,
            MathToolStatus::Timeout => "timeout"@,
            MathToolStatus::Failure => "failure"@,
        }
    }
}

/// The numeric-tool outcome as persisted into the context.
#[derive(Debug)]
pub struct MathToolResult {
    pub status: MathToolStatus,
    pub exit_code: Option<i32>,
    pub timed_out: bool,
    pub duration_ms: u64,
    pub stdout: String,
    pub stderr: String,
    pub outputs: Vec<MathToolOutput>,
}

pub open spec fn math_result_like(a: MathToolResult, b: MathToolResult) -> bool {
    &&& a.status == b.status
    &&& a.exit_code == b.exit_code
    &&& a.timed_out == b.timed_out
    &&& a.duration_ms == b.duration_ms
    &&& a.stdout@ == b.stdout@
    &&& a.stderr@ == b.stderr@
    &&& math_outputs_like(a.outputs@, b.outputs@)
}

impl Default for MathToolResult {
    /// The skipped result: no execution happened at all.
    fn default() -> (r: Self)
        ensures
            r.status == MathToolStatus::Skipped,
            r.exit_code is None,
            !r.timed_out,
            r.duration_ms == 0,
            r.stdout@.len() == 0,
            r.stderr@.len() == 0,
            r.outputs@.len() == 0,
    {
        MathToolResult {
            status: MathToolStatus::Skipped,
            exit_code: Option::None,
            timed_out: false,
            duration_ms: 0,
            stdout: String::new(),
            stderr: String::new(),
            outputs: Vec::new(),
        }
    }
}

impl Clone for MathToolResult {
    fn clone(&self) -> (r: Self)
        ensures
            math_result_like(r, *self),
    {
        MathToolResult {
            status: self.status,
            exit_code: self.exit_code,
            timed_out: self.timed_out,
            duration_ms: self.duration_ms,
            stdout: self.stdout.clone(),
            stderr: self.stderr.clone(),
            outputs: clone_math_outputs(&self.outputs),
        }
    }
}

/// One harvested artifact, carried over field by field.
pub open spec fn output_converted(a: MathToolOutput, b: SandboxOutput) -> bool {
    &&& a.path@ == b.spec.path@
    &&& a.kind == b.spec.kind
    &&& a.bytes@ == b.bytes@
}

/// The status a sandbox outcome classifies to: timeout wins, then exit code
/// zero is success, anything else is failure.
pub open spec fn spec_status_of_run(timed_out: bool, exit_code: Option<i32>) -> MathToolStatus {
    if timed_out {
        MathToolStatus::Timeout
    } else if spec_run_success(timed_out, exit_code) {
        MathToolStatus::Success
    } else {
        MathToolStatus::Failure
    }
}

impl MathToolResult {
    /// Convert a raw sandbox outcome, classifying its status and copying the
    /// streams and artifacts over.
    pub fn from_sandbox(result: SandboxResult) -> (r: Self)
        ensures
            r.status == spec_status_of_run(result.timed_out, result.exit_code),
            r.exit_code == result.exit_code,
            r.timed_out == result.timed_out,
            r.duration_ms == result.duration_ms,
            r.stdout@ == result.stdout@,
            r.stderr@ == result.stderr@,
            r.outputs@.len() == result.outputs@.len(),
            forall|i: int|
                0 <= i < r.outputs@.len() ==> output_converted(
                    #[trigger] r.outputs@[i],
                    result.outputs@[i],
                ),
    {
        let status = if result.timed_out {
            MathToolStatus::Timeout
        } else {
            match result.exit_code {
                Option::Some(code) => if code == 0 {
                    MathToolStatus::Success
                } else {
                    MathToolStatus::Failure
                },
                Option::None => MathToolStatus::Failure,
            }
        };
        let mut outputs: Vec<MathToolOutput> = Vec::new();
        let mut i: usize = 0;
        while i < result.outputs.len()
            invariant
                i <= result.outputs@.len(),
                outputs@.len() == i,
                forall|j: int|
                    0 <= j < i ==> output_converted(#[trigger] outputs@[j], result.outputs@[j]),
            decreases result.outputs@.len() - i,
        {
            let o = &result.outputs[i];
            let item = MathToolOutput {
                path: o.spec.path.clone(),
                kind: o.spec.kind,
                bytes: clone_bytes(&o.bytes),
            };
            proof {
                assert(output_converted(item, result.outputs@[i as int]));
            }
            outputs.push(item);
            i = i + 1;
        }
        MathToolResult {
            status,
            exit_code: result.exit_code,
            timed_out: result.timed_out,
            duration_ms: result.duration_ms,
            stdout: result.stdout,
            stderr: result.stderr,
            outputs,
        }
    }
}

/// The analyst's structured synthesis.
#[derive(Debug)]
pub struct AnalystOutput {
    pub summary: String,
    pub highlight: String,
    pub sources: Vec<String>,
}

pub open spec fn analyst_like(a: AnalystOutput, b: AnalystOutput) -> bool {
    &&& a.summary@ == b.summary@
    &&& a.highlight@ == b.highlight@
    &&& a.sources@ == b.sources@
}

impl Default for AnalystOutput {
    fn default() -> (r: Self)
        ensures
            r.summary@.len() == 0,
            r.highlight@.len() == 0,
            r.sources@.len() == 0,
    {
        AnalystOutput { summary: String::new(), highlight: String::new(), sources: Vec::new() }
    }
}

impl Clone for AnalystOutput {
    fn clone(&self) -> (r: Self)
        ensures
            analyst_like(r, *self),
    {
        AnalystOutput {
            summary: self.summary.clone(),
            highlight: self.highlight.clone(),
            sources: clone_string_vec(&self.sources),
        }
    }
}


/// What a task tells the engine to do next.
#[derive(Debug, Clone, Copy, PartialEq, Eq, Structural)]
pub enum NextAction {
    ContinueAndExecute,
    WaitingForInput,
    End,
}

/// The outcome of one task step.
#[derive(Debug)]
pub struct TaskResult {
    pub message: Option<String>,
    pub next_action: NextAction,
}

impl TaskResult {
    pub fn new(message: Option<String>, next_action: NextAction) -> (r: Self)
        ensures
            (r.message is Some <==> message is Some),
            message is Some ==> r.message->0@ == message->0@,
            r.next_action == next_action,
    {
        TaskResult { message, next_action }
    }
}

/// Record one trace line for a task, when tracing is enabled.
pub fn record_trace(ctx: &mut Context, task_id: &str, message: String)
    ensures
        traced_step(old(ctx)@, final(ctx)@, task_id@),
        preserves_except(old(ctx)@, final(ctx)@, set!["trace.collector"@]),
{
    let enabled = match ctx.get_bool("trace.enabled") {
        Option::Some(b) => b,
        Option::None => false,
    };
    if !enabled {
        return ;
    }
    let mut collector = match ctx.get_trace("trace.collector") {
        Option::Some(c) => c,
        Option::None => TraceCollector::new(),
    };
    collector.record(task_id.to_owned(), message);
    ctx.set("trace.collector".to_owned(), CtxValue::Trace(collector));
    proof {
        assert(trace_events_of(ctx@).subrange(0, trace_events_of(old(ctx)@).len() as int)
            =~= trace_events_of(old(ctx)@));
    }
}

/// The two example sources assumed when research recorded none at all.
pub fn default_sources() -> (r: Vec<String>)
    ensures
        r.deep_view() =~= seq![
            "https://example.com/industry-overview"@,
            "https://example.com/market-trends"@,
        ],
{
    let mut v: Vec<String> = Vec::new();
    v.push("https://example.com/industry-overview".to_owned());
    v.push("https://example.com/market-trends".to_owned());
    v
}

/// The query the researcher works on: the stored one, or a generic default.
pub open spec fn spec_effective_query(m: Map<Seq<char>, CtxValue>) -> Seq<char> {
    match ctx_str(m, "query"@) {
        Option::Some(q) => q,
        Option::None => "general market outlook"@,
    }
}

/// The document texts, in order.
pub open spec fn findings_upto(docs: Seq<RetrievedDocument>, n: nat) -> Seq<Seq<char>>
    decreases n,
{
    if n == 0 {
        Seq::<Seq<char>>::empty()
    } else {
        findings_upto(docs, (n - 1) as nat).push(docs[n - 1].text@)
    }
}

/// The document sources that exist, in order.
pub open spec fn sources_upto(docs: Seq<RetrievedDocument>, n: nat) -> Seq<Seq<char>>
    decreases n,
{
    if n == 0 {
        Seq::<Seq<char>>::empty()
    } else {
        let rest = sources_upto(docs, (n - 1) as nat);
        match docs[n - 1].source {
            Option::Some(src) => rest.push(src@),
            Option::None => rest,
        }
    }
}

/// When every document carries a source, the recorded source list has one
/// entry per document.
pub proof fn lemma_sources_upto_len(docs: Seq<RetrievedDocument>, n: nat)
    requires
        n <= docs.len(),
        forall|i: int| 0 <= i < n ==> (#[trigger] docs[i]).source is Some,
    ensures
        sources_upto(docs, n).len() == n,
    decreases n,
{
    if n > 0 {
        lemma_sources_upto_len(docs, (n - 1) as nat);
    }
}

/// The recorded findings list has one entry per document.
pub proof fn lemma_findings_upto_len(docs: Seq<RetrievedDocument>, n: nat)
    requires
        n <= docs.len(),
    ensures
        findings_upto(docs, n).len() == n,
    decreases n,
{
    if n > 0 {
        lemma_findings_upto_len(docs, (n - 1) as nat);
    }
}

/// A non-empty synthesis always closes with a sentence mark, so the
/// critic's two-sentence check is met by the trailing period alone.
pub proof fn lemma_analyst_summary_has_period(findings: Seq<Seq<char>>, n_sources: nat)
    requires
        findings.len() > 0,
    ensures
        spec_count_char(spec_analyst_summary(findings, n_sources), '.') >= 1,
{
    reveal_strlit(" sources.");
    let s = spec_analyst_summary(findings, n_sources);
    assert(s[s.len() - 1] == '.');
    crate::strutil::lemma_count_char_positive(s, '.', s.len() - 1, s.len() as nat);
}

/// Every hit is worthless: non-positive score or blank text.
pub open spec fn all_degenerate(docs: Seq<RetrievedDocument>) -> bool {
    forall|i: int|
        0 <= i < docs.len() ==> (#[trigger] docs[i]).score_milli <= 0 || spec_is_blank(
            docs[i].text@,
        )
}

/// The findings and sources the researcher records for a given retrieval
/// outcome: the hits as returned; a single placeholder insight without any
/// source when every hit is worthless (a placeholder carries no source, so
/// the fact-check sees no coverage and the critic stays unconvinced); a
/// diagnostic placeholder when retrieval failed.
pub open spec fn researcher_output(
    m0: Map<Seq<char>, CtxValue>,
    retrieval: Result<Vec<RetrievedDocument>, String>,
) -> (Seq<Seq<char>>, Seq<Seq<char>>) {
    match retrieval {
        Result::Ok(results) => if all_degenerate(results@) {
            (
                seq!["Automated placeholder insight. Additional manual review recommended."@],
                Seq::<Seq<char>>::empty(),
            )
        } else {
            (findings_upto(results@, results@.len()), sources_upto(results@, results@.len()))
        },
        Result::Err(e) => (
            seq!["Unable to query memory for '"@ + spec_effective_query(m0) + "'"@],
            seq!["stub://error"@],
        ),
    }
}

/// The researcher step: record findings and sources from the retrieval
/// outcome. It always succeeds; a failed retrieval degrades to a
/// placeholder finding.
pub fn run_researcher(
    ctx: &mut Context,
    retrieval: Result<Vec<RetrievedDocument>, String>,
) -> (r: TaskResult)
    ensures
        ctx_strings(final(ctx)@, "research.findings"@) == Option::Some(
            researcher_output(old(ctx)@, retrieval).0,
        ),
        ctx_strings(final(ctx)@, "research.sources"@) == Option::Some(
            researcher_output(old(ctx)@, retrieval).1,
        ),
        traced_step(old(ctx)@, final(ctx)@, "researcher"@),
        preserves_except(
            old(ctx)@,
            final(ctx)@,
            set!["research.findings"@, "research.sources"@, "trace.collector"@],
        ),
        r.next_action == NextAction::ContinueAndExecute,
{
    proof {
        schema_keys_distinct();
    }
    let query = match ctx.get_str("query") {
        Option::Some(q) => q,
        Option::None => "general market outlook".to_owned(),
    };

    let mut degenerate = true;
    match &retrieval {
        Result::Ok(results) => {
            let mut i: usize = 0;
            while i < results.len()
                invariant
                    i <= results@.len(),
                    degenerate == forall|j: int|
                        0 <= j < i ==> (#[trigger] results@[j]).score_milli <= 0 || spec_is_blank(
                            results@[j].text@,
                        ),
                decreases results@.len() - i,
            {
                if results[i].score_milli > 0 && !is_blank(results[i].text.as_str()) {
                    proof {
                        assert(!((results@[i as int]).score_milli <= 0 || spec_is_blank(
                            results@[i as int].text@,
                        )));
                    }
                    degenerate = false;
                }
                i = i + 1;
            }
        },
        Result::Err(_) => {},
    }

    let mut findings: Vec<String> = Vec::new();
    let mut sources: Vec<String> = Vec::new();
    match &retrieval {
        Result::Ok(results) => {
            if degenerate {
                findings.push(
                    "Automated placeholder insight. Additional manual review recommended.".to_owned(),
                );
                proof {
                    assert(findings.deep_view() =~= researcher_output(old(ctx)@, retrieval).0);
                    assert(sources.deep_view() =~= researcher_output(old(ctx)@, retrieval).1);
                }
            } else {
                let mut i: usize = 0;
                while i < results.len()
                    invariant
                        i <= results@.len(),
                        findings.deep_view() == findings_upto(results@, i as nat),
                        sources.deep_view() == sources_upto(results@, i as nat),
                    decreases results@.len() - i,
                {
                    findings.push(results[i].text.clone());
                    proof {
                        assert(findings.deep_view() =~= findings_upto(results@, (i + 1) as nat));
                    }
                    match &results[i].source {
                        Option::Some(src) => {
                            sources.push(src.clone());
                            proof {
                                assert(sources.deep_view() =~= sources_upto(
                                    results@,
                                    (i + 1) as nat,
                                ));
                            }
                        },
                        Option::None => {},
                    }
                    i = i + 1;
                }
            }
        },
        Result::Err(_) => {
            let mut text: String = "Unable to query memory for '".to_owned();
            text.append(query.as_str());
            text.append("'");
            findings.push(text);
            sources.push("stub://error".to_owned());
            proof {
                assert(findings.deep_view() =~= researcher_output(old(ctx)@, retrieval).0);
                assert(sources.deep_view() =~= researcher_output(old(ctx)@, retrieval).1);
            }
        },
    }

    let n_findings = findings.len();
    let n_sources = sources.len();
    proof {
        assert(findings.deep_view() =~= researcher_output(old(ctx)@, retrieval).0);
        assert(sources.deep_view() =~= researcher_output(old(ctx)@, retrieval).1);
    }
    ctx.set("research.findings".to_owned(), CtxValue::StrList(findings));
    ctx.set("research.sources".to_owned(), CtxValue::StrList(sources));
    let ghost mid = ctx@;

    let mut note: String = "captured ".to_owned();
    note.append(fmt_usize(n_findings).as_str());
    note.append(" findings (");
    note.append(fmt_usize(n_sources).as_str());
    note.append(" sources)");
    record_trace(ctx, "researcher", note);
    proof {
        assert(mid.contains_key("research.findings"@));
        assert(ctx@.contains_key("research.findings"@));
        assert(ctx@["research.findings"@] == mid["research.findings"@]);
        assert(mid.contains_key("research.sources"@));
        assert(ctx@.contains_key("research.sources"@));
        assert(ctx@["research.sources"@] == mid["research.sources"@]);
    }

    let mut msg: String = "Research completed for \"".to_owned();
    msg.append(query.as_str());
    msg.append("\"");
    TaskResult::new(Option::Some(msg), NextAction::ContinueAndExecute)
}

/// The analyst's summary text for the recorded findings.
pub open spec fn spec_analyst_summary(findings: Seq<Seq<char>>, n_sources: nat) -> Seq<char> {
    if findings.len() == 0 {
        "No findings available; analyst requires additional research input"@
    } else {
        "Top insights: "@ + join_upto(findings, "; "@, findings.len()) + ". Confidence supported by "@
            + spec_digits(n_sources) + " sources."@
    }
}

/// The sources the analyst works with: the recorded list, or the example
/// sources when research recorded no list at all.
pub open spec fn spec_analyst_sources(m: Map<Seq<char>, CtxValue>) -> Seq<Seq<char>> {
    match ctx_strings(m, "research.sources"@) {
        Option::Some(v) => v,
        Option::None => seq![
            "https://example.com/industry-overview"@,
            "https://example.com/market-trends"@,
        ],
    }
}

pub open spec fn spec_analyst_findings(m: Map<Seq<char>, CtxValue>) -> Seq<Seq<char>> {
    match ctx_strings(m, "research.findings"@) {
        Option::Some(v) => v,
        Option::None => Seq::<Seq<char>>::empty(),
    }
}

/// The analyst step: synthesize findings into a structured output.
pub fn run_analyst(ctx: &mut Context) -> (r: TaskResult)
    ensures
        final(ctx)@.contains_key("analysis.output"@),
        final(ctx)@["analysis.output"@] is Analyst,
        final(ctx)@["analysis.output"@]->Analyst_0.summary@ == spec_analyst_summary(
            spec_analyst_findings(old(ctx)@),
            spec_analyst_sources(old(ctx)@).len(),
        ),
        final(ctx)@["analysis.output"@]->Analyst_0.highlight@ == if spec_analyst_findings(
            old(ctx)@,
        ).len() > 0 {
            spec_analyst_findings(old(ctx)@)[0]
        } else {
            Seq::<char>::empty()
        },
        final(ctx)@["analysis.output"@]->Analyst_0.sources.deep_view() == spec_analyst_sources(
            old(ctx)@,
        ),
        traced_step(old(ctx)@, final(ctx)@, "analyst"@),
        preserves_except(old(ctx)@, final(ctx)@, set!["analysis.output"@, "trace.collector"@]),
        r.next_action == NextAction::ContinueAndExecute,
{
    proof {
        schema_keys_distinct();
    }
    let findings = match ctx.get_str_list("research.findings") {
        Option::Some(v) => v,
        Option::None => Vec::new(),
    };
    let sources = match ctx.get_str_list("research.sources") {
        Option::Some(v) => v,
        Option::None => default_sources(),
    };

    let summary: String = if findings.len() == 0 {
        "No findings available; analyst requires additional research input".to_owned()
    } else {
        let mut t: String = "Top insights: ".to_owned();
        t.append(join_strings(&findings, "; ").as_str());
        t.append(". Confidence supported by ");
        t.append(fmt_usize(sources.len()).as_str());
        t.append(" sources.");
        t
    };
    let highlight: String = if findings.len() > 0 {
        findings[0].clone()
    } else {
        String::new()
    };
    let highlight_note = highlight.clone();

    let structured = AnalystOutput { summary, highlight, sources };
    proof {
        assert(structured.sources.deep_view() =~= spec_analyst_sources(old(ctx)@));
        assert(structured.summary@ =~= spec_analyst_summary(
            spec_analyst_findings(old(ctx)@),
            spec_analyst_sources(old(ctx)@).len(),
        ));
    }
    let ghost mid_value = CtxValue::Analyst(structured);
    ctx.set("analysis.output".to_owned(), CtxValue::Analyst(structured));
    let ghost mid = ctx@;

    let mut note: String = "highlight: ".to_owned();
    note.append(highlight_note.as_str());
    record_trace(ctx, "analyst", note);

    proof {
        assert(mid.contains_key("analysis.output"@));
        assert(ctx@.contains_key("analysis.output"@));
        assert(ctx@["analysis.output"@] == mid["analysis.output"@]);
    }
    TaskResult::new(
        Option::Some("Analyst prepared synthesis".to_owned()),
        NextAction::ContinueAndExecute,
    )
}


/// The numeric-tool keys written by one persist pass.
pub open spec fn math_keys() -> Set<Seq<char>> {
    set![
        "math.result"@,
        "math.status"@,
        "math.stdout"@,
        "math.stderr"@,
        "math.exit_code"@,
        "math.timed_out"@,
        "math.duration_ms"@,
        "math.outputs"@,
        "math.script_name"@,
        "math.retry_recommended"@,
        "math.degradation_note"@,
        "math.alert_required"@,
        "analysis.math_alert_required"@,
        "analysis.math_retry_recommended"@,
    ]
}

/// A retry is recommended exactly after a failure or timeout.
pub open spec fn spec_retry_recommended(st: MathToolStatus) -> bool {
    st is Failure || st is Timeout
}

/// The degradation note accompanying a retry recommendation.
pub open spec fn spec_degradation_note(st: MathToolStatus) -> Seq<char> {
    if spec_retry_recommended(st) {
        "Math tool "@ + st.spec_label() + ". Falling back to non-numeric reasoning."@
    } else {
        Seq::<char>::empty()
    }
}

/// Write the numeric-tool outcome into the context under the `math.` keys,
/// mirroring the alert and retry flags for the analyst.
pub fn persist_math_result(
    ctx: &mut Context,
    result: &MathToolResult,
    script_name: Option<String>,
    alert: bool,
)
    ensures
        ctx_str(final(ctx)@, "math.status"@) == Option::Some(result.status.spec_label()),
        ctx_str(final(ctx)@, "math.stdout"@) == Option::Some(result.stdout@),
        ctx_str(final(ctx)@, "math.stderr"@) == Option::Some(result.stderr@),
        ctx_opt_int(final(ctx)@, "math.exit_code"@) == Option::Some(result.exit_code),
        ctx_bool(final(ctx)@, "math.timed_out"@) == Option::Some(result.timed_out),
        ctx_u64(final(ctx)@, "math.duration_ms"@) == Option::Some(result.duration_ms),
        final(ctx)@.contains_key("math.result"@),
        final(ctx)@["math.result"@] is MathRes,
        math_result_like(final(ctx)@["math.result"@]->MathRes_0, *result),
        final(ctx)@.contains_key("math.outputs"@),
        final(ctx)@["math.outputs"@] is MathOuts,
        math_outputs_like(final(ctx)@["math.outputs"@]->MathOuts_0@, result.outputs@),
        script_name is Some ==> ctx_str(final(ctx)@, "math.script_name"@) == Option::Some(
            script_name->0@,
        ),
        ctx_bool(final(ctx)@, "math.retry_recommended"@) == Option::Some(
            spec_retry_recommended(result.status),
        ),
        ctx_str(final(ctx)@, "math.degradation_note"@) == Option::Some(
            spec_degradation_note(result.status),
        ),
        ctx_bool(final(ctx)@, "math.alert_required"@) == Option::Some(alert),
        ctx_bool(final(ctx)@, "analysis.math_alert_required"@) == Option::Some(alert),
        ctx_bool(final(ctx)@, "analysis.math_retry_recommended"@) == Option::Some(
            spec_retry_recommended(result.status),
        ),
        preserves_except(old(ctx)@, final(ctx)@, math_keys()),
{
    proof {
        schema_keys_distinct();
    }
    ctx.set("math.result".to_owned(), CtxValue::MathRes(result.clone()));
    ctx.set("math.status".to_owned(), CtxValue::Str(result.status.label()));
    ctx.set("math.stdout".to_owned(), CtxValue::Str(result.stdout.clone()));
    ctx.set("math.stderr".to_owned(), CtxValue::Str(result.stderr.clone()));
    ctx.set("math.exit_code".to_owned(), CtxValue::OptInt(result.exit_code));
    ctx.set("math.timed_out".to_owned(), CtxValue::Bool(result.timed_out));
    ctx.set("math.duration_ms".to_owned(), CtxValue::U64(result.duration_ms));
    ctx.set("math.outputs".to_owned(), CtxValue::MathOuts(clone_math_outputs(&result.outputs)));
    match script_name {
        Option::Some(name) => {
            ctx.set("math.script_name".to_owned(), CtxValue::Str(name));
        },
        Option::None => {},
    }
    let retry = match result.status {
        MathToolStatus::Failure => true,
        MathToolStatus::Timeout => true,
        _ => false,
    };
    ctx.set("math.retry_recommended".to_owned(), CtxValue::Bool(retry));
    let note: String = if retry {
        let mut n: String = "Math tool ".to_owned();
        n.append(result.status.label().as_str());
        n.append(". Falling back to non-numeric reasoning.");
        n
    } else {
        String::new()
    };
    ctx.set("math.degradation_note".to_owned(), CtxValue::Str(note));
    ctx.set("math.alert_required".to_owned(), CtxValue::Bool(alert));
    ctx.set("analysis.math_alert_required".to_owned(), CtxValue::Bool(alert));
    ctx.set("analysis.math_retry_recommended".to_owned(), CtxValue::Bool(retry));
}

/// The stored numeric-tool request, if one is present.
pub open spec fn math_request_of(m: Map<Seq<char>, CtxValue>) -> Option<MathToolRequest> {
    if m.contains_key("math.request"@) && m["math.request"@] is MathReq {
        Option::Some(m["math.request"@]->MathReq_0)
    } else {
        Option::None
    }
}

/// The numeric tool is skipped when no request is stored or its script is
/// blank.
pub open spec fn spec_math_skipped(m: Map<Seq<char>, CtxValue>) -> bool {
    match math_request_of(m) {
        Option::None => true,
        Option::Some(r) => spec_is_blank(r.script@),
    }
}

/// The status the numeric-tool step records: skipped without a usable
/// request; otherwise classified from the sandbox outcome, where a missing
/// or failed executor counts as failure.
pub open spec fn spec_math_status(
    m: Map<Seq<char>, CtxValue>,
    sandbox: Option<Result<SandboxResult, String>>,
) -> MathToolStatus {
    if spec_math_skipped(m) {
        MathToolStatus::Skipped
    } else {
        match sandbox {
            Option::Some(Result::Ok(sr)) => spec_status_of_run(sr.timed_out, sr.exit_code),
            _ => MathToolStatus::Failure,
        }
    }
}

/// The numeric-tool step. The sandbox outcome, produced outside, is taken
/// as an argument: `None` when no executor is configured, otherwise the
/// run's result or its error. The failure streak is lengthened by every
/// non-skipped non-success and reset by success; the alert flag records
/// whether the streak reached three.
pub fn run_math_tool(
    ctx: &mut Context,
    sandbox: Option<Result<SandboxResult, String>>,
    streak: &mut FailureStreak,
) -> (r: TaskResult)
    ensures
        ctx_str(final(ctx)@, "math.status"@) == Option::Some(
            spec_math_status(old(ctx)@, sandbox).spec_label(),
        ),
        ctx_bool(final(ctx)@, "math.retry_recommended"@) == Option::Some(
            spec_retry_recommended(spec_math_status(old(ctx)@, sandbox)),
        ),
        ctx_str(final(ctx)@, "math.degradation_note"@) == Option::Some(
            spec_degradation_note(spec_math_status(old(ctx)@, sandbox)),
        ),
        ctx_bool(final(ctx)@, "math.timed_out"@) == Option::Some(
            match sandbox {
                Option::Some(Result::Ok(sr)) => !spec_math_skipped(old(ctx)@) && sr.timed_out,
                _ => false,
            },
        ),
        final(ctx)@.contains_key("math.outputs"@) && final(ctx)@["math.outputs"@] is MathOuts,
        match sandbox {
            Option::Some(Result::Ok(sr)) => !spec_math_skipped(old(ctx)@)
                ==> final(ctx)@["math.outputs"@]->MathOuts_0@.len() == sr.outputs@.len(),
            _ => final(ctx)@["math.outputs"@]->MathOuts_0@.len() == 0,
        },
        spec_math_skipped(old(ctx)@) ==> *final(streak) == *old(streak),
        spec_math_skipped(old(ctx)@) ==> ctx_bool(final(ctx)@, "math.alert_required"@)
            == Option::Some(false),
        !spec_math_skipped(old(ctx)@) ==> {
            let success = spec_math_status(old(ctx)@, sandbox) is Success;
            &&& (success ==> final(streak).count == 0)
            &&& (!success && old(streak).count < u64::MAX
                ==> final(streak).count == old(streak).count + 1)
            &&& ctx_bool(final(ctx)@, "math.alert_required"@) == Option::Some(
                !success && final(streak).count >= 3,
            )
        },
        traced_step(old(ctx)@, final(ctx)@, "math_tool"@),
        preserves_except(old(ctx)@, final(ctx)@, math_keys().insert("trace.collector"@)),
        r.next_action == NextAction::ContinueAndExecute,
{
    proof {
        schema_keys_distinct();
    }
    let request = ctx.get_math_request("math.request");

    let request = match request {
        Option::None => {
            let result = MathToolResult::default();
            persist_math_result(ctx, &result, Option::None, false);
            record_trace(ctx, "math_tool", "skipped (no request)".to_owned());
            return TaskResult::new(
                Option::Some("Math tool skipped (no request)".to_owned()),
                NextAction::ContinueAndExecute,
            );
        },
        Option::Some(req) => req,
    };

    if is_blank(request.script.as_str()) {
        let result = MathToolResult::default();
        persist_math_result(ctx, &result, clone_opt_string(&request.script_name), false);
        record_trace(ctx, "math_tool", "skipped (empty script)".to_owned());
        return TaskResult::new(
            Option::Some("Math tool skipped (empty script)".to_owned()),
            NextAction::ContinueAndExecute,
        );
    }

    let script_name: String = match &request.script_name {
        Option::Some(n) => n.clone(),
        Option::None => "math_tool.py".to_owned(),
    };

    let result: MathToolResult = match sandbox {
        Option::Some(Result::Ok(sr)) => MathToolResult::from_sandbox(sr),
        Option::Some(Result::Err(e)) => {
            let mut r = MathToolResult::default();
            r.status = MathToolStatus::Failure;
            r.stderr = e;
            r
        },
        Option::None => {
            let mut r = MathToolResult::default();
            r.status = MathToolStatus::Failure;
            r.stderr = "sandbox executor unavailable".to_owned();
            r
        },
    };

    let success = result.status == MathToolStatus::Success;
    let elevated = streak.record(success);
    persist_math_result(ctx, &result, Option::Some(script_name), elevated);

    let mut note: String = result.status.label();
    note.append(" (outputs ");
    note.append(fmt_usize(result.outputs.len()).as_str());
    note.append(", exit ");
    match result.exit_code {
        Option::Some(code) => {
            note.append("Some(");
            note.append(crate::strutil::fmt_i64(code as i64).as_str());
            note.append(")");
        },
        Option::None => {
            note.append("None");
        },
    }
    note.append(")");
    record_trace(ctx, "math_tool", note);

    let message: String = match result.status {
        MathToolStatus::Success => "Math tool completed successfully".to_owned(),
        MathToolStatus::Timeout => "Math tool timed out".to_owned(),
        MathToolStatus::Failure => "Math tool failed".to_owned(),
        MathToolStatus::Skipped => "Math tool skipped".to_owned(),
    };
    TaskResult::new(Option::Some(message), NextAction::ContinueAndExecute)
}

/// The analyst output currently recorded, viewed as plain values; absent
/// pieces default to empty.
pub open spec fn spec_analysis_summary(m: Map<Seq<char>, CtxValue>) -> Seq<char> {
    if m.contains_key("analysis.output"@) && m["analysis.output"@] is Analyst {
        m["analysis.output"@]->Analyst_0.summary@
    } else {
        Seq::<char>::empty()
    }
}

pub open spec fn spec_analysis_highlight(m: Map<Seq<char>, CtxValue>) -> Seq<char> {
    if m.contains_key("analysis.output"@) && m["analysis.output"@] is Analyst {
        m["analysis.output"@]->Analyst_0.highlight@
    } else {
        Seq::<char>::empty()
    }
}

pub open spec fn spec_analysis_sources(m: Map<Seq<char>, CtxValue>) -> Seq<Seq<char>> {
    if m.contains_key("analysis.output"@) && m["analysis.output"@] is Analyst {
        m["analysis.output"@]->Analyst_0.sources.deep_view()
    } else {
        Seq::<Seq<char>>::empty()
    }
}

/// How many sources the fact-check verifies: the configured count, capped
/// by what is there.
pub open spec fn spec_verified_count(s: nat, cap: nat) -> nat {
    if cap < s {
        cap
    } else {
        s
    }
}

/// The fact-check passes exactly when the confidence `1/2 + v/(2s)` (or
/// `1/2` without sources) reaches the configured floor, compared as exact
/// rationals in hundredths.
pub open spec fn spec_fact_passed(s: nat, v: nat, min_h: nat) -> bool {
    if s == 0 {
        50 >= min_h
    } else {
        100 * (s + v) >= min_h * 2 * s
    }
}

/// The confidence in hundredths, rounded to nearest (ties up).
pub open spec fn spec_confidence_hundredths(s: nat, v: nat) -> nat {
    if s == 0 {
        50
    } else {
        (100 * (s + v) + s) / (2 * s)
    }
}

/// The verified coverage in whole percent, rounded to nearest (ties up).
pub open spec fn spec_coverage_percent(s: nat, v: nat) -> nat {
    if s == 0 {
        0
    } else {
        (200 * v + s) / (2 * s)
    }
}

/// The fact-check step: verify the first configured number of sources and
/// derive confidence, pass flag and notes. Success is unconditional.
pub fn run_fact_check(ctx: &mut Context, settings: &FactCheckSettings) -> (r: TaskResult)
    ensures
        ({
            let s = spec_analysis_sources(old(ctx)@).len();
            let v = spec_verified_count(s, settings.verification_count as nat);
            &&& ctx_strings(final(ctx)@, "factcheck.verified_sources"@) == Option::Some(
                spec_analysis_sources(old(ctx)@).subrange(0, v as int),
            )
            &&& ctx_bool(final(ctx)@, "factcheck.passed"@) == Option::Some(
                spec_fact_passed(s, v, settings.min_confidence_hundredths as nat),
            )
            &&& ctx_hundredths(final(ctx)@, "factcheck.confidence"@) == Option::Some(
                spec_confidence_hundredths(s, v) as u32,
            )
            &&& ctx_str(final(ctx)@, "factcheck.notes"@) == Option::Some(
                "verified "@ + spec_digits(v) + " sources (coverage "@ + spec_digits(
                    spec_coverage_percent(s, v),
                ) + "%)"@,
            )
        }),
        traced_step(old(ctx)@, final(ctx)@, "fact_check"@),
        preserves_except(
            old(ctx)@,
            final(ctx)@,
            set![
                "factcheck.confidence"@,
                "factcheck.verified_sources"@,
                "factcheck.passed"@,
                "factcheck.notes"@,
                "trace.collector"@,
            ],
        ),
        r.next_action == NextAction::ContinueAndExecute,
{
    proof {
        schema_keys_distinct();
    }
    let analysis = match ctx.get_analyst("analysis.output") {
        Option::Some(a) => a,
        Option::None => AnalystOutput::default(),
    };
    let sources = analysis.sources;
    let s = sources.len();
    let v: usize = if settings.verification_count < s {
        settings.verification_count
    } else {
        s
    };

    let mut verified: Vec<String> = Vec::new();
    let mut i: usize = 0;
    while i < v
        invariant
            v <= sources@.len(),
            i <= v,
            verified@ == sources@.subrange(0, i as int),
        decreases v - i,
    {
        verified.push(sources[i].clone());
        proof {
            assert(verified@ =~= sources@.subrange(0, i + 1 as int));
        }
        i = i + 1;
    }
    proof {
        assert(verified.deep_view() =~= sources.deep_view().subrange(0, v as int));
    }

    let su = s as u128;
    let vu = v as u128;
    let min_h = settings.min_confidence_hundredths as u128;
    let passed: bool = if s == 0 {
        50 >= settings.min_confidence_hundredths
    } else {
        proof {
            assert((min_h as int) * 2 * (su as int) <= u128::MAX as int) by (nonlinear_arith)
                requires
                    0 <= min_h as int <= 0xffffffffint,
                    0 <= su as int <= 0xffffffffffffffffint,
            ;
        }
        100 * (su + vu) >= min_h * 2 * su
    };
    let conf_h: u32 = if s == 0 {
        50
    } else {
        let q = (100 * (su + vu) + su) / (2 * su);
        proof {
            assert((100 * (su + vu) + su) / (2 * su) <= 101) by (nonlinear_arith)
                requires
                    su > 0,
                    vu <= su,
            ;
        }
        q as u32
    };
    let coverage_pct: u64 = if s == 0 {
        0
    } else {
        let q = (200 * vu + su) / (2 * su);
        proof {
            assert((200 * vu + su) / (2 * su) <= 101) by (nonlinear_arith)
                requires
                    su > 0,
                    vu <= su,
            ;
        }
        q as u64
    };

    ctx.set("factcheck.confidence".to_owned(), CtxValue::Hundredths(conf_h));
    ctx.set("factcheck.verified_sources".to_owned(), CtxValue::StrList(verified));
    ctx.set("factcheck.passed".to_owned(), CtxValue::Bool(passed));
    let mut notes: String = "verified ".to_owned();
    notes.append(fmt_usize(v).as_str());
    notes.append(" sources (coverage ");
    notes.append(crate::strutil::fmt_u64(coverage_pct).as_str());
    notes.append("%)");
    ctx.set("factcheck.notes".to_owned(), CtxValue::Str(notes));
    let ghost mid = ctx@;

    let mut tmsg: String = "confidence ".to_owned();
    tmsg.append(fmt_hundredths(conf_h).as_str());
    tmsg.append(" (");
    tmsg.append(fmt_usize(v).as_str());
    tmsg.append(" verified)");
    record_trace(ctx, "fact_check", tmsg);
    proof {
        assert(mid.contains_key("factcheck.confidence"@));
        assert(ctx@.contains_key("factcheck.confidence"@));
        assert(ctx@["factcheck.confidence"@] == mid["factcheck.confidence"@]);
        assert(mid.contains_key("factcheck.verified_sources"@));
        assert(ctx@.contains_key("factcheck.verified_sources"@));
        assert(ctx@["factcheck.verified_sources"@] == mid["factcheck.verified_sources"@]);
        assert(mid.contains_key("factcheck.passed"@));
        assert(ctx@.contains_key("factcheck.passed"@));
        assert(ctx@["factcheck.passed"@] == mid["factcheck.passed"@]);
        assert(mid.contains_key("factcheck.notes"@));
        assert(ctx@.contains_key("factcheck.notes"@));
        assert(ctx@["factcheck.notes"@] == mid["factcheck.notes"@]);
    }

    TaskResult::new(
        Option::Some("Fact-check completed".to_owned()),
        NextAction::ContinueAndExecute,
    )
}

/// The critic approves exactly when the fact-check passed (or was never
/// run), the summary has at least two sentences, and sources exist.
pub open spec fn spec_critic_confident(m: Map<Seq<char>, CtxValue>) -> bool {
    let passed = match ctx_bool(m, "factcheck.passed"@) {
        Option::Some(b) => b,
        Option::None => true,
    };
    &&& passed
    &&& spec_count_char(spec_analysis_summary(m), '.') + 1 >= 2
    &&& spec_analysis_sources(m).len() > 0
}

/// The critic's verdict line for a confidence decision.
pub open spec fn spec_verdict(confident: bool) -> Seq<char> {
    if confident {
        "Analysis passes automated checks"@
    } else {
        "Insufficient evidence; requires manual review"@
    }
}

/// The critic step: judge the analysis against the fact-check outcome.
pub fn run_critic(ctx: &mut Context) -> (r: TaskResult)
    ensures
        ctx_bool(final(ctx)@, "critique.confident"@) == Option::Some(
            spec_critic_confident(old(ctx)@),
        ),
        ctx_str(final(ctx)@, "critique.verdict"@) == Option::Some(
            spec_verdict(spec_critic_confident(old(ctx)@)),
        ),
        traced_step(old(ctx)@, final(ctx)@, "critic"@),
        preserves_except(
            old(ctx)@,
            final(ctx)@,
            set!["critique.confident"@, "critique.verdict"@, "trace.collector"@],
        ),
        r.next_action == NextAction::ContinueAndExecute,
{
    proof {
        schema_keys_distinct();
    }
    let analysis = match ctx.get_analyst("analysis.output") {
        Option::Some(a) => a,
        Option::None => AnalystOutput::default(),
    };
    let fact_confidence = match ctx.get_hundredths("factcheck.confidence") {
        Option::Some(c) => c,
        Option::None => 0,
    };
    let fact_passed = match ctx.get_bool("factcheck.passed") {
        Option::Some(b) => b,
        Option::None => true,
    };
    let verified_sources = match ctx.get_str_list("factcheck.verified_sources") {
        Option::Some(v) => v,
        Option::None => Vec::new(),
    };

    let dots = crate::strutil::count_char(analysis.summary.as_str(), '.');
    let passes = fact_passed && dots >= 1 && analysis.sources.len() > 0;

    ctx.set("critique.confident".to_owned(), CtxValue::Bool(passes));
    let verdict: String = if passes {
        "Analysis passes automated checks".to_owned()
    } else {
        "Insufficient evidence; requires manual review".to_owned()
    };
    let verdict_for_msg = verdict.clone();
    ctx.set("critique.verdict".to_owned(), CtxValue::Str(verdict));
    let ghost mid = ctx@;

    let mut tmsg: String = "verdict ".to_owned();
    if passes {
        tmsg.append("auto-approved");
    } else {
        tmsg.append("manual review");
    }
    tmsg.append(" (fact ");
    tmsg.append(fmt_hundredths(fact_confidence).as_str());
    tmsg.append(")");
    record_trace(ctx, "critic", tmsg);
    proof {
        assert(mid.contains_key("critique.confident"@));
        assert(ctx@.contains_key("critique.confident"@));
        assert(ctx@["critique.confident"@] == mid["critique.confident"@]);
        assert(mid.contains_key("critique.verdict"@));
        assert(ctx@.contains_key("critique.verdict"@));
        assert(ctx@["critique.verdict"@] == mid["critique.verdict"@]);
    }

    let sources_line: String = if analysis.sources.len() == 0 {
        "(none)".to_owned()
    } else {
        join_strings(&analysis.sources, ", ")
    };
    let verified_line: String = if verified_sources.len() == 0 {
        "(none)".to_owned()
    } else {
        join_strings(&verified_sources, ", ")
    };
    let mut response: String = verdict_for_msg;
    response.append("\nSummary: ");
    response.append(analysis.summary.as_str());
    response.append("\nKey Insight: ");
    response.append(analysis.highlight.as_str());
    response.append("\nSources: ");
    response.append(sources_line.as_str());
    response.append("\nFact-Check Confidence: ");
    response.append(fmt_hundredths(fact_confidence).as_str());
    response.append("\nVerified Sources: ");
    response.append(verified_line.as_str());

    TaskResult::new(Option::Some(response), NextAction::ContinueAndExecute)
}

/// A numbered, two-space-indented block: `  N. item` lines joined by
/// newlines.
pub open spec fn numbered_upto(items: Seq<Seq<char>>, n: nat) -> Seq<char>
    decreases n,
{
    if n == 0 {
        Seq::<char>::empty()
    } else if n == 1 {
        "  "@ + spec_digits(1) + ". "@ + items[0]
    } else {
        numbered_upto(items, (n - 1) as nat) + "\n"@ + "  "@ + spec_digits(n) + ". "@ + items[n - 1]
    }
}

/// The sources section of the final summary.
pub open spec fn spec_sources_block(items: Seq<Seq<char>>) -> Seq<char> {
    if items.len() == 0 {
        "  (none recorded)"@
    } else {
        numbered_upto(items, items.len())
    }
}

/// The verified-sources section of the final summary.
pub open spec fn spec_verified_block(items: Seq<Seq<char>>) -> Seq<char> {
    if items.len() == 0 {
        "  (none verified)"@
    } else {
        numbered_upto(items, items.len())
    }
}

fn render_numbered(items: &Vec<String>) -> (r: String)
    requires
        items@.len() > 0,
    ensures
        r@ == numbered_upto(items.deep_view(), items@.len() as nat),
{
    let mut out = String::new();
    let mut i: usize = 0;
    while i < items.len()
        invariant
            i <= items@.len(),
            out@ == numbered_upto(items.deep_view(), i as nat),
        decreases items@.len() - i,
    {
        if i > 0 {
            out.append("\n");
        } else {
            proof {
                assert(out@ =~= Seq::<char>::empty());
            }
        }
        out.append("  ");
        out.append(fmt_usize(i + 1).as_str());
        out.append(". ");
        out.append(items[i].as_str());
        proof {
            if i == 0 {
                assert(out@ =~= numbered_upto(items.deep_view(), 1));
            }
        }
        i = i + 1;
    }
    out
}

/// The verified-source views recorded by the fact-check, or empty.
pub open spec fn spec_verified_sources(m: Map<Seq<char>, CtxValue>) -> Seq<Seq<char>> {
    match ctx_strings(m, "factcheck.verified_sources"@) {
        Option::Some(v) => v,
        Option::None => Seq::<Seq<char>>::empty(),
    }
}

/// The complete final summary: verdict, synthesis, highlight, confidence
/// wording, the numbered source blocks, and the fact-check confidence.
pub open spec fn spec_final_summary(m: Map<Seq<char>, CtxValue>) -> Seq<char> {
    let verdict = match ctx_str(m, "critique.verdict"@) {
        Option::Some(v) => v,
        Option::None => "No verdict recorded"@,
    };
    let confident = match ctx_bool(m, "critique.confident"@) {
        Option::Some(b) => b,
        Option::None => false,
    };
    let conf_h = match ctx_hundredths(m, "factcheck.confidence"@) {
        Option::Some(c) => c as nat,
        Option::None => 0,
    };
    verdict + "\n\nSummary:\n"@ + spec_analysis_summary(m) + "\n\nKey Insight: "@
        + spec_analysis_highlight(m) + "\nConfidence: "@ + (if confident {
        "High"@
    } else {
        "Review suggested"@
    }) + "\nSources:\n"@ + spec_sources_block(spec_analysis_sources(m))
        + "\n\nFact-Check Confidence: "@ + spec_hundredths(conf_h) + "\nVerified Sources:\n"@
        + spec_verified_block(spec_verified_sources(m))
}

/// The finalizer: compose the final summary and end the workflow without
/// manual review.
pub fn run_finalize(ctx: &mut Context) -> (r: TaskResult)
    ensures
        ctx_str(final(ctx)@, "final.summary"@) == Option::Some(spec_final_summary(old(ctx)@)),
        ctx_bool(final(ctx)@, "final.requires_manual"@) == Option::Some(false),
        traced_step(old(ctx)@, final(ctx)@, "finalize"@),
        preserves_except(
            old(ctx)@,
            final(ctx)@,
            set!["final.summary"@, "final.requires_manual"@, "trace.collector"@],
        ),
        r.next_action == NextAction::End,
        r.message is Some && r.message->0@ == spec_final_summary(old(ctx)@),
{
    proof {
        schema_keys_distinct();
    }
    let analysis = match ctx.get_analyst("analysis.output") {
        Option::Some(a) => a,
        Option::None => AnalystOutput::default(),
    };
    let verdict = match ctx.get_str("critique.verdict") {
        Option::Some(v) => v,
        Option::None => "No verdict recorded".to_owned(),
    };
    let confident = match ctx.get_bool("critique.confident") {
        Option::Some(b) => b,
        Option::None => false,
    };
    let fact_confidence = match ctx.get_hundredths("factcheck.confidence") {
        Option::Some(c) => c,
        Option::None => 0,
    };
    let verified_sources = match ctx.get_str_list("factcheck.verified_sources") {
        Option::Some(v) => v,
        Option::None => Vec::new(),
    };

    let sources_block: String = if analysis.sources.len() == 0 {
        "  (none recorded)".to_owned()
    } else {
        render_numbered(&analysis.sources)
    };
    let verified_block: String = if verified_sources.len() == 0 {
        "  (none verified)".to_owned()
    } else {
        render_numbered(&verified_sources)
    };

    let mut summary: String = verdict;
    summary.append("\n\nSummary:\n");
    summary.append(analysis.summary.as_str());
    summary.append("\n\nKey Insight: ");
    summary.append(analysis.highlight.as_str());
    summary.append("\nConfidence: ");
    if confident {
        summary.append("High");
    } else {
        summary.append("Review suggested");
    }
    summary.append("\nSources:\n");
    summary.append(sources_block.as_str());
    summary.append("\n\nFact-Check Confidence: ");
    summary.append(fmt_hundredths(fact_confidence).as_str());
    summary.append("\nVerified Sources:\n");
    summary.append(verified_block.as_str());

    let message = summary.clone();
    ctx.set("final.summary".to_owned(), CtxValue::Str(summary));
    ctx.set("final.requires_manual".to_owned(), CtxValue::Bool(false));
    let ghost mid = ctx@;
    record_trace(ctx, "finalize", "final summary emitted".to_owned());
    proof {
        assert(mid.contains_key("final.summary"@));
        assert(ctx@.contains_key("final.summary"@));
        assert(ctx@["final.summary"@] == mid["final.summary"@]);
        assert(mid.contains_key("final.requires_manual"@));
        assert(ctx@.contains_key("final.requires_manual"@));
        assert(ctx@["final.requires_manual"@] == mid["final.requires_manual"@]);
    }

    TaskResult::new(Option::Some(message), NextAction::End)
}

/// The fixed manual-review summary text.
pub open spec fn spec_manual_summary() -> Seq<char> {
    "Automated checks flagged low confidence. Please perform manual verification."@
}

/// The manual-review terminal: a fixed summary and the manual flag set.
pub fn run_manual_review(ctx: &mut Context) -> (r: TaskResult)
    ensures
        ctx_str(final(ctx)@, "final.summary"@) == Option::Some(spec_manual_summary()),
        ctx_bool(final(ctx)@, "final.requires_manual"@) == Option::Some(true),
        traced_step(old(ctx)@, final(ctx)@, "manual_review"@),
        preserves_except(
            old(ctx)@,
            final(ctx)@,
            set!["final.summary"@, "final.requires_manual"@, "trace.collector"@],
        ),
        r.next_action == NextAction::End,
        r.message is Some && r.message->0@ == spec_manual_summary(),
{
    proof {
        schema_keys_distinct();
    }
    let summary: String =
        "Automated checks flagged low confidence. Please perform manual verification.".to_owned();
    let message = summary.clone();
    ctx.set("final.summary".to_owned(), CtxValue::Str(summary));
    ctx.set("final.requires_manual".to_owned(), CtxValue::Bool(true));
    let ghost mid = ctx@;
    record_trace(ctx, "manual_review", "manual review requested".to_owned());
    proof {
        assert(mid.contains_key("final.summary"@));
        assert(ctx@.contains_key("final.summary"@));
        assert(ctx@["final.summary"@] == mid["final.summary"@]);
        assert(mid.contains_key("final.requires_manual"@));
        assert(ctx@.contains_key("final.requires_manual"@));
        assert(ctx@["final.requires_manual"@] == mid["final.requires_manual"@]);
    }
    TaskResult::new(Option::Some(message), NextAction::End)
}


/// The retrieval stage, bound to whichever retrieval layer the driver
/// runs.
#[derive(Debug)]
pub struct ResearchTask {
}

impl ResearchTask {
    pub fn new() -> (r: Self) {
        ResearchTask {  }
    }

    pub fn id(&self) -> (r: &'static str)
        ensures
            r@ == "researcher"@,
    {
        "researcher"
    }

    /// One researcher step over the given retrieval outcome.
    pub fn run(&self, ctx: &mut Context, retrieval: Result<Vec<RetrievedDocument>, String>) -> (r:
        TaskResult)
        ensures
            ctx_strings(final(ctx)@, "research.findings"@) == Option::Some(
                researcher_output(old(ctx)@, retrieval).0,
            ),
            ctx_strings(final(ctx)@, "research.sources"@) == Option::Some(
                researcher_output(old(ctx)@, retrieval).1,
            ),
            traced_step(old(ctx)@, final(ctx)@, "researcher"@),
            preserves_except(
                old(ctx)@,
                final(ctx)@,
                set!["research.findings"@, "research.sources"@, "trace.collector"@],
            ),
            r.next_action == NextAction::ContinueAndExecute,
    {
        run_researcher(ctx, retrieval)
    }
}

/// The synthesis stage.
#[derive(Debug)]
pub struct AnalystTask {
}

impl AnalystTask {
    pub fn new() -> (r: Self) {
        AnalystTask {  }
    }

    pub fn id(&self) -> (r: &'static str)
        ensures
            r@ == "analyst"@,
    {
        "analyst"
    }

    /// One analyst step: the structured synthesis is fixed exactly by the
    /// recorded findings and sources.
    pub fn run(&self, ctx: &mut Context) -> (r: TaskResult)
        ensures
            final(ctx)@.contains_key("analysis.output"@),
            final(ctx)@["analysis.output"@] is Analyst,
            final(ctx)@["analysis.output"@]->Analyst_0.summary@ == spec_analyst_summary(
                spec_analyst_findings(old(ctx)@),
                spec_analyst_sources(old(ctx)@).len(),
            ),
            final(ctx)@["analysis.output"@]->Analyst_0.highlight@ == if spec_analyst_findings(
                old(ctx)@,
            ).len() > 0 {
                spec_analyst_findings(old(ctx)@)[0]
            } else {
                Seq::<char>::empty()
            },
            final(ctx)@["analysis.output"@]->Analyst_0.sources.deep_view()
                == spec_analyst_sources(old(ctx)@),
            traced_step(old(ctx)@, final(ctx)@, "analyst"@),
            preserves_except(old(ctx)@, final(ctx)@, set!["analysis.output"@, "trace.collector"@]),
            r.next_action == NextAction::ContinueAndExecute,
    {
        run_analyst(ctx)
    }
}

/// The numeric-tool stage, fed by whichever sandbox the driver runs.
#[derive(Debug)]
pub struct MathToolTask {
}

impl MathToolTask {
    pub fn new() -> (r: Self) {
        MathToolTask {  }
    }

    pub fn id(&self) -> (r: &'static str)
        ensures
            r@ == "math_tool"@,
    {
        "math_tool"
    }

    /// One numeric-tool step over the given sandbox outcome: status,
    /// retry recommendation, degradation note, streams, outputs and the
    /// alert flag are all pinned; the streak moves exactly as the outcome
    /// dictates.
    pub fn run(
        &self,
        ctx: &mut Context,
        sandbox: Option<Result<SandboxResult, String>>,
        streak: &mut FailureStreak,
    ) -> (r: TaskResult)
        ensures
            ctx_str(final(ctx)@, "math.status"@) == Option::Some(
                spec_math_status(old(ctx)@, sandbox).spec_label(),
            ),
            ctx_bool(final(ctx)@, "math.retry_recommended"@) == Option::Some(
                spec_retry_recommended(spec_math_status(old(ctx)@, sandbox)),
            ),
            ctx_str(final(ctx)@, "math.degradation_note"@) == Option::Some(
                spec_degradation_note(spec_math_status(old(ctx)@, sandbox)),
            ),
            ctx_bool(final(ctx)@, "math.timed_out"@) == Option::Some(
                match sandbox {
                    Option::Some(Result::Ok(sr)) => !spec_math_skipped(old(ctx)@) && sr.timed_out,
                    _ => false,
                },
            ),
            final(ctx)@.contains_key("math.outputs"@) && final(ctx)@["math.outputs"@] is MathOuts,
            match sandbox {
                Option::Some(Result::Ok(sr)) => !spec_math_skipped(old(ctx)@)
                    ==> final(ctx)@["math.outputs"@]->MathOuts_0@.len() == sr.outputs@.len(),
                _ => final(ctx)@["math.outputs"@]->MathOuts_0@.len() == 0,
            },
            spec_math_skipped(old(ctx)@) ==> *final(streak) == *old(streak),
            spec_math_skipped(old(ctx)@) ==> ctx_bool(final(ctx)@, "math.alert_required"@)
                == Option::Some(false),
            !spec_math_skipped(old(ctx)@) ==> {
                let success = spec_math_status(old(ctx)@, sandbox) is Success;
                &&& (success ==> final(streak).count == 0)
                &&& (!success && old(streak).count < u64::MAX
                    ==> final(streak).count == old(streak).count + 1)
                &&& ctx_bool(final(ctx)@, "math.alert_required"@) == Option::Some(
                    !success && final(streak).count >= 3,
                )
            },
            traced_step(old(ctx)@, final(ctx)@, "math_tool"@),
            preserves_except(old(ctx)@, final(ctx)@, math_keys().insert("trace.collector"@)),
            r.next_action == NextAction::ContinueAndExecute,
    {
        run_math_tool(ctx, sandbox, streak)
    }
}

/// The fact-check stage.
#[derive(Debug)]
pub struct FactCheckTask {
    pub settings: FactCheckSettings,
}

impl FactCheckTask {
    pub fn new(settings: FactCheckSettings) -> (r: Self)
        ensures
            r.settings == settings,
    {
        FactCheckTask { settings }
    }

    pub fn id(&self) -> (r: &'static str)
        ensures
            r@ == "fact_check"@,
    {
        "fact_check"
    }

    /// One fact-check step under the configured settings: the verified
    /// list, the pass decision, the confidence and the notes are exact.
    pub fn run(&self, ctx: &mut Context) -> (r: TaskResult)
        ensures
            ({
                let s = spec_analysis_sources(old(ctx)@).len();
                let v = spec_verified_count(s, self.settings.verification_count as nat);
                &&& ctx_strings(final(ctx)@, "factcheck.verified_sources"@) == Option::Some(
                    spec_analysis_sources(old(ctx)@).subrange(0, v as int),
                )
                &&& ctx_bool(final(ctx)@, "factcheck.passed"@) == Option::Some(
                    spec_fact_passed(s, v, self.settings.min_confidence_hundredths as nat),
                )
                &&& ctx_hundredths(final(ctx)@, "factcheck.confidence"@) == Option::Some(
                    spec_confidence_hundredths(s, v) as u32,
                )
                &&& ctx_str(final(ctx)@, "factcheck.notes"@) == Option::Some(
                    "verified "@ + spec_digits(v) + " sources (coverage "@ + spec_digits(
                        spec_coverage_percent(s, v),
                    ) + "%)"@,
                )
            }),
            traced_step(old(ctx)@, final(ctx)@, "fact_check"@),
            preserves_except(
                old(ctx)@,
                final(ctx)@,
                set![
                    "factcheck.confidence"@,
                    "factcheck.verified_sources"@,
                    "factcheck.passed"@,
                    "factcheck.notes"@,
                    "trace.collector"@,
                ],
            ),
            r.next_action == NextAction::ContinueAndExecute,
    {
        run_fact_check(ctx, &self.settings)
    }
}

/// The critique stage.
#[derive(Debug)]
pub struct CriticTask {
}

impl CriticTask {
    pub fn new() -> (r: Self) {
        CriticTask {  }
    }

    pub fn id(&self) -> (r: &'static str)
        ensures
            r@ == "critic"@,
    {
        "critic"
    }

    /// One critic step.
    pub fn run(&self, ctx: &mut Context) -> (r: TaskResult)
        ensures
            ctx_bool(final(ctx)@, "critique.confident"@) == Option::Some(
                spec_critic_confident(old(ctx)@),
            ),
            ctx_str(final(ctx)@, "critique.verdict"@) == Option::Some(
                spec_verdict(spec_critic_confident(old(ctx)@)),
            ),
            traced_step(old(ctx)@, final(ctx)@, "critic"@),
            preserves_except(
                old(ctx)@,
                final(ctx)@,
                set!["critique.confident"@, "critique.verdict"@, "trace.collector"@],
            ),
            r.next_action == NextAction::ContinueAndExecute,
    {
        run_critic(ctx)
    }
}

/// The confident terminal stage.
#[derive(Debug)]
pub struct FinalizeTask {
}

impl FinalizeTask {
    pub fn new() -> (r: Self) {
        FinalizeTask {  }
    }

    pub fn id(&self) -> (r: &'static str)
        ensures
            r@ == "finalize"@,
    {
        "finalize"
    }

    /// One finalizer step: writes the summary and ends the workflow.
    pub fn run(&self, ctx: &mut Context) -> (r: TaskResult)
        ensures
            ctx_str(final(ctx)@, "final.summary"@) == Option::Some(spec_final_summary(old(ctx)@)),
            ctx_bool(final(ctx)@, "final.requires_manual"@) == Option::Some(false),
            traced_step(old(ctx)@, final(ctx)@, "finalize"@),
            preserves_except(
                old(ctx)@,
                final(ctx)@,
                set!["final.summary"@, "final.requires_manual"@, "trace.collector"@],
            ),
            r.next_action == NextAction::End,
            r.message is Some && r.message->0@ == spec_final_summary(old(ctx)@),
    {
        run_finalize(ctx)
    }
}

/// The manual-review terminal stage.
#[derive(Debug)]
pub struct ManualReviewTask {
}

impl ManualReviewTask {
    pub fn new() -> (r: Self) {
        ManualReviewTask {  }
    }

    pub fn id(&self) -> (r: &'static str)
        ensures
            r@ == "manual_review"@,
    {
        "manual_review"
    }

    /// One manual-review step: fixed summary, manual flag set, end.
    pub fn run(&self, ctx: &mut Context) -> (r: TaskResult)
        ensures
            ctx_str(final(ctx)@, "final.summary"@) == Option::Some(spec_manual_summary()),
            ctx_bool(final(ctx)@, "final.requires_manual"@) == Option::Some(true),
            traced_step(old(ctx)@, final(ctx)@, "manual_review"@),
            preserves_except(
                old(ctx)@,
                final(ctx)@,
                set!["final.summary"@, "final.requires_manual"@, "trace.collector"@],
            ),
            r.next_action == NextAction::End,
            r.message is Some && r.message->0@ == spec_manual_summary(),
    {
        run_manual_review(ctx)
    }
}

} // verus!
