//! The typed context store: a session-scoped mapping from string keys to
//! typed values.
//!
//! The store is viewed as a `Map` from key characters to stored values. A
//! typed read of a missing key, or of a key holding another type, returns
//! `None` and never fails. Writes shadow earlier entries; the view keeps
//! only the latest value per key.

use vstd::prelude::*;

use crate::strutil::str_eq;
use crate::tasks::{
    AnalystOutput, MathToolOutput, MathToolRequest, MathToolResult, analyst_like,
    clone_math_outputs, math_output_like, math_outputs_like, math_request_like, math_result_like,
};
use crate::trace::TraceCollector;

verus! {

/// A value the context can hold; one variant per type named in the context
/// schema.
#[derive(Debug)]
pub enum CtxValue {
    Str(String),
    Bool(bool),
    U64(u64),
    /// A confidence or ratio, in hundredths.
    Hundredths(u32),
    /// An optional process exit code.
    OptInt(Option<i32>),
    StrList(Vec<String>),
    Analyst(AnalystOutput),
    MathReq(MathToolRequest),
    MathRes(MathToolResult),
    MathOuts(Vec<MathToolOutput>),
    Trace(TraceCollector),
}

/// Two context values carry the same data, compared by view.
pub open spec fn cv_like(a: CtxValue, b: CtxValue) -> bool {
    match (a, b) {
        (CtxValue::Str(x), CtxValue::Str(y)) => x@ == y@,
        (CtxValue::Bool(x), CtxValue::Bool(y)) => x == y,
        (CtxValue::U64(x), CtxValue::U64(y)) => x == y,
        (CtxValue::Hundredths(x), CtxValue::Hundredths(y)) => x == y,
        (CtxValue::OptInt(x), CtxValue::OptInt(y)) => x == y,
        (CtxValue::StrList(x), CtxValue::StrList(y)) => x@ == y@,
        (CtxValue::Analyst(x), CtxValue::Analyst(y)) => analyst_like(x, y),
        (CtxValue::MathReq(x), CtxValue::MathReq(y)) => math_request_like(x, y),
        (CtxValue::MathRes(x), CtxValue::MathRes(y)) => math_result_like(x, y),
        (CtxValue::MathOuts(x), CtxValue::MathOuts(y)) => math_outputs_like(x@, y@),
        (CtxValue::Trace(x), CtxValue::Trace(y)) => x@ == y@,
        _ => false,
    }
}

impl Clone for CtxValue {
    fn clone(&self) -> (r: Self)
        ensures
            cv_like(r, *self),
    {
        match self {
            CtxValue::Str(x) => CtxValue::Str(x.clone()),
            CtxValue::Bool(x) => CtxValue::Bool(*x),
            CtxValue::U64(x) => CtxValue::U64(*x),
            CtxValue::Hundredths(x) => CtxValue::Hundredths(*x),
            CtxValue::OptInt(x) => CtxValue::OptInt(*x),
            CtxValue::StrList(x) => CtxValue::StrList(crate::strutil::clone_string_vec(x)),
            CtxValue::Analyst(x) => CtxValue::Analyst(x.clone()),
            CtxValue::MathReq(x) => CtxValue::MathReq(x.clone()),
            CtxValue::MathRes(x) => CtxValue::MathRes(x.clone()),
            CtxValue::MathOuts(x) => CtxValue::MathOuts(clone_math_outputs(x)),
            CtxValue::Trace(x) => CtxValue::Trace(x.clone()),
        }
    }
}

/// The session's key/value store. Later writes shadow earlier ones.
#[derive(Debug)]
pub struct Context {
    entries: Vec<(String, CtxValue)>,
}

impl View for Context {
    type V = Map<Seq<char>, CtxValue>;

    closed spec fn view(&self) -> Map<Seq<char>, CtxValue> {
        Context::entries_map(self.entries@)
    }
}

impl Context {
    /// The mapping induced by an entry list: the last write per key wins.
    pub closed spec fn entries_map(s: Seq<(String, CtxValue)>) -> Map<Seq<char>, CtxValue>
        decreases s.len(),
    {
        if s.len() == 0 {
            Map::empty()
        } else {
            Context::entries_map(s.drop_last()).insert(s.last().0@, s.last().1)
        }
    }

    pub fn new() -> (c: Self)
        ensures
            c@ == Map::<Seq<char>, CtxValue>::empty(),
    {
        Context { entries: Vec::new() }
    }

    /// Store a value under a key, replacing any earlier value.
    pub fn set(&mut self, key: String, value: CtxValue)
        ensures
            final(self)@ == old(self)@.insert(key@, value),
    {
        self.entries.push((key, value));
        proof {
            assert(self.entries@.drop_last() =~= old(self).entries@);
        }
    }

    /// Read the raw value stored under a key, if any; the caller receives a
    /// copy carrying the same data.
    pub fn get_value(&self, key: &str) -> (r: Option<CtxValue>)
        ensures
            r is Some <==> self@.contains_key(key@),
            r is Some ==> cv_like(r->0, self@[key@]),
    {
        Context::lookup(&self.entries, key)
    }

    /// Whether any value is stored under the key.
    pub fn contains(&self, key: &str) -> (r: bool)
        ensures
            r == self@.contains_key(key@),
    {
        self.get_value(key).is_some()
    }

    fn lookup(entries: &Vec<(String, CtxValue)>, key: &str) -> (r: Option<CtxValue>)
        ensures
            r is Some <==> Context::entries_map(entries@).contains_key(key@),
            r is Some ==> cv_like(r->0, Context::entries_map(entries@)[key@]),
    {
        let mut i: usize = entries.len();
        proof {
            assert(entries@.subrange(0, entries@.len() as int) =~= entries@);
        }
        while i > 0
            invariant
                i <= entries@.len(),
                Context::entries_map(entries@).contains_key(key@) ==> Context::entries_map(
                    entries@.subrange(0, i as int),
                ).contains_key(key@),
                Context::entries_map(entries@).contains_key(key@) ==> Context::entries_map(
                    entries@.subrange(0, i as int),
                )[key@] == Context::entries_map(entries@)[key@],
                !Context::entries_map(entries@).contains_key(key@) ==> !Context::entries_map(
                    entries@.subrange(0, i as int),
                ).contains_key(key@),
            decreases i,
        {
            let idx = i - 1;
            proof {
                assert(entries@.subrange(0, i as int).drop_last() =~= entries@.subrange(
                    0,
                    idx as int,
                ));
                assert(entries@.subrange(0, i as int).last() == entries@[idx as int]);
            }
            if str_eq(entries[idx].0.as_str(), key) {
                return Option::Some(entries[idx].1.clone());
            }
            i = idx;
        }
        proof {
            assert(entries@.subrange(0, 0) =~= Seq::<(String, CtxValue)>::empty());
        }
        Option::None
    }
}

/// The string stored under a key, or nothing if the key is absent or holds
/// another type.
pub open spec fn ctx_str(m: Map<Seq<char>, CtxValue>, k: Seq<char>) -> Option<Seq<char>> {
    if m.contains_key(k) {
        match m[k] {
            CtxValue::Str(s) => Option::Some(s@),
            _ => Option::None,
        }
    } else {
        Option::None
    }
}

pub open spec fn ctx_bool(m: Map<Seq<char>, CtxValue>, k: Seq<char>) -> Option<bool> {
    if m.contains_key(k) {
        match m[k] {
            CtxValue::Bool(b) => Option::Some(b),
            _ => Option::None,
        }
    } else {
        Option::None
    }
}

pub open spec fn ctx_u64(m: Map<Seq<char>, CtxValue>, k: Seq<char>) -> Option<u64> {
    if m.contains_key(k) {
        match m[k] {
            CtxValue::U64(v) => Option::Some(v),
            _ => Option::None,
        }
    } else {
        Option::None
    }
}

pub open spec fn ctx_hundredths(m: Map<Seq<char>, CtxValue>, k: Seq<char>) -> Option<u32> {
    if m.contains_key(k) {
        match m[k] {
            CtxValue::Hundredths(v) => Option::Some(v),
            _ => Option::None,
        }
    } else {
        Option::None
    }
}

/// The views of the strings stored under a list key.
pub open spec fn ctx_strings(m: Map<Seq<char>, CtxValue>, k: Seq<char>) -> Option<Seq<Seq<char>>> {
    if m.contains_key(k) {
        match m[k] {
            CtxValue::StrList(v) => Option::Some(v.deep_view()),
            _ => Option::None,
        }
    } else {
        Option::None
    }
}

pub open spec fn ctx_opt_int(m: Map<Seq<char>, CtxValue>, k: Seq<char>) -> Option<Option<i32>> {
    if m.contains_key(k) {
        match m[k] {
            CtxValue::OptInt(v) => Option::Some(v),
            _ => Option::None,
        }
    } else {
        Option::None
    }
}

pub open spec fn ctx_str_list(m: Map<Seq<char>, CtxValue>, k: Seq<char>) -> Option<Seq<String>> {
    if m.contains_key(k) {
        match m[k] {
            CtxValue::StrList(v) => Option::Some(v@),
            _ => Option::None,
        }
    } else {
        Option::None
    }
}

/// The context-schema keys are pairwise distinct, so a write to one never
/// shadows another.
#[verifier::rlimit(100)]
pub proof fn schema_keys_distinct()
    ensures
        "query"@ != "session_id"@,
        "query"@ != "session.namespace"@,
        "query"@ != "trace.enabled"@,
        "query"@ != "trace.collector"@,
        "query"@ != "research.findings"@,
        "query"@ != "research.sources"@,
        "query"@ != "analysis.output"@,
        "query"@ != "analysis.math_alert_required"@,
        "query"@ != "analysis.math_retry_recommended"@,
        "query"@ != "math.request"@,
        "query"@ != "math.result"@,
        "query"@ != "math.status"@,
        "query"@ != "math.stdout"@,
        "query"@ != "math.stderr"@,
        "query"@ != "math.exit_code"@,
        "query"@ != "math.timed_out"@,
        "query"@ != "math.duration_ms"@,
        "query"@ != "math.outputs"@,
        "query"@ != "math.script_name"@,
        "query"@ != "math.alert_required"@,
        "query"@ != "math.retry_recommended"@,
        "query"@ != "math.degradation_note"@,
        "query"@ != "factcheck.confidence"@,
        "query"@ != "factcheck.verified_sources"@,
        "query"@ != "factcheck.passed"@,
        "query"@ != "factcheck.notes"@,
        "query"@ != "critique.confident"@,
        "query"@ != "critique.verdict"@,
        "query"@ != "final.summary"@,
        "query"@ != "final.requires_manual"@,
        "session_id"@ != "session.namespace"@,
        "session_id"@ != "trace.enabled"@,
        "session_id"@ != "trace.collector"@,
        "session_id"@ != "research.findings"@,
        "session_id"@ != "research.sources"@,
        "session_id"@ != "analysis.output"@,
        "session_id"@ != "analysis.math_alert_required"@,
        "session_id"@ != "analysis.math_retry_recommended"@,
        "session_id"@ != "math.request"@,
        "session_id"@ != "math.result"@,
        "session_id"@ != "math.status"@,
        "session_id"@ != "math.stdout"@,
        "session_id"@ != "math.stderr"@,
        "session_id"@ != "math.exit_code"@,
        "session_id"@ != "math.timed_out"@,
        "session_id"@ != "math.duration_ms"@,
        "session_id"@ != "math.outputs"@,
        "session_id"@ != "math.script_name"@,
        "session_id"@ != "math.alert_required"@,
        "session_id"@ != "math.retry_recommended"@,
        "session_id"@ != "math.degradation_note"@,
        "session_id"@ != "factcheck.confidence"@,
        "session_id"@ != "factcheck.verified_sources"@,
        "session_id"@ != "factcheck.passed"@,
        "session_id"@ != "factcheck.notes"@,
        "session_id"@ != "critique.confident"@,
        "session_id"@ != "critique.verdict"@,
        "session_id"@ != "final.summary"@,
        "session_id"@ != "final.requires_manual"@,
        "session.namespace"@ != "trace.enabled"@,
        "session.namespace"@ != "trace.collector"@,
        "session.namespace"@ != "research.findings"@,
        "session.namespace"@ != "research.sources"@,
        "session.namespace"@ != "analysis.output"@,
        "session.namespace"@ != "analysis.math_alert_required"@,
        "session.namespace"@ != "analysis.math_retry_recommended"@,
        "session.namespace"@ != "math.request"@,
        "session.namespace"@ != "math.result"@,
        "session.namespace"@ != "math.status"@,
        "session.namespace"@ != "math.stdout"@,
        "session.namespace"@ != "math.stderr"@,
        "session.namespace"@ != "math.exit_code"@,
        "session.namespace"@ != "math.timed_out"@,
        "session.namespace"@ != "math.duration_ms"@,
        "session.namespace"@ != "math.outputs"@,
        "session.namespace"@ != "math.script_name"@,
        "session.namespace"@ != "math.alert_required"@,
        "session.namespace"@ != "math.retry_recommended"@,
        "session.namespace"@ != "math.degradation_note"@,
        "session.namespace"@ != "factcheck.confidence"@,
        "session.namespace"@ != "factcheck.verified_sources"@,
        "session.namespace"@ != "factcheck.passed"@,
        "session.namespace"@ != "factcheck.notes"@,
        "session.namespace"@ != "critique.confident"@,
        "session.namespace"@ != "critique.verdict"@,
        "session.namespace"@ != "final.summary"@,
        "session.namespace"@ != "final.requires_manual"@,
        "trace.enabled"@ != "trace.collector"@,
        "trace.enabled"@ != "research.findings"@,
        "trace.enabled"@ != "research.sources"@,
        "trace.enabled"@ != "analysis.output"@,
        "trace.enabled"@ != "analysis.math_alert_required"@,
        "trace.enabled"@ != "analysis.math_retry_recommended"@,
        "trace.enabled"@ != "math.request"@,
        "trace.enabled"@ != "math.result"@,
        "trace.enabled"@ != "math.status"@,
        "trace.enabled"@ != "math.stdout"@,
        "trace.enabled"@ != "math.stderr"@,
        "trace.enabled"@ != "math.exit_code"@,
        "trace.enabled"@ != "math.timed_out"@,
        "trace.enabled"@ != "math.duration_ms"@,
        "trace.enabled"@ != "math.outputs"@,
        "trace.enabled"@ != "math.script_name"@,
        "trace.enabled"@ != "math.alert_required"@,
        "trace.enabled"@ != "math.retry_recommended"@,
        "trace.enabled"@ != "math.degradation_note"@,
        "trace.enabled"@ != "factcheck.confidence"@,
        "trace.enabled"@ != "factcheck.verified_sources"@,
        "trace.enabled"@ != "factcheck.passed"@,
        "trace.enabled"@ != "factcheck.notes"@,
        "trace.enabled"@ != "critique.confident"@,
        "trace.enabled"@ != "critique.verdict"@,
        "trace.enabled"@ != "final.summary"@,
        "trace.enabled"@ != "final.requires_manual"@,
        "trace.collector"@ != "research.findings"@,
        "trace.collector"@ != "research.sources"@,
        "trace.collector"@ != "analysis.output"@,
        "trace.collector"@ != "analysis.math_alert_required"@,
        "trace.collector"@ != "analysis.math_retry_recommended"@,
        "trace.collector"@ != "math.request"@,
        "trace.collector"@ != "math.result"@,
        "trace.collector"@ != "math.status"@,
        "trace.collector"@ != "math.stdout"@,
        "trace.collector"@ != "math.stderr"@,
        "trace.collector"@ != "math.exit_code"@,
        "trace.collector"@ != "math.timed_out"@,
        "trace.collector"@ != "math.duration_ms"@,
        "trace.collector"@ != "math.outputs"@,
        "trace.collector"@ != "math.script_name"@,
        "trace.collector"@ != "math.alert_required"@,
        "trace.collector"@ != "math.retry_recommended"@,
        "trace.collector"@ != "math.degradation_note"@,
        "trace.collector"@ != "factcheck.confidence"@,
        "trace.collector"@ != "factcheck.verified_sources"@,
        "trace.collector"@ != "factcheck.passed"@,
        "trace.collector"@ != "factcheck.notes"@,
        "trace.collector"@ != "critique.confident"@,
        "trace.collector"@ != "critique.verdict"@,
        "trace.collector"@ != "final.summary"@,
        "trace.collector"@ != "final.requires_manual"@,
        "research.findings"@ != "research.sources"@,
        "research.findings"@ != "analysis.output"@,
        "research.findings"@ != "analysis.math_alert_required"@,
        "research.findings"@ != "analysis.math_retry_recommended"@,
        "research.findings"@ != "math.request"@,
        "research.findings"@ != "math.result"@,
        "research.findings"@ != "math.status"@,
        "research.findings"@ != "math.stdout"@,
        "research.findings"@ != "math.stderr"@,
        "research.findings"@ != "math.exit_code"@,
        "research.findings"@ != "math.timed_out"@,
        "research.findings"@ != "math.duration_ms"@,
        "research.findings"@ != "math.outputs"@,
        "research.findings"@ != "math.script_name"@,
        "research.findings"@ != "math.alert_required"@,
        "research.findings"@ != "math.retry_recommended"@,
        "research.findings"@ != "math.degradation_note"@,
        "research.findings"@ != "factcheck.confidence"@,
        "research.findings"@ != "factcheck.verified_sources"@,
        "research.findings"@ != "factcheck.passed"@,
        "research.findings"@ != "factcheck.notes"@,
        "research.findings"@ != "critique.confident"@,
        "research.findings"@ != "critique.verdict"@,
        "research.findings"@ != "final.summary"@,
        "research.findings"@ != "final.requires_manual"@,
        "research.sources"@ != "analysis.output"@,
        "research.sources"@ != "analysis.math_alert_required"@,
        "research.sources"@ != "analysis.math_retry_recommended"@,
        "research.sources"@ != "math.request"@,
        "research.sources"@ != "math.result"@,
        "research.sources"@ != "math.status"@,
        "research.sources"@ != "math.stdout"@,
        "research.sources"@ != "math.stderr"@,
        "research.sources"@ != "math.exit_code"@,
        "research.sources"@ != "math.timed_out"@,
        "research.sources"@ != "math.duration_ms"@,
        "research.sources"@ != "math.outputs"@,
        "research.sources"@ != "math.script_name"@,
        "research.sources"@ != "math.alert_required"@,
        "research.sources"@ != "math.retry_recommended"@,
        "research.sources"@ != "math.degradation_note"@,
        "research.sources"@ != "factcheck.confidence"@,
        "research.sources"@ != "factcheck.verified_sources"@,
        "research.sources"@ != "factcheck.passed"@,
        "research.sources"@ != "factcheck.notes"@,
        "research.sources"@ != "critique.confident"@,
        "research.sources"@ != "critique.verdict"@,
        "research.sources"@ != "final.summary"@,
        "research.sources"@ != "final.requires_manual"@,
        "analysis.output"@ != "analysis.math_alert_required"@,
        "analysis.output"@ != "analysis.math_retry_recommended"@,
        "analysis.output"@ != "math.request"@,
        "analysis.output"@ != "math.result"@,
        "analysis.output"@ != "math.status"@,
        "analysis.output"@ != "math.stdout"@,
        "analysis.output"@ != "math.stderr"@,
        "analysis.output"@ != "math.exit_code"@,
        "analysis.output"@ != "math.timed_out"@,
        "analysis.output"@ != "math.duration_ms"@,
        "analysis.output"@ != "math.outputs"@,
        "analysis.output"@ != "math.script_name"@,
        "analysis.output"@ != "math.alert_required"@,
        "analysis.output"@ != "math.retry_recommended"@,
        "analysis.output"@ != "math.degradation_note"@,
        "analysis.output"@ != "factcheck.confidence"@,
        "analysis.output"@ != "factcheck.verified_sources"@,
        "analysis.output"@ != "factcheck.passed"@,
        "analysis.output"@ != "factcheck.notes"@,
        "analysis.output"@ != "critique.confident"@,
        "analysis.output"@ != "critique.verdict"@,
        "analysis.output"@ != "final.summary"@,
        "analysis.output"@ != "final.requires_manual"@,
        "analysis.math_alert_required"@ != "analysis.math_retry_recommended"@,
        "analysis.math_alert_required"@ != "math.request"@,
        "analysis.math_alert_required"@ != "math.result"@,
        "analysis.math_alert_required"@ != "math.status"@,
        "analysis.math_alert_required"@ != "math.stdout"@,
        "analysis.math_alert_required"@ != "math.stderr"@,
        "analysis.math_alert_required"@ != "math.exit_code"@,
        "analysis.math_alert_required"@ != "math.timed_out"@,
        "analysis.math_alert_required"@ != "math.duration_ms"@,
        "analysis.math_alert_required"@ != "math.outputs"@,
        "analysis.math_alert_required"@ != "math.script_name"@,
        "analysis.math_alert_required"@ != "math.alert_required"@,
        "analysis.math_alert_required"@ != "math.retry_recommended"@,
        "analysis.math_alert_required"@ != "math.degradation_note"@,
        "analysis.math_alert_required"@ != "factcheck.confidence"@,
        "analysis.math_alert_required"@ != "factcheck.verified_sources"@,
        "analysis.math_alert_required"@ != "factcheck.passed"@,
        "analysis.math_alert_required"@ != "factcheck.notes"@,
        "analysis.math_alert_required"@ != "critique.confident"@,
        "analysis.math_alert_required"@ != "critique.verdict"@,
        "analysis.math_alert_required"@ != "final.summary"@,
        "analysis.math_alert_required"@ != "final.requires_manual"@,
        "analysis.math_retry_recommended"@ != "math.request"@,
        "analysis.math_retry_recommended"@ != "math.result"@,
        "analysis.math_retry_recommended"@ != "math.status"@,
        "analysis.math_retry_recommended"@ != "math.stdout"@,
        "analysis.math_retry_recommended"@ != "math.stderr"@,
        "analysis.math_retry_recommended"@ != "math.exit_code"@,
        "analysis.math_retry_recommended"@ != "math.timed_out"@,
        "analysis.math_retry_recommended"@ != "math.duration_ms"@,
        "analysis.math_retry_recommended"@ != "math.outputs"@,
        "analysis.math_retry_recommended"@ != "math.script_name"@,
        "analysis.math_retry_recommended"@ != "math.alert_required"@,
        "analysis.math_retry_recommended"@ != "math.retry_recommended"@,
        "analysis.math_retry_recommended"@ != "math.degradation_note"@,
        "analysis.math_retry_recommended"@ != "factcheck.confidence"@,
        "analysis.math_retry_recommended"@ != "factcheck.verified_sources"@,
        "analysis.math_retry_recommended"@ != "factcheck.passed"@,
        "analysis.math_retry_recommended"@ != "factcheck.notes"@,
        "analysis.math_retry_recommended"@ != "critique.confident"@,
        "analysis.math_retry_recommended"@ != "critique.verdict"@,
        "analysis.math_retry_recommended"@ != "final.summary"@,
        "analysis.math_retry_recommended"@ != "final.requires_manual"@,
        "math.request"@ != "math.result"@,
        "math.request"@ != "math.status"@,
        "math.request"@ != "math.stdout"@,
        "math.request"@ != "math.stderr"@,
        "math.request"@ != "math.exit_code"@,
        "math.request"@ != "math.timed_out"@,
        "math.request"@ != "math.duration_ms"@,
        "math.request"@ != "math.outputs"@,
        "math.request"@ != "math.script_name"@,
        "math.request"@ != "math.alert_required"@,
        "math.request"@ != "math.retry_recommended"@,
        "math.request"@ != "math.degradation_note"@,
        "math.request"@ != "factcheck.confidence"@,
        "math.request"@ != "factcheck.verified_sources"@,
        "math.request"@ != "factcheck.passed"@,
        "math.request"@ != "factcheck.notes"@,
        "math.request"@ != "critique.confident"@,
        "math.request"@ != "critique.verdict"@,
        "math.request"@ != "final.summary"@,
        "math.request"@ != "final.requires_manual"@,
        "math.result"@ != "math.status"@,
        "math.result"@ != "math.stdout"@,
        "math.result"@ != "math.stderr"@,
        "math.result"@ != "math.exit_code"@,
        "math.result"@ != "math.timed_out"@,
        "math.result"@ != "math.duration_ms"@,
        "math.result"@ != "math.outputs"@,
        "math.result"@ != "math.script_name"@,
        "math.result"@ != "math.alert_required"@,
        "math.result"@ != "math.retry_recommended"@,
        "math.result"@ != "math.degradation_note"@,
        "math.result"@ != "factcheck.confidence"@,
        "math.result"@ != "factcheck.verified_sources"@,
        "math.result"@ != "factcheck.passed"@,
        "math.result"@ != "factcheck.notes"@,
        "math.result"@ != "critique.confident"@,
        "math.result"@ != "critique.verdict"@,
        "math.result"@ != "final.summary"@,
        "math.result"@ != "final.requires_manual"@,
        "math.status"@ != "math.stdout"@,
        "math.status"@ != "math.stderr"@,
        "math.status"@ != "math.exit_code"@,
        "math.status"@ != "math.timed_out"@,
        "math.status"@ != "math.duration_ms"@,
        "math.status"@ != "math.outputs"@,
        "math.status"@ != "math.script_name"@,
        "math.status"@ != "math.alert_required"@,
        "math.status"@ != "math.retry_recommended"@,
        "math.status"@ != "math.degradation_note"@,
        "math.status"@ != "factcheck.confidence"@,
        "math.status"@ != "factcheck.verified_sources"@,
        "math.status"@ != "factcheck.passed"@,
        "math.status"@ != "factcheck.notes"@,
        "math.status"@ != "critique.confident"@,
        "math.status"@ != "critique.verdict"@,
        "math.status"@ != "final.summary"@,
        "math.status"@ != "final.requires_manual"@,
        "math.stdout"@ != "math.stderr"@,
        "math.stdout"@ != "math.exit_code"@,
        "math.stdout"@ != "math.timed_out"@,
        "math.stdout"@ != "math.duration_ms"@,
        "math.stdout"@ != "math.outputs"@,
        "math.stdout"@ != "math.script_name"@,
        "math.stdout"@ != "math.alert_required"@,
        "math.stdout"@ != "math.retry_recommended"@,
        "math.stdout"@ != "math.degradation_note"@,
        "math.stdout"@ != "factcheck.confidence"@,
        "math.stdout"@ != "factcheck.verified_sources"@,
        "math.stdout"@ != "factcheck.passed"@,
        "math.stdout"@ != "factcheck.notes"@,
        "math.stdout"@ != "critique.confident"@,
        "math.stdout"@ != "critique.verdict"@,
        "math.stdout"@ != "final.summary"@,
        "math.stdout"@ != "final.requires_manual"@,
        "math.stderr"@ != "math.exit_code"@,
        "math.stderr"@ != "math.timed_out"@,
        "math.stderr"@ != "math.duration_ms"@,
        "math.stderr"@ != "math.outputs"@,
        "math.stderr"@ != "math.script_name"@,
        "math.stderr"@ != "math.alert_required"@,
        "math.stderr"@ != "math.retry_recommended"@,
        "math.stderr"@ != "math.degradation_note"@,
        "math.stderr"@ != "factcheck.confidence"@,
        "math.stderr"@ != "factcheck.verified_sources"@,
        "math.stderr"@ != "factcheck.passed"@,
        "math.stderr"@ != "factcheck.notes"@,
        "math.stderr"@ != "critique.confident"@,
        "math.stderr"@ != "critique.verdict"@,
        "math.stderr"@ != "final.summary"@,
        "math.stderr"@ != "final.requires_manual"@,
        "math.exit_code"@ != "math.timed_out"@,
        "math.exit_code"@ != "math.duration_ms"@,
        "math.exit_code"@ != "math.outputs"@,
        "math.exit_code"@ != "math.script_name"@,
        "math.exit_code"@ != "math.alert_required"@,
        "math.exit_code"@ != "math.retry_recommended"@,
        "math.exit_code"@ != "math.degradation_note"@,
        "math.exit_code"@ != "factcheck.confidence"@,
        "math.exit_code"@ != "factcheck.verified_sources"@,
        "math.exit_code"@ != "factcheck.passed"@,
        "math.exit_code"@ != "factcheck.notes"@,
        "math.exit_code"@ != "critique.confident"@,
        "math.exit_code"@ != "critique.verdict"@,
        "math.exit_code"@ != "final.summary"@,
        "math.exit_code"@ != "final.requires_manual"@,
        "math.timed_out"@ != "math.duration_ms"@,
        "math.timed_out"@ != "math.outputs"@,
        "math.timed_out"@ != "math.script_name"@,
        "math.timed_out"@ != "math.alert_required"@,
        "math.timed_out"@ != "math.retry_recommended"@,
        "math.timed_out"@ != "math.degradation_note"@,
        "math.timed_out"@ != "factcheck.confidence"@,
        "math.timed_out"@ != "factcheck.verified_sources"@,
        "math.timed_out"@ != "factcheck.passed"@,
        "math.timed_out"@ != "factcheck.notes"@,
        "math.timed_out"@ != "critique.confident"@,
        "math.timed_out"@ != "critique.verdict"@,
        "math.timed_out"@ != "final.summary"@,
        "math.timed_out"@ != "final.requires_manual"@,
        "math.duration_ms"@ != "math.outputs"@,
        "math.duration_ms"@ != "math.script_name"@,
        "math.duration_ms"@ != "math.alert_required"@,
        "math.duration_ms"@ != "math.retry_recommended"@,
        "math.duration_ms"@ != "math.degradation_note"@,
        "math.duration_ms"@ != "factcheck.confidence"@,
        "math.duration_ms"@ != "factcheck.verified_sources"@,
        "math.duration_ms"@ != "factcheck.passed"@,
        "math.duration_ms"@ != "factcheck.notes"@,
        "math.duration_ms"@ != "critique.confident"@,
        "math.duration_ms"@ != "critique.verdict"@,
        "math.duration_ms"@ != "final.summary"@,
        "math.duration_ms"@ != "final.requires_manual"@,
        "math.outputs"@ != "math.script_name"@,
        "math.outputs"@ != "math.alert_required"@,
        "math.outputs"@ != "math.retry_recommended"@,
        "math.outputs"@ != "math.degradation_note"@,
        "math.outputs"@ != "factcheck.confidence"@,
        "math.outputs"@ != "factcheck.verified_sources"@,
        "math.outputs"@ != "factcheck.passed"@,
        "math.outputs"@ != "factcheck.notes"@,
        "math.outputs"@ != "critique.confident"@,
        "math.outputs"@ != "critique.verdict"@,
        "math.outputs"@ != "final.summary"@,
        "math.outputs"@ != "final.requires_manual"@,
        "math.script_name"@ != "math.alert_required"@,
        "math.script_name"@ != "math.retry_recommended"@,
        "math.script_name"@ != "math.degradation_note"@,
        "math.script_name"@ != "factcheck.confidence"@,
        "math.script_name"@ != "factcheck.verified_sources"@,
        "math.script_name"@ != "factcheck.passed"@,
        "math.script_name"@ != "factcheck.notes"@,
        "math.script_name"@ != "critique.confident"@,
        "math.script_name"@ != "critique.verdict"@,
        "math.script_name"@ != "final.summary"@,
        "math.script_name"@ != "final.requires_manual"@,
        "math.alert_required"@ != "math.retry_recommended"@,
        "math.alert_required"@ != "math.degradation_note"@,
        "math.alert_required"@ != "factcheck.confidence"@,
        "math.alert_required"@ != "factcheck.verified_sources"@,
        "math.alert_required"@ != "factcheck.passed"@,
        "math.alert_required"@ != "factcheck.notes"@,
        "math.alert_required"@ != "critique.confident"@,
        "math.alert_required"@ != "critique.verdict"@,
        "math.alert_required"@ != "final.summary"@,
        "math.alert_required"@ != "final.requires_manual"@,
        "math.retry_recommended"@ != "math.degradation_note"@,
        "math.retry_recommended"@ != "factcheck.confidence"@,
        "math.retry_recommended"@ != "factcheck.verified_sources"@,
        "math.retry_recommended"@ != "factcheck.passed"@,
        "math.retry_recommended"@ != "factcheck.notes"@,
        "math.retry_recommended"@ != "critique.confident"@,
        "math.retry_recommended"@ != "critique.verdict"@,
        "math.retry_recommended"@ != "final.summary"@,
        "math.retry_recommended"@ != "final.requires_manual"@,
        "math.degradation_note"@ != "factcheck.confidence"@,
        "math.degradation_note"@ != "factcheck.verified_sources"@,
        "math.degradation_note"@ != "factcheck.passed"@,
        "math.degradation_note"@ != "factcheck.notes"@,
        "math.degradation_note"@ != "critique.confident"@,
        "math.degradation_note"@ != "critique.verdict"@,
        "math.degradation_note"@ != "final.summary"@,
        "math.degradation_note"@ != "final.requires_manual"@,
        "factcheck.confidence"@ != "factcheck.verified_sources"@,
        "factcheck.confidence"@ != "factcheck.passed"@,
        "factcheck.confidence"@ != "factcheck.notes"@,
        "factcheck.confidence"@ != "critique.confident"@,
        "factcheck.confidence"@ != "critique.verdict"@,
        "factcheck.confidence"@ != "final.summary"@,
        "factcheck.confidence"@ != "final.requires_manual"@,
        "factcheck.verified_sources"@ != "factcheck.passed"@,
        "factcheck.verified_sources"@ != "factcheck.notes"@,
        "factcheck.verified_sources"@ != "critique.confident"@,
        "factcheck.verified_sources"@ != "critique.verdict"@,
        "factcheck.verified_sources"@ != "final.summary"@,
        "factcheck.verified_sources"@ != "final.requires_manual"@,
        "factcheck.passed"@ != "factcheck.notes"@,
        "factcheck.passed"@ != "critique.confident"@,
        "factcheck.passed"@ != "critique.verdict"@,
        "factcheck.passed"@ != "final.summary"@,
        "factcheck.passed"@ != "final.requires_manual"@,
        "factcheck.notes"@ != "critique.confident"@,
        "factcheck.notes"@ != "critique.verdict"@,
        "factcheck.notes"@ != "final.summary"@,
        "factcheck.notes"@ != "final.requires_manual"@,
        "critique.confident"@ != "critique.verdict"@,
        "critique.confident"@ != "final.summary"@,
        "critique.confident"@ != "final.requires_manual"@,
        "critique.verdict"@ != "final.summary"@,
        "critique.verdict"@ != "final.requires_manual"@,
        "final.summary"@ != "final.requires_manual"@,
{
    reveal_strlit("query");
    reveal_strlit("session_id");
    reveal_strlit("session.namespace");
    reveal_strlit("trace.enabled");
    reveal_strlit("trace.collector");
    reveal_strlit("research.findings");
    reveal_strlit("research.sources");
    reveal_strlit("analysis.output");
    reveal_strlit("analysis.math_alert_required");
    reveal_strlit("analysis.math_retry_recommended");
    reveal_strlit("math.request");
    reveal_strlit("math.result");
    reveal_strlit("math.status");
    reveal_strlit("math.stdout");
    reveal_strlit("math.stderr");
    reveal_strlit("math.exit_code");
    reveal_strlit("math.timed_out");
    reveal_strlit("math.duration_ms");
    reveal_strlit("math.outputs");
    reveal_strlit("math.script_name");
    reveal_strlit("math.alert_required");
    reveal_strlit("math.retry_recommended");
    reveal_strlit("math.degradation_note");
    reveal_strlit("factcheck.confidence");
    reveal_strlit("factcheck.verified_sources");
    reveal_strlit("factcheck.passed");
    reveal_strlit("factcheck.notes");
    reveal_strlit("critique.confident");
    reveal_strlit("critique.verdict");
    reveal_strlit("final.summary");
    reveal_strlit("final.requires_manual");
    assert("query"@ != "session_id"@) by {
        if "query"@ == "session_id"@ {
            assert(("query"@).len() == ("session_id"@).len());
        }
    }
    assert("query"@ != "session.namespace"@) by {
        if "query"@ == "session.namespace"@ {
            assert(("query"@).len() == ("session.namespace"@).len());
        }
    }
    assert("query"@ != "trace.enabled"@) by {
        if "query"@ == "trace.enabled"@ {
            assert(("query"@).len() == ("trace.enabled"@).len());
        }
    }
    assert("query"@ != "trace.collector"@) by {
        if "query"@ == "trace.collector"@ {
            assert(("query"@).len() == ("trace.collector"@).len());
        }
    }
    assert("query"@ != "research.findings"@) by {
        if "query"@ == "research.findings"@ {
            assert(("query"@).len() == ("research.findings"@).len());
        }
    }
    assert("query"@ != "research.sources"@) by {
        if "query"@ == "research.sources"@ {
            assert(("query"@).len() == ("research.sources"@).len());
        }
    }
    assert("query"@ != "analysis.output"@) by {
        if "query"@ == "analysis.output"@ {
            assert(("query"@).len() == ("analysis.output"@).len());
        }
    }
    assert("query"@ != "analysis.math_alert_required"@) by {
        if "query"@ == "analysis.math_alert_required"@ {
            assert(("query"@).len() == ("analysis.math_alert_required"@).len());
        }
    }
    assert("query"@ != "analysis.math_retry_recommended"@) by {
        if "query"@ == "analysis.math_retry_recommended"@ {
            assert(("query"@).len() == ("analysis.math_retry_recommended"@).len());
        }
    }
    assert("query"@ != "math.request"@) by {
        if "query"@ == "math.request"@ {
            assert(("query"@).len() == ("math.request"@).len());
        }
    }
    assert("query"@ != "math.result"@) by {
        if "query"@ == "math.result"@ {
            assert(("query"@).len() == ("math.result"@).len());
        }
    }
    assert("query"@ != "math.status"@) by {
        if "query"@ == "math.status"@ {
            assert(("query"@).len() == ("math.status"@).len());
        }
    }
    assert("query"@ != "math.stdout"@) by {
        if "query"@ == "math.stdout"@ {
            assert(("query"@).len() == ("math.stdout"@).len());
        }
    }
    assert("query"@ != "math.stderr"@) by {
        if "query"@ == "math.stderr"@ {
            assert(("query"@).len() == ("math.stderr"@).len());
        }
    }
    assert("query"@ != "math.exit_code"@) by {
        if "query"@ == "math.exit_code"@ {
            assert(("query"@).len() == ("math.exit_code"@).len());
        }
    }
    assert("query"@ != "math.timed_out"@) by {
        if "query"@ == "math.timed_out"@ {
            assert(("query"@).len() == ("math.timed_out"@).len());
        }
    }
    assert("query"@ != "math.duration_ms"@) by {
        if "query"@ == "math.duration_ms"@ {
            assert(("query"@).len() == ("math.duration_ms"@).len());
        }
    }
    assert("query"@ != "math.outputs"@) by {
        if "query"@ == "math.outputs"@ {
            assert(("query"@).len() == ("math.outputs"@).len());
        }
    }
    assert("query"@ != "math.script_name"@) by {
        if "query"@ == "math.script_name"@ {
            assert(("query"@).len() == ("math.script_name"@).len());
        }
    }
    assert("query"@ != "math.alert_required"@) by {
        if "query"@ == "math.alert_required"@ {
            assert(("query"@).len() == ("math.alert_required"@).len());
        }
    }
    assert("query"@ != "math.retry_recommended"@) by {
        if "query"@ == "math.retry_recommended"@ {
            assert(("query"@).len() == ("math.retry_recommended"@).len());
        }
    }
    assert("query"@ != "math.degradation_note"@) by {
        if "query"@ == "math.degradation_note"@ {
            assert(("query"@).len() == ("math.degradation_note"@).len());
        }
    }
    assert("query"@ != "factcheck.confidence"@) by {
        if "query"@ == "factcheck.confidence"@ {
            assert(("query"@).len() == ("factcheck.confidence"@).len());
        }
    }
    assert("query"@ != "factcheck.verified_sources"@) by {
        if "query"@ == "factcheck.verified_sources"@ {
            assert(("query"@).len() == ("factcheck.verified_sources"@).len());
        }
    }
    assert("query"@ != "factcheck.passed"@) by {
        if "query"@ == "factcheck.passed"@ {
            assert(("query"@).len() == ("factcheck.passed"@).len());
        }
    }
    assert("query"@ != "factcheck.notes"@) by {
        if "query"@ == "factcheck.notes"@ {
            assert(("query"@).len() == ("factcheck.notes"@).len());
        }
    }
    assert("query"@ != "critique.confident"@) by {
        if "query"@ == "critique.confident"@ {
            assert(("query"@).len() == ("critique.confident"@).len());
        }
    }
    assert("query"@ != "critique.verdict"@) by {
        if "query"@ == "critique.verdict"@ {
            assert(("query"@).len() == ("critique.verdict"@).len());
        }
    }
    assert("query"@ != "final.summary"@) by {
        if "query"@ == "final.summary"@ {
            assert(("query"@).len() == ("final.summary"@).len());
        }
    }
    assert("query"@ != "final.requires_manual"@) by {
        if "query"@ == "final.requires_manual"@ {
            assert(("query"@).len() == ("final.requires_manual"@).len());
        }
    }
    assert("session_id"@ != "session.namespace"@) by {
        if "session_id"@ == "session.namespace"@ {
            assert(("session_id"@).len() == ("session.namespace"@).len());
        }
    }
    assert("session_id"@ != "trace.enabled"@) by {
        if "session_id"@ == "trace.enabled"@ {
            assert(("session_id"@).len() == ("trace.enabled"@).len());
        }
    }
    assert("session_id"@ != "trace.collector"@) by {
        if "session_id"@ == "trace.collector"@ {
            assert(("session_id"@).len() == ("trace.collector"@).len());
        }
    }
    assert("session_id"@ != "research.findings"@) by {
        if "session_id"@ == "research.findings"@ {
            assert(("session_id"@).len() == ("research.findings"@).len());
        }
    }
    assert("session_id"@ != "research.sources"@) by {
        if "session_id"@ == "research.sources"@ {
            assert(("session_id"@).len() == ("research.sources"@).len());
        }
    }
    assert("session_id"@ != "analysis.output"@) by {
        if "session_id"@ == "analysis.output"@ {
            assert(("session_id"@).len() == ("analysis.output"@).len());
        }
    }
    assert("session_id"@ != "analysis.math_alert_required"@) by {
        if "session_id"@ == "analysis.math_alert_required"@ {
            assert(("session_id"@).len() == ("analysis.math_alert_required"@).len());
        }
    }
    assert("session_id"@ != "analysis.math_retry_recommended"@) by {
        if "session_id"@ == "analysis.math_retry_recommended"@ {
            assert(("session_id"@).len() == ("analysis.math_retry_recommended"@).len());
        }
    }
    assert("session_id"@ != "math.request"@) by {
        if "session_id"@ == "math.request"@ {
            assert(("session_id"@).len() == ("math.request"@).len());
        }
    }
    assert("session_id"@ != "math.result"@) by {
        if "session_id"@ == "math.result"@ {
            assert(("session_id"@).len() == ("math.result"@).len());
        }
    }
    assert("session_id"@ != "math.status"@) by {
        if "session_id"@ == "math.status"@ {
            assert(("session_id"@).len() == ("math.status"@).len());
        }
    }
    assert("session_id"@ != "math.stdout"@) by {
        if "session_id"@ == "math.stdout"@ {
            assert(("session_id"@).len() == ("math.stdout"@).len());
        }
    }
    assert("session_id"@ != "math.stderr"@) by {
        if "session_id"@ == "math.stderr"@ {
            assert(("session_id"@).len() == ("math.stderr"@).len());
        }
    }
    assert("session_id"@ != "math.exit_code"@) by {
        if "session_id"@ == "math.exit_code"@ {
            assert(("session_id"@).len() == ("math.exit_code"@).len());
        }
    }
    assert("session_id"@ != "math.timed_out"@) by {
        if "session_id"@ == "math.timed_out"@ {
            assert(("session_id"@).len() == ("math.timed_out"@).len());
        }
    }
    assert("session_id"@ != "math.duration_ms"@) by {
        if "session_id"@ == "math.duration_ms"@ {
            assert(("session_id"@).len() == ("math.duration_ms"@).len());
        }
    }
    assert("session_id"@ != "math.outputs"@) by {
        if "session_id"@ == "math.outputs"@ {
            assert(("session_id"@).len() == ("math.outputs"@).len());
        }
    }
    assert("session_id"@ != "math.script_name"@) by {
        if "session_id"@ == "math.script_name"@ {
            assert(("session_id"@).len() == ("math.script_name"@).len());
        }
    }
    assert("session_id"@ != "math.alert_required"@) by {
        if "session_id"@ == "math.alert_required"@ {
            assert(("session_id"@).len() == ("math.alert_required"@).len());
        }
    }
    assert("session_id"@ != "math.retry_recommended"@) by {
        if "session_id"@ == "math.retry_recommended"@ {
            assert(("session_id"@).len() == ("math.retry_recommended"@).len());
        }
    }
    assert("session_id"@ != "math.degradation_note"@) by {
        if "session_id"@ == "math.degradation_note"@ {
            assert(("session_id"@).len() == ("math.degradation_note"@).len());
        }
    }
    assert("session_id"@ != "factcheck.confidence"@) by {
        if "session_id"@ == "factcheck.confidence"@ {
            assert(("session_id"@).len() == ("factcheck.confidence"@).len());
        }
    }
    assert("session_id"@ != "factcheck.verified_sources"@) by {
        if "session_id"@ == "factcheck.verified_sources"@ {
            assert(("session_id"@).len() == ("factcheck.verified_sources"@).len());
        }
    }
    assert("session_id"@ != "factcheck.passed"@) by {
        if "session_id"@ == "factcheck.passed"@ {
            assert(("session_id"@).len() == ("factcheck.passed"@).len());
        }
    }
    assert("session_id"@ != "factcheck.notes"@) by {
        if "session_id"@ == "factcheck.notes"@ {
            assert(("session_id"@).len() == ("factcheck.notes"@).len());
        }
    }
    assert("session_id"@ != "critique.confident"@) by {
        if "session_id"@ == "critique.confident"@ {
            assert(("session_id"@).len() == ("critique.confident"@).len());
        }
    }
    assert("session_id"@ != "critique.verdict"@) by {
        if "session_id"@ == "critique.verdict"@ {
            assert(("session_id"@).len() == ("critique.verdict"@).len());
        }
    }
    assert("session_id"@ != "final.summary"@) by {
        if "session_id"@ == "final.summary"@ {
            assert(("session_id"@).len() == ("final.summary"@).len());
        }
    }
    assert("session_id"@ != "final.requires_manual"@) by {
        if "session_id"@ == "final.requires_manual"@ {
            assert(("session_id"@).len() == ("final.requires_manual"@).len());
        }
    }
    assert("session.namespace"@ != "trace.enabled"@) by {
        if "session.namespace"@ == "trace.enabled"@ {
            assert(("session.namespace"@).len() == ("trace.enabled"@).len());
        }
    }
    assert("session.namespace"@ != "trace.collector"@) by {
        if "session.namespace"@ == "trace.collector"@ {
            assert(("session.namespace"@).len() == ("trace.collector"@).len());
        }
    }
    assert("session.namespace"@ != "research.findings"@) by {
        if "session.namespace"@ == "research.findings"@ {
            assert(("session.namespace"@)[0] == ("research.findings"@)[0]);
        }
    }
    assert("session.namespace"@ != "research.sources"@) by {
        if "session.namespace"@ == "research.sources"@ {
            assert(("session.namespace"@).len() == ("research.sources"@).len());
        }
    }
    assert("session.namespace"@ != "analysis.output"@) by {
        if "session.namespace"@ == "analysis.output"@ {
            assert(("session.namespace"@).len() == ("analysis.output"@).len());
        }
    }
    assert("session.namespace"@ != "analysis.math_alert_required"@) by {
        if "session.namespace"@ == "analysis.math_alert_required"@ {
            assert(("session.namespace"@).len() == ("analysis.math_alert_required"@).len());
        }
    }
    assert("session.namespace"@ != "analysis.math_retry_recommended"@) by {
        if "session.namespace"@ == "analysis.math_retry_recommended"@ {
            assert(("session.namespace"@).len() == ("analysis.math_retry_recommended"@).len());
        }
    }
    assert("session.namespace"@ != "math.request"@) by {
        if "session.namespace"@ == "math.request"@ {
            assert(("session.namespace"@).len() == ("math.request"@).len());
        }
    }
    assert("session.namespace"@ != "math.result"@) by {
        if "session.namespace"@ == "math.result"@ {
            assert(("session.namespace"@).len() == ("math.result"@).len());
        }
    }
    assert("session.namespace"@ != "math.status"@) by {
        if "session.namespace"@ == "math.status"@ {
            assert(("session.namespace"@).len() == ("math.status"@).len());
        }
    }
    assert("session.namespace"@ != "math.stdout"@) by {
        if "session.namespace"@ == "math.stdout"@ {
            assert(("session.namespace"@).len() == ("math.stdout"@).len());
        }
    }
    assert("session.namespace"@ != "math.stderr"@) by {
        if "session.namespace"@ == "math.stderr"@ {
            assert(("session.namespace"@).len() == ("math.stderr"@).len());
        }
    }
    assert("session.namespace"@ != "math.exit_code"@) by {
        if "session.namespace"@ == "math.exit_code"@ {
            assert(("session.namespace"@).len() == ("math.exit_code"@).len());
        }
    }
    assert("session.namespace"@ != "math.timed_out"@) by {
        if "session.namespace"@ == "math.timed_out"@ {
            assert(("session.namespace"@).len() == ("math.timed_out"@).len());
        }
    }
    assert("session.namespace"@ != "math.duration_ms"@) by {
        if "session.namespace"@ == "math.duration_ms"@ {
            assert(("session.namespace"@).len() == ("math.duration_ms"@).len());
        }
    }
    assert("session.namespace"@ != "math.outputs"@) by {
        if "session.namespace"@ == "math.outputs"@ {
            assert(("session.namespace"@).len() == ("math.outputs"@).len());
        }
    }
    assert("session.namespace"@ != "math.script_name"@) by {
        if "session.namespace"@ == "math.script_name"@ {
            assert(("session.namespace"@).len() == ("math.script_name"@).len());
        }
    }
    assert("session.namespace"@ != "math.alert_required"@) by {
        if "session.namespace"@ == "math.alert_required"@ {
            assert(("session.namespace"@).len() == ("math.alert_required"@).len());
        }
    }
    assert("session.namespace"@ != "math.retry_recommended"@) by {
        if "session.namespace"@ == "math.retry_recommended"@ {
            assert(("session.namespace"@).len() == ("math.retry_recommended"@).len());
        }
    }
    assert("session.namespace"@ != "math.degradation_note"@) by {
        if "session.namespace"@ == "math.degradation_note"@ {
            assert(("session.namespace"@).len() == ("math.degradation_note"@).len());
        }
    }
    assert("session.namespace"@ != "factcheck.confidence"@) by {
        if "session.namespace"@ == "factcheck.confidence"@ {
            assert(("session.namespace"@).len() == ("factcheck.confidence"@).len());
        }
    }
    assert("session.namespace"@ != "factcheck.verified_sources"@) by {
        if "session.namespace"@ == "factcheck.verified_sources"@ {
            assert(("session.namespace"@).len() == ("factcheck.verified_sources"@).len());
        }
    }
    assert("session.namespace"@ != "factcheck.passed"@) by {
        if "session.namespace"@ == "factcheck.passed"@ {
            assert(("session.namespace"@).len() == ("factcheck.passed"@).len());
        }
    }
    assert("session.namespace"@ != "factcheck.notes"@) by {
        if "session.namespace"@ == "factcheck.notes"@ {
            assert(("session.namespace"@).len() == ("factcheck.notes"@).len());
        }
    }
    assert("session.namespace"@ != "critique.confident"@) by {
        if "session.namespace"@ == "critique.confident"@ {
            assert(("session.namespace"@).len() == ("critique.confident"@).len());
        }
    }
    assert("session.namespace"@ != "critique.verdict"@) by {
        if "session.namespace"@ == "critique.verdict"@ {
            assert(("session.namespace"@).len() == ("critique.verdict"@).len());
        }
    }
    assert("session.namespace"@ != "final.summary"@) by {
        if "session.namespace"@ == "final.summary"@ {
            assert(("session.namespace"@).len() == ("final.summary"@).len());
        }
    }
    assert("session.namespace"@ != "final.requires_manual"@) by {
        if "session.namespace"@ == "final.requires_manual"@ {
            assert(("session.namespace"@).len() == ("final.requires_manual"@).len());
        }
    }
    assert("trace.enabled"@ != "trace.collector"@) by {
        if "trace.enabled"@ == "trace.collector"@ {
            assert(("trace.enabled"@).len() == ("trace.collector"@).len());
        }
    }
    assert("trace.enabled"@ != "research.findings"@) by {
        if "trace.enabled"@ == "research.findings"@ {
            assert(("trace.enabled"@).len() == ("research.findings"@).len());
        }
    }
    assert("trace.enabled"@ != "research.sources"@) by {
        if "trace.enabled"@ == "research.sources"@ {
            assert(("trace.enabled"@).len() == ("research.sources"@).len());
        }
    }
    assert("trace.enabled"@ != "analysis.output"@) by {
        if "trace.enabled"@ == "analysis.output"@ {
            assert(("trace.enabled"@).len() == ("analysis.output"@).len());
        }
    }
    assert("trace.enabled"@ != "analysis.math_alert_required"@) by {
        if "trace.enabled"@ == "analysis.math_alert_required"@ {
            assert(("trace.enabled"@).len() == ("analysis.math_alert_required"@).len());
        }
    }
    assert("trace.enabled"@ != "analysis.math_retry_recommended"@) by {
        if "trace.enabled"@ == "analysis.math_retry_recommended"@ {
            assert(("trace.enabled"@).len() == ("analysis.math_retry_recommended"@).len());
        }
    }
    assert("trace.enabled"@ != "math.request"@) by {
        if "trace.enabled"@ == "math.request"@ {
            assert(("trace.enabled"@).len() == ("math.request"@).len());
        }
    }
    assert("trace.enabled"@ != "math.result"@) by {
        if "trace.enabled"@ == "math.result"@ {
            assert(("trace.enabled"@).len() == ("math.result"@).len());
        }
    }
    assert("trace.enabled"@ != "math.status"@) by {
        if "trace.enabled"@ == "math.status"@ {
            assert(("trace.enabled"@).len() == ("math.status"@).len());
        }
    }
    assert("trace.enabled"@ != "math.stdout"@) by {
        if "trace.enabled"@ == "math.stdout"@ {
            assert(("trace.enabled"@).len() == ("math.stdout"@).len());
        }
    }
    assert("trace.enabled"@ != "math.stderr"@) by {
        if "trace.enabled"@ == "math.stderr"@ {
            assert(("trace.enabled"@).len() == ("math.stderr"@).len());
        }
    }
    assert("trace.enabled"@ != "math.exit_code"@) by {
        if "trace.enabled"@ == "math.exit_code"@ {
            assert(("trace.enabled"@).len() == ("math.exit_code"@).len());
        }
    }
    assert("trace.enabled"@ != "math.timed_out"@) by {
        if "trace.enabled"@ == "math.timed_out"@ {
            assert(("trace.enabled"@).len() == ("math.timed_out"@).len());
        }
    }
    assert("trace.enabled"@ != "math.duration_ms"@) by {
        if "trace.enabled"@ == "math.duration_ms"@ {
            assert(("trace.enabled"@).len() == ("math.duration_ms"@).len());
        }
    }
    assert("trace.enabled"@ != "math.outputs"@) by {
        if "trace.enabled"@ == "math.outputs"@ {
            assert(("trace.enabled"@).len() == ("math.outputs"@).len());
        }
    }
    assert("trace.enabled"@ != "math.script_name"@) by {
        if "trace.enabled"@ == "math.script_name"@ {
            assert(("trace.enabled"@).len() == ("math.script_name"@).len());
        }
    }
    assert("trace.enabled"@ != "math.alert_required"@) by {
        if "trace.enabled"@ == "math.alert_required"@ {
            assert(("trace.enabled"@).len() == ("math.alert_required"@).len());
        }
    }
    assert("trace.enabled"@ != "math.retry_recommended"@) by {
        if "trace.enabled"@ == "math.retry_recommended"@ {
            assert(("trace.enabled"@).len() == ("math.retry_recommended"@).len());
        }
    }
    assert("trace.enabled"@ != "math.degradation_note"@) by {
        if "trace.enabled"@ == "math.degradation_note"@ {
            assert(("trace.enabled"@).len() == ("math.degradation_note"@).len());
        }
    }
    assert("trace.enabled"@ != "factcheck.confidence"@) by {
        if "trace.enabled"@ == "factcheck.confidence"@ {
            assert(("trace.enabled"@).len() == ("factcheck.confidence"@).len());
        }
    }
    assert("trace.enabled"@ != "factcheck.verified_sources"@) by {
        if "trace.enabled"@ == "factcheck.verified_sources"@ {
            assert(("trace.enabled"@).len() == ("factcheck.verified_sources"@).len());
        }
    }
    assert("trace.enabled"@ != "factcheck.passed"@) by {
        if "trace.enabled"@ == "factcheck.passed"@ {
            assert(("trace.enabled"@).len() == ("factcheck.passed"@).len());
        }
    }
    assert("trace.enabled"@ != "factcheck.notes"@) by {
        if "trace.enabled"@ == "factcheck.notes"@ {
            assert(("trace.enabled"@).len() == ("factcheck.notes"@).len());
        }
    }
    assert("trace.enabled"@ != "critique.confident"@) by {
        if "trace.enabled"@ == "critique.confident"@ {
            assert(("trace.enabled"@).len() == ("critique.confident"@).len());
        }
    }
    assert("trace.enabled"@ != "critique.verdict"@) by {
        if "trace.enabled"@ == "critique.verdict"@ {
            assert(("trace.enabled"@).len() == ("critique.verdict"@).len());
        }
    }
    assert("trace.enabled"@ != "final.summary"@) by {
        if "trace.enabled"@ == "final.summary"@ {
            assert(("trace.enabled"@)[0] == ("final.summary"@)[0]);
        }
    }
    assert("trace.enabled"@ != "final.requires_manual"@) by {
        if "trace.enabled"@ == "final.requires_manual"@ {
            assert(("trace.enabled"@).len() == ("final.requires_manual"@).len());
        }
    }
    assert("trace.collector"@ != "research.findings"@) by {
        if "trace.collector"@ == "research.findings"@ {
            assert(("trace.collector"@).len() == ("research.findings"@).len());
        }
    }
    assert("trace.collector"@ != "research.sources"@) by {
        if "trace.collector"@ == "research.sources"@ {
            assert(("trace.collector"@).len() == ("research.sources"@).len());
        }
    }
    assert("trace.collector"@ != "analysis.output"@) by {
        if "trace.collector"@ == "analysis.output"@ {
            assert(("trace.collector"@)[0] == ("analysis.output"@)[0]);
        }
    }
    assert("trace.collector"@ != "analysis.math_alert_required"@) by {
        if "trace.collector"@ == "analysis.math_alert_required"@ {
            assert(("trace.collector"@).len() == ("analysis.math_alert_required"@).len());
        }
    }
    assert("trace.collector"@ != "analysis.math_retry_recommended"@) by {
        if "trace.collector"@ == "analysis.math_retry_recommended"@ {
            assert(("trace.collector"@).len() == ("analysis.math_retry_recommended"@).len());
        }
    }
    assert("trace.collector"@ != "math.request"@) by {
        if "trace.collector"@ == "math.request"@ {
            assert(("trace.collector"@).len() == ("math.request"@).len());
        }
    }
    assert("trace.collector"@ != "math.result"@) by {
        if "trace.collector"@ == "math.result"@ {
            assert(("trace.collector"@).len() == ("math.result"@).len());
        }
    }
    assert("trace.collector"@ != "math.status"@) by {
        if "trace.collector"@ == "math.status"@ {
            assert(("trace.collector"@).len() == ("math.status"@).len());
        }
    }
    assert("trace.collector"@ != "math.stdout"@) by {
        if "trace.collector"@ == "math.stdout"@ {
            assert(("trace.collector"@).len() == ("math.stdout"@).len());
        }
    }
    assert("trace.collector"@ != "math.stderr"@) by {
        if "trace.collector"@ == "math.stderr"@ {
            assert(("trace.collector"@).len() == ("math.stderr"@).len());
        }
    }
    assert("trace.collector"@ != "math.exit_code"@) by {
        if "trace.collector"@ == "math.exit_code"@ {
            assert(("trace.collector"@).len() == ("math.exit_code"@).len());
        }
    }
    assert("trace.collector"@ != "math.timed_out"@) by {
        if "trace.collector"@ == "math.timed_out"@ {
            assert(("trace.collector"@).len() == ("math.timed_out"@).len());
        }
    }
    assert("trace.collector"@ != "math.duration_ms"@) by {
        if "trace.collector"@ == "math.duration_ms"@ {
            assert(("trace.collector"@).len() == ("math.duration_ms"@).len());
        }
    }
    assert("trace.collector"@ != "math.outputs"@) by {
        if "trace.collector"@ == "math.outputs"@ {
            assert(("trace.collector"@).len() == ("math.outputs"@).len());
        }
    }
    assert("trace.collector"@ != "math.script_name"@) by {
        if "trace.collector"@ == "math.script_name"@ {
            assert(("trace.collector"@).len() == ("math.script_name"@).len());
        }
    }
    assert("trace.collector"@ != "math.alert_required"@) by {
        if "trace.collector"@ == "math.alert_required"@ {
            assert(("trace.collector"@).len() == ("math.alert_required"@).len());
        }
    }
    assert("trace.collector"@ != "math.retry_recommended"@) by {
        if "trace.collector"@ == "math.retry_recommended"@ {
            assert(("trace.collector"@).len() == ("math.retry_recommended"@).len());
        }
    }
    assert("trace.collector"@ != "math.degradation_note"@) by {
        if "trace.collector"@ == "math.degradation_note"@ {
            assert(("trace.collector"@).len() == ("math.degradation_note"@).len());
        }
    }
    assert("trace.collector"@ != "factcheck.confidence"@) by {
        if "trace.collector"@ == "factcheck.confidence"@ {
            assert(("trace.collector"@).len() == ("factcheck.confidence"@).len());
        }
    }
    assert("trace.collector"@ != "factcheck.verified_sources"@) by {
        if "trace.collector"@ == "factcheck.verified_sources"@ {
            assert(("trace.collector"@).len() == ("factcheck.verified_sources"@).len());
        }
    }
    assert("trace.collector"@ != "factcheck.passed"@) by {
        if "trace.collector"@ == "factcheck.passed"@ {
            assert(("trace.collector"@).len() == ("factcheck.passed"@).len());
        }
    }
    assert("trace.collector"@ != "factcheck.notes"@) by {
        if "trace.collector"@ == "factcheck.notes"@ {
            assert(("trace.collector"@)[0] == ("factcheck.notes"@)[0]);
        }
    }
    assert("trace.collector"@ != "critique.confident"@) by {
        if "trace.collector"@ == "critique.confident"@ {
            assert(("trace.collector"@).len() == ("critique.confident"@).len());
        }
    }
    assert("trace.collector"@ != "critique.verdict"@) by {
        if "trace.collector"@ == "critique.verdict"@ {
            assert(("trace.collector"@).len() == ("critique.verdict"@).len());
        }
    }
    assert("trace.collector"@ != "final.summary"@) by {
        if "trace.collector"@ == "final.summary"@ {
            assert(("trace.collector"@).len() == ("final.summary"@).len());
        }
    }
    assert("trace.collector"@ != "final.requires_manual"@) by {
        if "trace.collector"@ == "final.requires_manual"@ {
            assert(("trace.collector"@).len() == ("final.requires_manual"@).len());
        }
    }
    assert("research.findings"@ != "research.sources"@) by {
        if "research.findings"@ == "research.sources"@ {
            assert(("research.findings"@).len() == ("research.sources"@).len());
        }
    }
    assert("research.findings"@ != "analysis.output"@) by {
        if "research.findings"@ == "analysis.output"@ {
            assert(("research.findings"@).len() == ("analysis.output"@).len());
        }
    }
    assert("research.findings"@ != "analysis.math_alert_required"@) by {
        if "research.findings"@ == "analysis.math_alert_required"@ {
            assert(("research.findings"@).len() == ("analysis.math_alert_required"@).len());
        }
    }
    assert("research.findings"@ != "analysis.math_retry_recommended"@) by {
        if "research.findings"@ == "analysis.math_retry_recommended"@ {
            assert(("research.findings"@).len() == ("analysis.math_retry_recommended"@).len());
        }
    }
    assert("research.findings"@ != "math.request"@) by {
        if "research.findings"@ == "math.request"@ {
            assert(("research.findings"@).len() == ("math.request"@).len());
        }
    }
    assert("research.findings"@ != "math.result"@) by {
        if "research.findings"@ == "math.result"@ {
            assert(("research.findings"@).len() == ("math.result"@).len());
        }
    }
    assert("research.findings"@ != "math.status"@) by {
        if "research.findings"@ == "math.status"@ {
            assert(("research.findings"@).len() == ("math.status"@).len());
        }
    }
    assert("research.findings"@ != "math.stdout"@) by {
        if "research.findings"@ == "math.stdout"@ {
            assert(("research.findings"@).len() == ("math.stdout"@).len());
        }
    }
    assert("research.findings"@ != "math.stderr"@) by {
        if "research.findings"@ == "math.stderr"@ {
            assert(("research.findings"@).len() == ("math.stderr"@).len());
        }
    }
    assert("research.findings"@ != "math.exit_code"@) by {
        if "research.findings"@ == "math.exit_code"@ {
            assert(("research.findings"@).len() == ("math.exit_code"@).len());
        }
    }
    assert("research.findings"@ != "math.timed_out"@) by {
        if "research.findings"@ == "math.timed_out"@ {
            assert(("research.findings"@).len() == ("math.timed_out"@).len());
        }
    }
    assert("research.findings"@ != "math.duration_ms"@) by {
        if "research.findings"@ == "math.duration_ms"@ {
            assert(("research.findings"@).len() == ("math.duration_ms"@).len());
        }
    }
    assert("research.findings"@ != "math.outputs"@) by {
        if "research.findings"@ == "math.outputs"@ {
            assert(("research.findings"@).len() == ("math.outputs"@).len());
        }
    }
    assert("research.findings"@ != "math.script_name"@) by {
        if "research.findings"@ == "math.script_name"@ {
            assert(("research.findings"@).len() == ("math.script_name"@).len());
        }
    }
    assert("research.findings"@ != "math.alert_required"@) by {
        if "research.findings"@ == "math.alert_required"@ {
            assert(("research.findings"@).len() == ("math.alert_required"@).len());
        }
    }
    assert("research.findings"@ != "math.retry_recommended"@) by {
        if "research.findings"@ == "math.retry_recommended"@ {
            assert(("research.findings"@).len() == ("math.retry_recommended"@).len());
        }
    }
    assert("research.findings"@ != "math.degradation_note"@) by {
        if "research.findings"@ == "math.degradation_note"@ {
            assert(("research.findings"@).len() == ("math.degradation_note"@).len());
        }
    }
    assert("research.findings"@ != "factcheck.confidence"@) by {
        if "research.findings"@ == "factcheck.confidence"@ {
            assert(("research.findings"@).len() == ("factcheck.confidence"@).len());
        }
    }
    assert("research.findings"@ != "factcheck.verified_sources"@) by {
        if "research.findings"@ == "factcheck.verified_sources"@ {
            assert(("research.findings"@).len() == ("factcheck.verified_sources"@).len());
        }
    }
    assert("research.findings"@ != "factcheck.passed"@) by {
        if "research.findings"@ == "factcheck.passed"@ {
            assert(("research.findings"@).len() == ("factcheck.passed"@).len());
        }
    }
    assert("research.findings"@ != "factcheck.notes"@) by {
        if "research.findings"@ == "factcheck.notes"@ {
            assert(("research.findings"@).len() == ("factcheck.notes"@).len());
        }
    }
    assert("research.findings"@ != "critique.confident"@) by {
        if "research.findings"@ == "critique.confident"@ {
            assert(("research.findings"@).len() == ("critique.confident"@).len());
        }
    }
    assert("research.findings"@ != "critique.verdict"@) by {
        if "research.findings"@ == "critique.verdict"@ {
            assert(("research.findings"@).len() == ("critique.verdict"@).len());
        }
    }
    assert("research.findings"@ != "final.summary"@) by {
        if "research.findings"@ == "final.summary"@ {
            assert(("research.findings"@).len() == ("final.summary"@).len());
        }
    }
    assert("research.findings"@ != "final.requires_manual"@) by {
        if "research.findings"@ == "final.requires_manual"@ {
            assert(("research.findings"@).len() == ("final.requires_manual"@).len());
        }
    }
    assert("research.sources"@ != "analysis.output"@) by {
        if "research.sources"@ == "analysis.output"@ {
            assert(("research.sources"@).len() == ("analysis.output"@).len());
        }
    }
    assert("research.sources"@ != "analysis.math_alert_required"@) by {
        if "research.sources"@ == "analysis.math_alert_required"@ {
            assert(("research.sources"@).len() == ("analysis.math_alert_required"@).len());
        }
    }
    assert("research.sources"@ != "analysis.math_retry_recommended"@) by {
        if "research.sources"@ == "analysis.math_retry_recommended"@ {
            assert(("research.sources"@).len() == ("analysis.math_retry_recommended"@).len());
        }
    }
    assert("research.sources"@ != "math.request"@) by {
        if "research.sources"@ == "math.request"@ {
            assert(("research.sources"@).len() == ("math.request"@).len());
        }
    }
    assert("research.sources"@ != "math.result"@) by {
        if "research.sources"@ == "math.result"@ {
            assert(("research.sources"@).len() == ("math.result"@).len());
        }
    }
    assert("research.sources"@ != "math.status"@) by {
        if "research.sources"@ == "math.status"@ {
            assert(("research.sources"@).len() == ("math.status"@).len());
        }
    }
    assert("research.sources"@ != "math.stdout"@) by {
        if "research.sources"@ == "math.stdout"@ {
            assert(("research.sources"@).len() == ("math.stdout"@).len());
        }
    }
    assert("research.sources"@ != "math.stderr"@) by {
        if "research.sources"@ == "math.stderr"@ {
            assert(("research.sources"@).len() == ("math.stderr"@).len());
        }
    }
    assert("research.sources"@ != "math.exit_code"@) by {
        if "research.sources"@ == "math.exit_code"@ {
            assert(("research.sources"@).len() == ("math.exit_code"@).len());
        }
    }
    assert("research.sources"@ != "math.timed_out"@) by {
        if "research.sources"@ == "math.timed_out"@ {
            assert(("research.sources"@).len() == ("math.timed_out"@).len());
        }
    }
    assert("research.sources"@ != "math.duration_ms"@) by {
        if "research.sources"@ == "math.duration_ms"@ {
            assert(("research.sources"@)[0] == ("math.duration_ms"@)[0]);
        }
    }
    assert("research.sources"@ != "math.outputs"@) by {
        if "research.sources"@ == "math.outputs"@ {
            assert(("research.sources"@).len() == ("math.outputs"@).len());
        }
    }
    assert("research.sources"@ != "math.script_name"@) by {
        if "research.sources"@ == "math.script_name"@ {
            assert(("research.sources"@)[0] == ("math.script_name"@)[0]);
        }
    }
    assert("research.sources"@ != "math.alert_required"@) by {
        if "research.sources"@ == "math.alert_required"@ {
            assert(("research.sources"@).len() == ("math.alert_required"@).len());
        }
    }
    assert("research.sources"@ != "math.retry_recommended"@) by {
        if "research.sources"@ == "math.retry_recommended"@ {
            assert(("research.sources"@).len() == ("math.retry_recommended"@).len());
        }
    }
    assert("research.sources"@ != "math.degradation_note"@) by {
        if "research.sources"@ == "math.degradation_note"@ {
            assert(("research.sources"@).len() == ("math.degradation_note"@).len());
        }
    }
    assert("research.sources"@ != "factcheck.confidence"@) by {
        if "research.sources"@ == "factcheck.confidence"@ {
            assert(("research.sources"@).len() == ("factcheck.confidence"@).len());
        }
    }
    assert("research.sources"@ != "factcheck.verified_sources"@) by {
        if "research.sources"@ == "factcheck.verified_sources"@ {
            assert(("research.sources"@).len() == ("factcheck.verified_sources"@).len());
        }
    }
    assert("research.sources"@ != "factcheck.passed"@) by {
        if "research.sources"@ == "factcheck.passed"@ {
            assert(("research.sources"@)[0] == ("factcheck.passed"@)[0]);
        }
    }
    assert("research.sources"@ != "factcheck.notes"@) by {
        if "research.sources"@ == "factcheck.notes"@ {
            assert(("research.sources"@).len() == ("factcheck.notes"@).len());
        }
    }
    assert("research.sources"@ != "critique.confident"@) by {
        if "research.sources"@ == "critique.confident"@ {
            assert(("research.sources"@).len() == ("critique.confident"@).len());
        }
    }
    assert("research.sources"@ != "critique.verdict"@) by {
        if "research.sources"@ == "critique.verdict"@ {
            assert(("research.sources"@)[0] == ("critique.verdict"@)[0]);
        }
    }
    assert("research.sources"@ != "final.summary"@) by {
        if "research.sources"@ == "final.summary"@ {
            assert(("research.sources"@).len() == ("final.summary"@).len());
        }
    }
    assert("research.sources"@ != "final.requires_manual"@) by {
        if "research.sources"@ == "final.requires_manual"@ {
            assert(("research.sources"@).len() == ("final.requires_manual"@).len());
        }
    }
    assert("analysis.output"@ != "analysis.math_alert_required"@) by {
        if "analysis.output"@ == "analysis.math_alert_required"@ {
            assert(("analysis.output"@).len() == ("analysis.math_alert_required"@).len());
        }
    }
    assert("analysis.output"@ != "analysis.math_retry_recommended"@) by {
        if "analysis.output"@ == "analysis.math_retry_recommended"@ {
            assert(("analysis.output"@).len() == ("analysis.math_retry_recommended"@).len());
        }
    }
    assert("analysis.output"@ != "math.request"@) by {
        if "analysis.output"@ == "math.request"@ {
            assert(("analysis.output"@).len() == ("math.request"@).len());
        }
    }
    assert("analysis.output"@ != "math.result"@) by {
        if "analysis.output"@ == "math.result"@ {
            assert(("analysis.output"@).len() == ("math.result"@).len());
        }
    }
    assert("analysis.output"@ != "math.status"@) by {
        if "analysis.output"@ == "math.status"@ {
            assert(("analysis.output"@).len() == ("math.status"@).len());
        }
    }
    assert("analysis.output"@ != "math.stdout"@) by {
        if "analysis.output"@ == "math.stdout"@ {
            assert(("analysis.output"@).len() == ("math.stdout"@).len());
        }
    }
    assert("analysis.output"@ != "math.stderr"@) by {
        if "analysis.output"@ == "math.stderr"@ {
            assert(("analysis.output"@).len() == ("math.stderr"@).len());
        }
    }
    assert("analysis.output"@ != "math.exit_code"@) by {
        if "analysis.output"@ == "math.exit_code"@ {
            assert(("analysis.output"@).len() == ("math.exit_code"@).len());
        }
    }
    assert("analysis.output"@ != "math.timed_out"@) by {
        if "analysis.output"@ == "math.timed_out"@ {
            assert(("analysis.output"@).len() == ("math.timed_out"@).len());
        }
    }
    assert("analysis.output"@ != "math.duration_ms"@) by {
        if "analysis.output"@ == "math.duration_ms"@ {
            assert(("analysis.output"@).len() == ("math.duration_ms"@).len());
        }
    }
    assert("analysis.output"@ != "math.outputs"@) by {
        if "analysis.output"@ == "math.outputs"@ {
            assert(("analysis.output"@).len() == ("math.outputs"@).len());
        }
    }
    assert("analysis.output"@ != "math.script_name"@) by {
        if "analysis.output"@ == "math.script_name"@ {
            assert(("analysis.output"@).len() == ("math.script_name"@).len());
        }
    }
    assert("analysis.output"@ != "math.alert_required"@) by {
        if "analysis.output"@ == "math.alert_required"@ {
            assert(("analysis.output"@).len() == ("math.alert_required"@).len());
        }
    }
    assert("analysis.output"@ != "math.retry_recommended"@) by {
        if "analysis.output"@ == "math.retry_recommended"@ {
            assert(("analysis.output"@).len() == ("math.retry_recommended"@).len());
        }
    }
    assert("analysis.output"@ != "math.degradation_note"@) by {
        if "analysis.output"@ == "math.degradation_note"@ {
            assert(("analysis.output"@).len() == ("math.degradation_note"@).len());
        }
    }
    assert("analysis.output"@ != "factcheck.confidence"@) by {
        if "analysis.output"@ == "factcheck.confidence"@ {
            assert(("analysis.output"@).len() == ("factcheck.confidence"@).len());
        }
    }
    assert("analysis.output"@ != "factcheck.verified_sources"@) by {
        if "analysis.output"@ == "factcheck.verified_sources"@ {
            assert(("analysis.output"@).len() == ("factcheck.verified_sources"@).len());
        }
    }
    assert("analysis.output"@ != "factcheck.passed"@) by {
        if "analysis.output"@ == "factcheck.passed"@ {
            assert(("analysis.output"@).len() == ("factcheck.passed"@).len());
        }
    }
    assert("analysis.output"@ != "factcheck.notes"@) by {
        if "analysis.output"@ == "factcheck.notes"@ {
            assert(("analysis.output"@)[0] == ("factcheck.notes"@)[0]);
        }
    }
    assert("analysis.output"@ != "critique.confident"@) by {
        if "analysis.output"@ == "critique.confident"@ {
            assert(("analysis.output"@).len() == ("critique.confident"@).len());
        }
    }
    assert("analysis.output"@ != "critique.verdict"@) by {
        if "analysis.output"@ == "critique.verdict"@ {
            assert(("analysis.output"@).len() == ("critique.verdict"@).len());
        }
    }
    assert("analysis.output"@ != "final.summary"@) by {
        if "analysis.output"@ == "final.summary"@ {
            assert(("analysis.output"@).len() == ("final.summary"@).len());
        }
    }
    assert("analysis.output"@ != "final.requires_manual"@) by {
        if "analysis.output"@ == "final.requires_manual"@ {
            assert(("analysis.output"@).len() == ("final.requires_manual"@).len());
        }
    }
    assert("analysis.math_alert_required"@ != "analysis.math_retry_recommended"@) by {
        if "analysis.math_alert_required"@ == "analysis.math_retry_recommended"@ {
            assert(("analysis.math_alert_required"@).len() == ("analysis.math_retry_recommended"@).len());
        }
    }
    assert("analysis.math_alert_required"@ != "math.request"@) by {
        if "analysis.math_alert_required"@ == "math.request"@ {
            assert(("analysis.math_alert_required"@).len() == ("math.request"@).len());
        }
    }
    assert("analysis.math_alert_required"@ != "math.result"@) by {
        if "analysis.math_alert_required"@ == "math.result"@ {
            assert(("analysis.math_alert_required"@).len() == ("math.result"@).len());
        }
    }
    assert("analysis.math_alert_required"@ != "math.status"@) by {
        if "analysis.math_alert_required"@ == "math.status"@ {
            assert(("analysis.math_alert_required"@).len() == ("math.status"@).len());
        }
    }
    assert("analysis.math_alert_required"@ != "math.stdout"@) by {
        if "analysis.math_alert_required"@ == "math.stdout"@ {
            assert(("analysis.math_alert_required"@).len() == ("math.stdout"@).len());
        }
    }
    assert("analysis.math_alert_required"@ != "math.stderr"@) by {
        if "analysis.math_alert_required"@ == "math.stderr"@ {
            assert(("analysis.math_alert_required"@).len() == ("math.stderr"@).len());
        }
    }
    assert("analysis.math_alert_required"@ != "math.exit_code"@) by {
        if "analysis.math_alert_required"@ == "math.exit_code"@ {
            assert(("analysis.math_alert_required"@).len() == ("math.exit_code"@).len());
        }
    }
    assert("analysis.math_alert_required"@ != "math.timed_out"@) by {
        if "analysis.math_alert_required"@ == "math.timed_out"@ {
            assert(("analysis.math_alert_required"@).len() == ("math.timed_out"@).len());
        }
    }
    assert("analysis.math_alert_required"@ != "math.duration_ms"@) by {
        if "analysis.math_alert_required"@ == "math.duration_ms"@ {
            assert(("analysis.math_alert_required"@).len() == ("math.duration_ms"@).len());
        }
    }
    assert("analysis.math_alert_required"@ != "math.outputs"@) by {
        if "analysis.math_alert_required"@ == "math.outputs"@ {
            assert(("analysis.math_alert_required"@).len() == ("math.outputs"@).len());
        }
    }
    assert("analysis.math_alert_required"@ != "math.script_name"@) by {
        if "analysis.math_alert_required"@ == "math.script_name"@ {
            assert(("analysis.math_alert_required"@).len() == ("math.script_name"@).len());
        }
    }
    assert("analysis.math_alert_required"@ != "math.alert_required"@) by {
        if "analysis.math_alert_required"@ == "math.alert_required"@ {
            assert(("analysis.math_alert_required"@).len() == ("math.alert_required"@).len());
        }
    }
    assert("analysis.math_alert_required"@ != "math.retry_recommended"@) by {
        if "analysis.math_alert_required"@ == "math.retry_recommended"@ {
            assert(("analysis.math_alert_required"@).len() == ("math.retry_recommended"@).len());
        }
    }
    assert("analysis.math_alert_required"@ != "math.degradation_note"@) by {
        if "analysis.math_alert_required"@ == "math.degradation_note"@ {
            assert(("analysis.math_alert_required"@).len() == ("math.degradation_note"@).len());
        }
    }
    assert("analysis.math_alert_required"@ != "factcheck.confidence"@) by {
        if "analysis.math_alert_required"@ == "factcheck.confidence"@ {
            assert(("analysis.math_alert_required"@).len() == ("factcheck.confidence"@).len());
        }
    }
    assert("analysis.math_alert_required"@ != "factcheck.verified_sources"@) by {
        if "analysis.math_alert_required"@ == "factcheck.verified_sources"@ {
            assert(("analysis.math_alert_required"@).len() == ("factcheck.verified_sources"@).len());
        }
    }
    assert("analysis.math_alert_required"@ != "factcheck.passed"@) by {
        if "analysis.math_alert_required"@ == "factcheck.passed"@ {
            assert(("analysis.math_alert_required"@).len() == ("factcheck.passed"@).len());
        }
    }
    assert("analysis.math_alert_required"@ != "factcheck.notes"@) by {
        if "analysis.math_alert_required"@ == "factcheck.notes"@ {
            assert(("analysis.math_alert_required"@).len() == ("factcheck.notes"@).len());
        }
    }
    assert("analysis.math_alert_required"@ != "critique.confident"@) by {
        if "analysis.math_alert_required"@ == "critique.confident"@ {
            assert(("analysis.math_alert_required"@).len() == ("critique.confident"@).len());
        }
    }
    assert("analysis.math_alert_required"@ != "critique.verdict"@) by {
        if "analysis.math_alert_required"@ == "critique.verdict"@ {
            assert(("analysis.math_alert_required"@).len() == ("critique.verdict"@).len());
        }
    }
    assert("analysis.math_alert_required"@ != "final.summary"@) by {
        if "analysis.math_alert_required"@ == "final.summary"@ {
            assert(("analysis.math_alert_required"@).len() == ("final.summary"@).len());
        }
    }
    assert("analysis.math_alert_required"@ != "final.requires_manual"@) by {
        if "analysis.math_alert_required"@ == "final.requires_manual"@ {
            assert(("analysis.math_alert_required"@).len() == ("final.requires_manual"@).len());
        }
    }
    assert("analysis.math_retry_recommended"@ != "math.request"@) by {
        if "analysis.math_retry_recommended"@ == "math.request"@ {
            assert(("analysis.math_retry_recommended"@).len() == ("math.request"@).len());
        }
    }
    assert("analysis.math_retry_recommended"@ != "math.result"@) by {
        if "analysis.math_retry_recommended"@ == "math.result"@ {
            assert(("analysis.math_retry_recommended"@).len() == ("math.result"@).len());
        }
    }
    assert("analysis.math_retry_recommended"@ != "math.status"@) by {
        if "analysis.math_retry_recommended"@ == "math.status"@ {
            assert(("analysis.math_retry_recommended"@).len() == ("math.status"@).len());
        }
    }
    assert("analysis.math_retry_recommended"@ != "math.stdout"@) by {
        if "analysis.math_retry_recommended"@ == "math.stdout"@ {
            assert(("analysis.math_retry_recommended"@).len() == ("math.stdout"@).len());
        }
    }
    assert("analysis.math_retry_recommended"@ != "math.stderr"@) by {
        if "analysis.math_retry_recommended"@ == "math.stderr"@ {
            assert(("analysis.math_retry_recommended"@).len() == ("math.stderr"@).len());
        }
    }
    assert("analysis.math_retry_recommended"@ != "math.exit_code"@) by {
        if "analysis.math_retry_recommended"@ == "math.exit_code"@ {
            assert(("analysis.math_retry_recommended"@).len() == ("math.exit_code"@).len());
        }
    }
    assert("analysis.math_retry_recommended"@ != "math.timed_out"@) by {
        if "analysis.math_retry_recommended"@ == "math.timed_out"@ {
            assert(("analysis.math_retry_recommended"@).len() == ("math.timed_out"@).len());
        }
    }
    assert("analysis.math_retry_recommended"@ != "math.duration_ms"@) by {
        if "analysis.math_retry_recommended"@ == "math.duration_ms"@ {
            assert(("analysis.math_retry_recommended"@).len() == ("math.duration_ms"@).len());
        }
    }
    assert("analysis.math_retry_recommended"@ != "math.outputs"@) by {
        if "analysis.math_retry_recommended"@ == "math.outputs"@ {
            assert(("analysis.math_retry_recommended"@).len() == ("math.outputs"@).len());
        }
    }
    assert("analysis.math_retry_recommended"@ != "math.script_name"@) by {
        if "analysis.math_retry_recommended"@ == "math.script_name"@ {
            assert(("analysis.math_retry_recommended"@).len() == ("math.script_name"@).len());
        }
    }
    assert("analysis.math_retry_recommended"@ != "math.alert_required"@) by {
        if "analysis.math_retry_recommended"@ == "math.alert_required"@ {
            assert(("analysis.math_retry_recommended"@).len() == ("math.alert_required"@).len());
        }
    }
    assert("analysis.math_retry_recommended"@ != "math.retry_recommended"@) by {
        if "analysis.math_retry_recommended"@ == "math.retry_recommended"@ {
            assert(("analysis.math_retry_recommended"@).len() == ("math.retry_recommended"@).len());
        }
    }
    assert("analysis.math_retry_recommended"@ != "math.degradation_note"@) by {
        if "analysis.math_retry_recommended"@ == "math.degradation_note"@ {
            assert(("analysis.math_retry_recommended"@).len() == ("math.degradation_note"@).len());
        }
    }
    assert("analysis.math_retry_recommended"@ != "factcheck.confidence"@) by {
        if "analysis.math_retry_recommended"@ == "factcheck.confidence"@ {
            assert(("analysis.math_retry_recommended"@).len() == ("factcheck.confidence"@).len());
        }
    }
    assert("analysis.math_retry_recommended"@ != "factcheck.verified_sources"@) by {
        if "analysis.math_retry_recommended"@ == "factcheck.verified_sources"@ {
            assert(("analysis.math_retry_recommended"@).len() == ("factcheck.verified_sources"@).len());
        }
    }
    assert("analysis.math_retry_recommended"@ != "factcheck.passed"@) by {
        if "analysis.math_retry_recommended"@ == "factcheck.passed"@ {
            assert(("analysis.math_retry_recommended"@).len() == ("factcheck.passed"@).len());
        }
    }
    assert("analysis.math_retry_recommended"@ != "factcheck.notes"@) by {
        if "analysis.math_retry_recommended"@ == "factcheck.notes"@ {
            assert(("analysis.math_retry_recommended"@).len() == ("factcheck.notes"@).len());
        }
    }
    assert("analysis.math_retry_recommended"@ != "critique.confident"@) by {
        if "analysis.math_retry_recommended"@ == "critique.confident"@ {
            assert(("analysis.math_retry_recommended"@).len() == ("critique.confident"@).len());
        }
    }
    assert("analysis.math_retry_recommended"@ != "critique.verdict"@) by {
        if "analysis.math_retry_recommended"@ == "critique.verdict"@ {
            assert(("analysis.math_retry_recommended"@).len() == ("critique.verdict"@).len());
        }
    }
    assert("analysis.math_retry_recommended"@ != "final.summary"@) by {
        if "analysis.math_retry_recommended"@ == "final.summary"@ {
            assert(("analysis.math_retry_recommended"@).len() == ("final.summary"@).len());
        }
    }
    assert("analysis.math_retry_recommended"@ != "final.requires_manual"@) by {
        if "analysis.math_retry_recommended"@ == "final.requires_manual"@ {
            assert(("analysis.math_retry_recommended"@).len() == ("final.requires_manual"@).len());
        }
    }
    assert("math.request"@ != "math.result"@) by {
        if "math.request"@ == "math.result"@ {
            assert(("math.request"@).len() == ("math.result"@).len());
        }
    }
    assert("math.request"@ != "math.status"@) by {
        if "math.request"@ == "math.status"@ {
            assert(("math.request"@).len() == ("math.status"@).len());
        }
    }
    assert("math.request"@ != "math.stdout"@) by {
        if "math.request"@ == "math.stdout"@ {
            assert(("math.request"@).len() == ("math.stdout"@).len());
        }
    }
    assert("math.request"@ != "math.stderr"@) by {
        if "math.request"@ == "math.stderr"@ {
            assert(("math.request"@).len() == ("math.stderr"@).len());
        }
    }
    assert("math.request"@ != "math.exit_code"@) by {
        if "math.request"@ == "math.exit_code"@ {
            assert(("math.request"@).len() == ("math.exit_code"@).len());
        }
    }
    assert("math.request"@ != "math.timed_out"@) by {
        if "math.request"@ == "math.timed_out"@ {
            assert(("math.request"@).len() == ("math.timed_out"@).len());
        }
    }
    assert("math.request"@ != "math.duration_ms"@) by {
        if "math.request"@ == "math.duration_ms"@ {
            assert(("math.request"@).len() == ("math.duration_ms"@).len());
        }
    }
    assert("math.request"@ != "math.outputs"@) by {
        if "math.request"@ == "math.outputs"@ {
            assert(("math.request"@)[5] == ("math.outputs"@)[5]);
        }
    }
    assert("math.request"@ != "math.script_name"@) by {
        if "math.request"@ == "math.script_name"@ {
            assert(("math.request"@).len() == ("math.script_name"@).len());
        }
    }
    assert("math.request"@ != "math.alert_required"@) by {
        if "math.request"@ == "math.alert_required"@ {
            assert(("math.request"@).len() == ("math.alert_required"@).len());
        }
    }
    assert("math.request"@ != "math.retry_recommended"@) by {
        if "math.request"@ == "math.retry_recommended"@ {
            assert(("math.request"@).len() == ("math.retry_recommended"@).len());
        }
    }
    assert("math.request"@ != "math.degradation_note"@) by {
        if "math.request"@ == "math.degradation_note"@ {
            assert(("math.request"@).len() == ("math.degradation_note"@).len());
        }
    }
    assert("math.request"@ != "factcheck.confidence"@) by {
        if "math.request"@ == "factcheck.confidence"@ {
            assert(("math.request"@).len() == ("factcheck.confidence"@).len());
        }
    }
    assert("math.request"@ != "factcheck.verified_sources"@) by {
        if "math.request"@ == "factcheck.verified_sources"@ {
            assert(("math.request"@).len() == ("factcheck.verified_sources"@).len());
        }
    }
    assert("math.request"@ != "factcheck.passed"@) by {
        if "math.request"@ == "factcheck.passed"@ {
            assert(("math.request"@).len() == ("factcheck.passed"@).len());
        }
    }
    assert("math.request"@ != "factcheck.notes"@) by {
        if "math.request"@ == "factcheck.notes"@ {
            assert(("math.request"@).len() == ("factcheck.notes"@).len());
        }
    }
    assert("math.request"@ != "critique.confident"@) by {
        if "math.request"@ == "critique.confident"@ {
            assert(("math.request"@).len() == ("critique.confident"@).len());
        }
    }
    assert("math.request"@ != "critique.verdict"@) by {
        if "math.request"@ == "critique.verdict"@ {
            assert(("math.request"@).len() == ("critique.verdict"@).len());
        }
    }
    assert("math.request"@ != "final.summary"@) by {
        if "math.request"@ == "final.summary"@ {
            assert(("math.request"@).len() == ("final.summary"@).len());
        }
    }
    assert("math.request"@ != "final.requires_manual"@) by {
        if "math.request"@ == "final.requires_manual"@ {
            assert(("math.request"@).len() == ("final.requires_manual"@).len());
        }
    }
    assert("math.result"@ != "math.status"@) by {
        if "math.result"@ == "math.status"@ {
            assert(("math.result"@)[5] == ("math.status"@)[5]);
        }
    }
    assert("math.result"@ != "math.stdout"@) by {
        if "math.result"@ == "math.stdout"@ {
            assert(("math.result"@)[5] == ("math.stdout"@)[5]);
        }
    }
    assert("math.result"@ != "math.stderr"@) by {
        if "math.result"@ == "math.stderr"@ {
            assert(("math.result"@)[5] == ("math.stderr"@)[5]);
        }
    }
    assert("math.result"@ != "math.exit_code"@) by {
        if "math.result"@ == "math.exit_code"@ {
            assert(("math.result"@).len() == ("math.exit_code"@).len());
        }
    }
    assert("math.result"@ != "math.timed_out"@) by {
        if "math.result"@ == "math.timed_out"@ {
            assert(("math.result"@).len() == ("math.timed_out"@).len());
        }
    }
    assert("math.result"@ != "math.duration_ms"@) by {
        if "math.result"@ == "math.duration_ms"@ {
            assert(("math.result"@).len() == ("math.duration_ms"@).len());
        }
    }
    assert("math.result"@ != "math.outputs"@) by {
        if "math.result"@ == "math.outputs"@ {
            assert(("math.result"@).len() == ("math.outputs"@).len());
        }
    }
    assert("math.result"@ != "math.script_name"@) by {
        if "math.result"@ == "math.script_name"@ {
            assert(("math.result"@).len() == ("math.script_name"@).len());
        }
    }
    assert("math.result"@ != "math.alert_required"@) by {
        if "math.result"@ == "math.alert_required"@ {
            assert(("math.result"@).len() == ("math.alert_required"@).len());
        }
    }
    assert("math.result"@ != "math.retry_recommended"@) by {
        if "math.result"@ == "math.retry_recommended"@ {
            assert(("math.result"@).len() == ("math.retry_recommended"@).len());
        }
    }
    assert("math.result"@ != "math.degradation_note"@) by {
        if "math.result"@ == "math.degradation_note"@ {
            assert(("math.result"@).len() == ("math.degradation_note"@).len());
        }
    }
    assert("math.result"@ != "factcheck.confidence"@) by {
        if "math.result"@ == "factcheck.confidence"@ {
            assert(("math.result"@).len() == ("factcheck.confidence"@).len());
        }
    }
    assert("math.result"@ != "factcheck.verified_sources"@) by {
        if "math.result"@ == "factcheck.verified_sources"@ {
            assert(("math.result"@).len() == ("factcheck.verified_sources"@).len());
        }
    }
    assert("math.result"@ != "factcheck.passed"@) by {
        if "math.result"@ == "factcheck.passed"@ {
            assert(("math.result"@).len() == ("factcheck.passed"@).len());
        }
    }
    assert("math.result"@ != "factcheck.notes"@) by {
        if "math.result"@ == "factcheck.notes"@ {
            assert(("math.result"@).len() == ("factcheck.notes"@).len());
        }
    }
    assert("math.result"@ != "critique.confident"@) by {
        if "math.result"@ == "critique.confident"@ {
            assert(("math.result"@).len() == ("critique.confident"@).len());
        }
    }
    assert("math.result"@ != "critique.verdict"@) by {
        if "math.result"@ == "critique.verdict"@ {
            assert(("math.result"@).len() == ("critique.verdict"@).len());
        }
    }
    assert("math.result"@ != "final.summary"@) by {
        if "math.result"@ == "final.summary"@ {
            assert(("math.result"@).len() == ("final.summary"@).len());
        }
    }
    assert("math.result"@ != "final.requires_manual"@) by {
        if "math.result"@ == "final.requires_manual"@ {
            assert(("math.result"@).len() == ("final.requires_manual"@).len());
        }
    }
    assert("math.status"@ != "math.stdout"@) by {
        if "math.status"@ == "math.stdout"@ {
            assert(("math.status"@)[7] == ("math.stdout"@)[7]);
        }
    }
    assert("math.status"@ != "math.stderr"@) by {
        if "math.status"@ == "math.stderr"@ {
            assert(("math.status"@)[7] == ("math.stderr"@)[7]);
        }
    }
    assert("math.status"@ != "math.exit_code"@) by {
        if "math.status"@ == "math.exit_code"@ {
            assert(("math.status"@).len() == ("math.exit_code"@).len());
        }
    }
    assert("math.status"@ != "math.timed_out"@) by {
        if "math.status"@ == "math.timed_out"@ {
            assert(("math.status"@).len() == ("math.timed_out"@).len());
        }
    }
    assert("math.status"@ != "math.duration_ms"@) by {
        if "math.status"@ == "math.duration_ms"@ {
            assert(("math.status"@).len() == ("math.duration_ms"@).len());
        }
    }
    assert("math.status"@ != "math.outputs"@) by {
        if "math.status"@ == "math.outputs"@ {
            assert(("math.status"@).len() == ("math.outputs"@).len());
        }
    }
    assert("math.status"@ != "math.script_name"@) by {
        if "math.status"@ == "math.script_name"@ {
            assert(("math.status"@).len() == ("math.script_name"@).len());
        }
    }
    assert("math.status"@ != "math.alert_required"@) by {
        if "math.status"@ == "math.alert_required"@ {
            assert(("math.status"@).len() == ("math.alert_required"@).len());
        }
    }
    assert("math.status"@ != "math.retry_recommended"@) by {
        if "math.status"@ == "math.retry_recommended"@ {
            assert(("math.status"@).len() == ("math.retry_recommended"@).len());
        }
    }
    assert("math.status"@ != "math.degradation_note"@) by {
        if "math.status"@ == "math.degradation_note"@ {
            assert(("math.status"@).len() == ("math.degradation_note"@).len());
        }
    }
    assert("math.status"@ != "factcheck.confidence"@) by {
        if "math.status"@ == "factcheck.confidence"@ {
            assert(("math.status"@).len() == ("factcheck.confidence"@).len());
        }
    }
    assert("math.status"@ != "factcheck.verified_sources"@) by {
        if "math.status"@ == "factcheck.verified_sources"@ {
            assert(("math.status"@).len() == ("factcheck.verified_sources"@).len());
        }
    }
    assert("math.status"@ != "factcheck.passed"@) by {
        if "math.status"@ == "factcheck.passed"@ {
            assert(("math.status"@).len() == ("factcheck.passed"@).len());
        }
    }
    assert("math.status"@ != "factcheck.notes"@) by {
        if "math.status"@ == "factcheck.notes"@ {
            assert(("math.status"@).len() == ("factcheck.notes"@).len());
        }
    }
    assert("math.status"@ != "critique.confident"@) by {
        if "math.status"@ == "critique.confident"@ {
            assert(("math.status"@).len() == ("critique.confident"@).len());
        }
    }
    assert("math.status"@ != "critique.verdict"@) by {
        if "math.status"@ == "critique.verdict"@ {
            assert(("math.status"@).len() == ("critique.verdict"@).len());
        }
    }
    assert("math.status"@ != "final.summary"@) by {
        if "math.status"@ == "final.summary"@ {
            assert(("math.status"@).len() == ("final.summary"@).len());
        }
    }
    assert("math.status"@ != "final.requires_manual"@) by {
        if "math.status"@ == "final.requires_manual"@ {
            assert(("math.status"@).len() == ("final.requires_manual"@).len());
        }
    }
    assert("math.stdout"@ != "math.stderr"@) by {
        if "math.stdout"@ == "math.stderr"@ {
            assert(("math.stdout"@)[8] == ("math.stderr"@)[8]);
        }
    }
    assert("math.stdout"@ != "math.exit_code"@) by {
        if "math.stdout"@ == "math.exit_code"@ {
            assert(("math.stdout"@).len() == ("math.exit_code"@).len());
        }
    }
    assert("math.stdout"@ != "math.timed_out"@) by {
        if "math.stdout"@ == "math.timed_out"@ {
            assert(("math.stdout"@).len() == ("math.timed_out"@).len());
        }
    }
    assert("math.stdout"@ != "math.duration_ms"@) by {
        if "math.stdout"@ == "math.duration_ms"@ {
            assert(("math.stdout"@).len() == ("math.duration_ms"@).len());
        }
    }
    assert("math.stdout"@ != "math.outputs"@) by {
        if "math.stdout"@ == "math.outputs"@ {
            assert(("math.stdout"@).len() == ("math.outputs"@).len());
        }
    }
    assert("math.stdout"@ != "math.script_name"@) by {
        if "math.stdout"@ == "math.script_name"@ {
            assert(("math.stdout"@).len() == ("math.script_name"@).len());
        }
    }
    assert("math.stdout"@ != "math.alert_required"@) by {
        if "math.stdout"@ == "math.alert_required"@ {
            assert(("math.stdout"@).len() == ("math.alert_required"@).len());
        }
    }
    assert("math.stdout"@ != "math.retry_recommended"@) by {
        if "math.stdout"@ == "math.retry_recommended"@ {
            assert(("math.stdout"@).len() == ("math.retry_recommended"@).len());
        }
    }
    assert("math.stdout"@ != "math.degradation_note"@) by {
        if "math.stdout"@ == "math.degradation_note"@ {
            assert(("math.stdout"@).len() == ("math.degradation_note"@).len());
        }
    }
    assert("math.stdout"@ != "factcheck.confidence"@) by {
        if "math.stdout"@ == "factcheck.confidence"@ {
            assert(("math.stdout"@).len() == ("factcheck.confidence"@).len());
        }
    }
    assert("math.stdout"@ != "factcheck.verified_sources"@) by {
        if "math.stdout"@ == "factcheck.verified_sources"@ {
            assert(("math.stdout"@).len() == ("factcheck.verified_sources"@).len());
        }
    }
    assert("math.stdout"@ != "factcheck.passed"@) by {
        if "math.stdout"@ == "factcheck.passed"@ {
            assert(("math.stdout"@).len() == ("factcheck.passed"@).len());
        }
    }
    assert("math.stdout"@ != "factcheck.notes"@) by {
        if "math.stdout"@ == "factcheck.notes"@ {
            assert(("math.stdout"@).len() == ("factcheck.notes"@).len());
        }
    }
    assert("math.stdout"@ != "critique.confident"@) by {
        if "math.stdout"@ == "critique.confident"@ {
            assert(("math.stdout"@).len() == ("critique.confident"@).len());
        }
    }
    assert("math.stdout"@ != "critique.verdict"@) by {
        if "math.stdout"@ == "critique.verdict"@ {
            assert(("math.stdout"@).len() == ("critique.verdict"@).len());
        }
    }
    assert("math.stdout"@ != "final.summary"@) by {
        if "math.stdout"@ == "final.summary"@ {
            assert(("math.stdout"@).len() == ("final.summary"@).len());
        }
    }
    assert("math.stdout"@ != "final.requires_manual"@) by {
        if "math.stdout"@ == "final.requires_manual"@ {
            assert(("math.stdout"@).len() == ("final.requires_manual"@).len());
        }
    }
    assert("math.stderr"@ != "math.exit_code"@) by {
        if "math.stderr"@ == "math.exit_code"@ {
            assert(("math.stderr"@).len() == ("math.exit_code"@).len());
        }
    }
    assert("math.stderr"@ != "math.timed_out"@) by {
        if "math.stderr"@ == "math.timed_out"@ {
            assert(("math.stderr"@).len() == ("math.timed_out"@).len());
        }
    }
    assert("math.stderr"@ != "math.duration_ms"@) by {
        if "math.stderr"@ == "math.duration_ms"@ {
            assert(("math.stderr"@).len() == ("math.duration_ms"@).len());
        }
    }
    assert("math.stderr"@ != "math.outputs"@) by {
        if "math.stderr"@ == "math.outputs"@ {
            assert(("math.stderr"@).len() == ("math.outputs"@).len());
        }
    }
    assert("math.stderr"@ != "math.script_name"@) by {
        if "math.stderr"@ == "math.script_name"@ {
            assert(("math.stderr"@).len() == ("math.script_name"@).len());
        }
    }
    assert("math.stderr"@ != "math.alert_required"@) by {
        if "math.stderr"@ == "math.alert_required"@ {
            assert(("math.stderr"@).len() == ("math.alert_required"@).len());
        }
    }
    assert("math.stderr"@ != "math.retry_recommended"@) by {
        if "math.stderr"@ == "math.retry_recommended"@ {
            assert(("math.stderr"@).len() == ("math.retry_recommended"@).len());
        }
    }
    assert("math.stderr"@ != "math.degradation_note"@) by {
        if "math.stderr"@ == "math.degradation_note"@ {
            assert(("math.stderr"@).len() == ("math.degradation_note"@).len());
        }
    }
    assert("math.stderr"@ != "factcheck.confidence"@) by {
        if "math.stderr"@ == "factcheck.confidence"@ {
            assert(("math.stderr"@).len() == ("factcheck.confidence"@).len());
        }
    }
    assert("math.stderr"@ != "factcheck.verified_sources"@) by {
        if "math.stderr"@ == "factcheck.verified_sources"@ {
            assert(("math.stderr"@).len() == ("factcheck.verified_sources"@).len());
        }
    }
    assert("math.stderr"@ != "factcheck.passed"@) by {
        if "math.stderr"@ == "factcheck.passed"@ {
            assert(("math.stderr"@).len() == ("factcheck.passed"@).len());
        }
    }
    assert("math.stderr"@ != "factcheck.notes"@) by {
        if "math.stderr"@ == "factcheck.notes"@ {
            assert(("math.stderr"@).len() == ("factcheck.notes"@).len());
        }
    }
    assert("math.stderr"@ != "critique.confident"@) by {
        if "math.stderr"@ == "critique.confident"@ {
            assert(("math.stderr"@).len() == ("critique.confident"@).len());
        }
    }
    assert("math.stderr"@ != "critique.verdict"@) by {
        if "math.stderr"@ == "critique.verdict"@ {
            assert(("math.stderr"@).len() == ("critique.verdict"@).len());
        }
    }
    assert("math.stderr"@ != "final.summary"@) by {
        if "math.stderr"@ == "final.summary"@ {
            assert(("math.stderr"@).len() == ("final.summary"@).len());
        }
    }
    assert("math.stderr"@ != "final.requires_manual"@) by {
        if "math.stderr"@ == "final.requires_manual"@ {
            assert(("math.stderr"@).len() == ("final.requires_manual"@).len());
        }
    }
    assert("math.exit_code"@ != "math.timed_out"@) by {
        if "math.exit_code"@ == "math.timed_out"@ {
            assert(("math.exit_code"@)[5] == ("math.timed_out"@)[5]);
        }
    }
    assert("math.exit_code"@ != "math.duration_ms"@) by {
        if "math.exit_code"@ == "math.duration_ms"@ {
            assert(("math.exit_code"@).len() == ("math.duration_ms"@).len());
        }
    }
    assert("math.exit_code"@ != "math.outputs"@) by {
        if "math.exit_code"@ == "math.outputs"@ {
            assert(("math.exit_code"@).len() == ("math.outputs"@).len());
        }
    }
    assert("math.exit_code"@ != "math.script_name"@) by {
        if "math.exit_code"@ == "math.script_name"@ {
            assert(("math.exit_code"@).len() == ("math.script_name"@).len());
        }
    }
    assert("math.exit_code"@ != "math.alert_required"@) by {
        if "math.exit_code"@ == "math.alert_required"@ {
            assert(("math.exit_code"@).len() == ("math.alert_required"@).len());
        }
    }
    assert("math.exit_code"@ != "math.retry_recommended"@) by {
        if "math.exit_code"@ == "math.retry_recommended"@ {
            assert(("math.exit_code"@).len() == ("math.retry_recommended"@).len());
        }
    }
    assert("math.exit_code"@ != "math.degradation_note"@) by {
        if "math.exit_code"@ == "math.degradation_note"@ {
            assert(("math.exit_code"@).len() == ("math.degradation_note"@).len());
        }
    }
    assert("math.exit_code"@ != "factcheck.confidence"@) by {
        if "math.exit_code"@ == "factcheck.confidence"@ {
            assert(("math.exit_code"@).len() == ("factcheck.confidence"@).len());
        }
    }
    assert("math.exit_code"@ != "factcheck.verified_sources"@) by {
        if "math.exit_code"@ == "factcheck.verified_sources"@ {
            assert(("math.exit_code"@).len() == ("factcheck.verified_sources"@).len());
        }
    }
    assert("math.exit_code"@ != "factcheck.passed"@) by {
        if "math.exit_code"@ == "factcheck.passed"@ {
            assert(("math.exit_code"@).len() == ("factcheck.passed"@).len());
        }
    }
    assert("math.exit_code"@ != "factcheck.notes"@) by {
        if "math.exit_code"@ == "factcheck.notes"@ {
            assert(("math.exit_code"@).len() == ("factcheck.notes"@).len());
        }
    }
    assert("math.exit_code"@ != "critique.confident"@) by {
        if "math.exit_code"@ == "critique.confident"@ {
            assert(("math.exit_code"@).len() == ("critique.confident"@).len());
        }
    }
    assert("math.exit_code"@ != "critique.verdict"@) by {
        if "math.exit_code"@ == "critique.verdict"@ {
            assert(("math.exit_code"@).len() == ("critique.verdict"@).len());
        }
    }
    assert("math.exit_code"@ != "final.summary"@) by {
        if "math.exit_code"@ == "final.summary"@ {
            assert(("math.exit_code"@).len() == ("final.summary"@).len());
        }
    }
    assert("math.exit_code"@ != "final.requires_manual"@) by {
        if "math.exit_code"@ == "final.requires_manual"@ {
            assert(("math.exit_code"@).len() == ("final.requires_manual"@).len());
        }
    }
    assert("math.timed_out"@ != "math.duration_ms"@) by {
        if "math.timed_out"@ == "math.duration_ms"@ {
            assert(("math.timed_out"@).len() == ("math.duration_ms"@).len());
        }
    }
    assert("math.timed_out"@ != "math.outputs"@) by {
        if "math.timed_out"@ == "math.outputs"@ {
            assert(("math.timed_out"@).len() == ("math.outputs"@).len());
        }
    }
    assert("math.timed_out"@ != "math.script_name"@) by {
        if "math.timed_out"@ == "math.script_name"@ {
            assert(("math.timed_out"@).len() == ("math.script_name"@).len());
        }
    }
    assert("math.timed_out"@ != "math.alert_required"@) by {
        if "math.timed_out"@ == "math.alert_required"@ {
            assert(("math.timed_out"@).len() == ("math.alert_required"@).len());
        }
    }
    assert("math.timed_out"@ != "math.retry_recommended"@) by {
        if "math.timed_out"@ == "math.retry_recommended"@ {
            assert(("math.timed_out"@).len() == ("math.retry_recommended"@).len());
        }
    }
    assert("math.timed_out"@ != "math.degradation_note"@) by {
        if "math.timed_out"@ == "math.degradation_note"@ {
            assert(("math.timed_out"@).len() == ("math.degradation_note"@).len());
        }
    }
    assert("math.timed_out"@ != "factcheck.confidence"@) by {
        if "math.timed_out"@ == "factcheck.confidence"@ {
            assert(("math.timed_out"@).len() == ("factcheck.confidence"@).len());
        }
    }
    assert("math.timed_out"@ != "factcheck.verified_sources"@) by {
        if "math.timed_out"@ == "factcheck.verified_sources"@ {
            assert(("math.timed_out"@).len() == ("factcheck.verified_sources"@).len());
        }
    }
    assert("math.timed_out"@ != "factcheck.passed"@) by {
        if "math.timed_out"@ == "factcheck.passed"@ {
            assert(("math.timed_out"@).len() == ("factcheck.passed"@).len());
        }
    }
    assert("math.timed_out"@ != "factcheck.notes"@) by {
        if "math.timed_out"@ == "factcheck.notes"@ {
            assert(("math.timed_out"@).len() == ("factcheck.notes"@).len());
        }
    }
    assert("math.timed_out"@ != "critique.confident"@) by {
        if "math.timed_out"@ == "critique.confident"@ {
            assert(("math.timed_out"@).len() == ("critique.confident"@).len());
        }
    }
    assert("math.timed_out"@ != "critique.verdict"@) by {
        if "math.timed_out"@ == "critique.verdict"@ {
            assert(("math.timed_out"@).len() == ("critique.verdict"@).len());
        }
    }
    assert("math.timed_out"@ != "final.summary"@) by {
        if "math.timed_out"@ == "final.summary"@ {
            assert(("math.timed_out"@).len() == ("final.summary"@).len());
        }
    }
    assert("math.timed_out"@ != "final.requires_manual"@) by {
        if "math.timed_out"@ == "final.requires_manual"@ {
            assert(("math.timed_out"@).len() == ("final.requires_manual"@).len());
        }
    }
    assert("math.duration_ms"@ != "math.outputs"@) by {
        if "math.duration_ms"@ == "math.outputs"@ {
            assert(("math.duration_ms"@).len() == ("math.outputs"@).len());
        }
    }
    assert("math.duration_ms"@ != "math.script_name"@) by {
        if "math.duration_ms"@ == "math.script_name"@ {
            assert(("math.duration_ms"@)[5] == ("math.script_name"@)[5]);
        }
    }
    assert("math.duration_ms"@ != "math.alert_required"@) by {
        if "math.duration_ms"@ == "math.alert_required"@ {
            assert(("math.duration_ms"@).len() == ("math.alert_required"@).len());
        }
    }
    assert("math.duration_ms"@ != "math.retry_recommended"@) by {
        if "math.duration_ms"@ == "math.retry_recommended"@ {
            assert(("math.duration_ms"@).len() == ("math.retry_recommended"@).len());
        }
    }
    assert("math.duration_ms"@ != "math.degradation_note"@) by {
        if "math.duration_ms"@ == "math.degradation_note"@ {
            assert(("math.duration_ms"@).len() == ("math.degradation_note"@).len());
        }
    }
    assert("math.duration_ms"@ != "factcheck.confidence"@) by {
        if "math.duration_ms"@ == "factcheck.confidence"@ {
            assert(("math.duration_ms"@).len() == ("factcheck.confidence"@).len());
        }
    }
    assert("math.duration_ms"@ != "factcheck.verified_sources"@) by {
        if "math.duration_ms"@ == "factcheck.verified_sources"@ {
            assert(("math.duration_ms"@).len() == ("factcheck.verified_sources"@).len());
        }
    }
    assert("math.duration_ms"@ != "factcheck.passed"@) by {
        if "math.duration_ms"@ == "factcheck.passed"@ {
            assert(("math.duration_ms"@)[0] == ("factcheck.passed"@)[0]);
        }
    }
    assert("math.duration_ms"@ != "factcheck.notes"@) by {
        if "math.duration_ms"@ == "factcheck.notes"@ {
            assert(("math.duration_ms"@).len() == ("factcheck.notes"@).len());
        }
    }
    assert("math.duration_ms"@ != "critique.confident"@) by {
        if "math.duration_ms"@ == "critique.confident"@ {
            assert(("math.duration_ms"@).len() == ("critique.confident"@).len());
        }
    }
    assert("math.duration_ms"@ != "critique.verdict"@) by {
        if "math.duration_ms"@ == "critique.verdict"@ {
            assert(("math.duration_ms"@)[0] == ("critique.verdict"@)[0]);
        }
    }
    assert("math.duration_ms"@ != "final.summary"@) by {
        if "math.duration_ms"@ == "final.summary"@ {
            assert(("math.duration_ms"@).len() == ("final.summary"@).len());
        }
    }
    assert("math.duration_ms"@ != "final.requires_manual"@) by {
        if "math.duration_ms"@ == "final.requires_manual"@ {
            assert(("math.duration_ms"@).len() == ("final.requires_manual"@).len());
        }
    }
    assert("math.outputs"@ != "math.script_name"@) by {
        if "math.outputs"@ == "math.script_name"@ {
            assert(("math.outputs"@).len() == ("math.script_name"@).len());
        }
    }
    assert("math.outputs"@ != "math.alert_required"@) by {
        if "math.outputs"@ == "math.alert_required"@ {
            assert(("math.outputs"@).len() == ("math.alert_required"@).len());
        }
    }
    assert("math.outputs"@ != "math.retry_recommended"@) by {
        if "math.outputs"@ == "math.retry_recommended"@ {
            assert(("math.outputs"@).len() == ("math.retry_recommended"@).len());
        }
    }
    assert("math.outputs"@ != "math.degradation_note"@) by {
        if "math.outputs"@ == "math.degradation_note"@ {
            assert(("math.outputs"@).len() == ("math.degradation_note"@).len());
        }
    }
    assert("math.outputs"@ != "factcheck.confidence"@) by {
        if "math.outputs"@ == "factcheck.confidence"@ {
            assert(("math.outputs"@).len() == ("factcheck.confidence"@).len());
        }
    }
    assert("math.outputs"@ != "factcheck.verified_sources"@) by {
        if "math.outputs"@ == "factcheck.verified_sources"@ {
            assert(("math.outputs"@).len() == ("factcheck.verified_sources"@).len());
        }
    }
    assert("math.outputs"@ != "factcheck.passed"@) by {
        if "math.outputs"@ == "factcheck.passed"@ {
            assert(("math.outputs"@).len() == ("factcheck.passed"@).len());
        }
    }
    assert("math.outputs"@ != "factcheck.notes"@) by {
        if "math.outputs"@ == "factcheck.notes"@ {
            assert(("math.outputs"@).len() == ("factcheck.notes"@).len());
        }
    }
    assert("math.outputs"@ != "critique.confident"@) by {
        if "math.outputs"@ == "critique.confident"@ {
            assert(("math.outputs"@).len() == ("critique.confident"@).len());
        }
    }
    assert("math.outputs"@ != "critique.verdict"@) by {
        if "math.outputs"@ == "critique.verdict"@ {
            assert(("math.outputs"@).len() == ("critique.verdict"@).len());
        }
    }
    assert("math.outputs"@ != "final.summary"@) by {
        if "math.outputs"@ == "final.summary"@ {
            assert(("math.outputs"@).len() == ("final.summary"@).len());
        }
    }
    assert("math.outputs"@ != "final.requires_manual"@) by {
        if "math.outputs"@ == "final.requires_manual"@ {
            assert(("math.outputs"@).len() == ("final.requires_manual"@).len());
        }
    }
    assert("math.script_name"@ != "math.alert_required"@) by {
        if "math.script_name"@ == "math.alert_required"@ {
            assert(("math.script_name"@).len() == ("math.alert_required"@).len());
        }
    }
    assert("math.script_name"@ != "math.retry_recommended"@) by {
        if "math.script_name"@ == "math.retry_recommended"@ {
            assert(("math.script_name"@).len() == ("math.retry_recommended"@).len());
        }
    }
    assert("math.script_name"@ != "math.degradation_note"@) by {
        if "math.script_name"@ == "math.degradation_note"@ {
            assert(("math.script_name"@).len() == ("math.degradation_note"@).len());
        }
    }
    assert("math.script_name"@ != "factcheck.confidence"@) by {
        if "math.script_name"@ == "factcheck.confidence"@ {
            assert(("math.script_name"@).len() == ("factcheck.confidence"@).len());
        }
    }
    assert("math.script_name"@ != "factcheck.verified_sources"@) by {
        if "math.script_name"@ == "factcheck.verified_sources"@ {
            assert(("math.script_name"@).len() == ("factcheck.verified_sources"@).len());
        }
    }
    assert("math.script_name"@ != "factcheck.passed"@) by {
        if "math.script_name"@ == "factcheck.passed"@ {
            assert(("math.script_name"@)[0] == ("factcheck.passed"@)[0]);
        }
    }
    assert("math.script_name"@ != "factcheck.notes"@) by {
        if "math.script_name"@ == "factcheck.notes"@ {
            assert(("math.script_name"@).len() == ("factcheck.notes"@).len());
        }
    }
    assert("math.script_name"@ != "critique.confident"@) by {
        if "math.script_name"@ == "critique.confident"@ {
            assert(("math.script_name"@).len() == ("critique.confident"@).len());
        }
    }
    assert("math.script_name"@ != "critique.verdict"@) by {
        if "math.script_name"@ == "critique.verdict"@ {
            assert(("math.script_name"@)[0] == ("critique.verdict"@)[0]);
        }
    }
    assert("math.script_name"@ != "final.summary"@) by {
        if "math.script_name"@ == "final.summary"@ {
            assert(("math.script_name"@).len() == ("final.summary"@).len());
        }
    }
    assert("math.script_name"@ != "final.requires_manual"@) by {
        if "math.script_name"@ == "final.requires_manual"@ {
            assert(("math.script_name"@).len() == ("final.requires_manual"@).len());
        }
    }
    assert("math.alert_required"@ != "math.retry_recommended"@) by {
        if "math.alert_required"@ == "math.retry_recommended"@ {
            assert(("math.alert_required"@).len() == ("math.retry_recommended"@).len());
        }
    }
    assert("math.alert_required"@ != "math.degradation_note"@) by {
        if "math.alert_required"@ == "math.degradation_note"@ {
            assert(("math.alert_required"@).len() == ("math.degradation_note"@).len());
        }
    }
    assert("math.alert_required"@ != "factcheck.confidence"@) by {
        if "math.alert_required"@ == "factcheck.confidence"@ {
            assert(("math.alert_required"@).len() == ("factcheck.confidence"@).len());
        }
    }
    assert("math.alert_required"@ != "factcheck.verified_sources"@) by {
        if "math.alert_required"@ == "factcheck.verified_sources"@ {
            assert(("math.alert_required"@).len() == ("factcheck.verified_sources"@).len());
        }
    }
    assert("math.alert_required"@ != "factcheck.passed"@) by {
        if "math.alert_required"@ == "factcheck.passed"@ {
            assert(("math.alert_required"@).len() == ("factcheck.passed"@).len());
        }
    }
    assert("math.alert_required"@ != "factcheck.notes"@) by {
        if "math.alert_required"@ == "factcheck.notes"@ {
            assert(("math.alert_required"@).len() == ("factcheck.notes"@).len());
        }
    }
    assert("math.alert_required"@ != "critique.confident"@) by {
        if "math.alert_required"@ == "critique.confident"@ {
            assert(("math.alert_required"@).len() == ("critique.confident"@).len());
        }
    }
    assert("math.alert_required"@ != "critique.verdict"@) by {
        if "math.alert_required"@ == "critique.verdict"@ {
            assert(("math.alert_required"@).len() == ("critique.verdict"@).len());
        }
    }
    assert("math.alert_required"@ != "final.summary"@) by {
        if "math.alert_required"@ == "final.summary"@ {
            assert(("math.alert_required"@).len() == ("final.summary"@).len());
        }
    }
    assert("math.alert_required"@ != "final.requires_manual"@) by {
        if "math.alert_required"@ == "final.requires_manual"@ {
            assert(("math.alert_required"@).len() == ("final.requires_manual"@).len());
        }
    }
    assert("math.retry_recommended"@ != "math.degradation_note"@) by {
        if "math.retry_recommended"@ == "math.degradation_note"@ {
            assert(("math.retry_recommended"@).len() == ("math.degradation_note"@).len());
        }
    }
    assert("math.retry_recommended"@ != "factcheck.confidence"@) by {
        if "math.retry_recommended"@ == "factcheck.confidence"@ {
            assert(("math.retry_recommended"@).len() == ("factcheck.confidence"@).len());
        }
    }
    assert("math.retry_recommended"@ != "factcheck.verified_sources"@) by {
        if "math.retry_recommended"@ == "factcheck.verified_sources"@ {
            assert(("math.retry_recommended"@).len() == ("factcheck.verified_sources"@).len());
        }
    }
    assert("math.retry_recommended"@ != "factcheck.passed"@) by {
        if "math.retry_recommended"@ == "factcheck.passed"@ {
            assert(("math.retry_recommended"@).len() == ("factcheck.passed"@).len());
        }
    }
    assert("math.retry_recommended"@ != "factcheck.notes"@) by {
        if "math.retry_recommended"@ == "factcheck.notes"@ {
            assert(("math.retry_recommended"@).len() == ("factcheck.notes"@).len());
        }
    }
    assert("math.retry_recommended"@ != "critique.confident"@) by {
        if "math.retry_recommended"@ == "critique.confident"@ {
            assert(("math.retry_recommended"@).len() == ("critique.confident"@).len());
        }
    }
    assert("math.retry_recommended"@ != "critique.verdict"@) by {
        if "math.retry_recommended"@ == "critique.verdict"@ {
            assert(("math.retry_recommended"@).len() == ("critique.verdict"@).len());
        }
    }
    assert("math.retry_recommended"@ != "final.summary"@) by {
        if "math.retry_recommended"@ == "final.summary"@ {
            assert(("math.retry_recommended"@).len() == ("final.summary"@).len());
        }
    }
    assert("math.retry_recommended"@ != "final.requires_manual"@) by {
        if "math.retry_recommended"@ == "final.requires_manual"@ {
            assert(("math.retry_recommended"@).len() == ("final.requires_manual"@).len());
        }
    }
    assert("math.degradation_note"@ != "factcheck.confidence"@) by {
        if "math.degradation_note"@ == "factcheck.confidence"@ {
            assert(("math.degradation_note"@).len() == ("factcheck.confidence"@).len());
        }
    }
    assert("math.degradation_note"@ != "factcheck.verified_sources"@) by {
        if "math.degradation_note"@ == "factcheck.verified_sources"@ {
            assert(("math.degradation_note"@).len() == ("factcheck.verified_sources"@).len());
        }
    }
    assert("math.degradation_note"@ != "factcheck.passed"@) by {
        if "math.degradation_note"@ == "factcheck.passed"@ {
            assert(("math.degradation_note"@).len() == ("factcheck.passed"@).len());
        }
    }
    assert("math.degradation_note"@ != "factcheck.notes"@) by {
        if "math.degradation_note"@ == "factcheck.notes"@ {
            assert(("math.degradation_note"@).len() == ("factcheck.notes"@).len());
        }
    }
    assert("math.degradation_note"@ != "critique.confident"@) by {
        if "math.degradation_note"@ == "critique.confident"@ {
            assert(("math.degradation_note"@).len() == ("critique.confident"@).len());
        }
    }
    assert("math.degradation_note"@ != "critique.verdict"@) by {
        if "math.degradation_note"@ == "critique.verdict"@ {
            assert(("math.degradation_note"@).len() == ("critique.verdict"@).len());
        }
    }
    assert("math.degradation_note"@ != "final.summary"@) by {
        if "math.degradation_note"@ == "final.summary"@ {
            assert(("math.degradation_note"@).len() == ("final.summary"@).len());
        }
    }
    assert("math.degradation_note"@ != "final.requires_manual"@) by {
        if "math.degradation_note"@ == "final.requires_manual"@ {
            assert(("math.degradation_note"@)[0] == ("final.requires_manual"@)[0]);
        }
    }
    assert("factcheck.confidence"@ != "factcheck.verified_sources"@) by {
        if "factcheck.confidence"@ == "factcheck.verified_sources"@ {
            assert(("factcheck.confidence"@).len() == ("factcheck.verified_sources"@).len());
        }
    }
    assert("factcheck.confidence"@ != "factcheck.passed"@) by {
        if "factcheck.confidence"@ == "factcheck.passed"@ {
            assert(("factcheck.confidence"@).len() == ("factcheck.passed"@).len());
        }
    }
    assert("factcheck.confidence"@ != "factcheck.notes"@) by {
        if "factcheck.confidence"@ == "factcheck.notes"@ {
            assert(("factcheck.confidence"@).len() == ("factcheck.notes"@).len());
        }
    }
    assert("factcheck.confidence"@ != "critique.confident"@) by {
        if "factcheck.confidence"@ == "critique.confident"@ {
            assert(("factcheck.confidence"@).len() == ("critique.confident"@).len());
        }
    }
    assert("factcheck.confidence"@ != "critique.verdict"@) by {
        if "factcheck.confidence"@ == "critique.verdict"@ {
            assert(("factcheck.confidence"@).len() == ("critique.verdict"@).len());
        }
    }
    assert("factcheck.confidence"@ != "final.summary"@) by {
        if "factcheck.confidence"@ == "final.summary"@ {
            assert(("factcheck.confidence"@).len() == ("final.summary"@).len());
        }
    }
    assert("factcheck.confidence"@ != "final.requires_manual"@) by {
        if "factcheck.confidence"@ == "final.requires_manual"@ {
            assert(("factcheck.confidence"@).len() == ("final.requires_manual"@).len());
        }
    }
    assert("factcheck.verified_sources"@ != "factcheck.passed"@) by {
        if "factcheck.verified_sources"@ == "factcheck.passed"@ {
            assert(("factcheck.verified_sources"@).len() == ("factcheck.passed"@).len());
        }
    }
    assert("factcheck.verified_sources"@ != "factcheck.notes"@) by {
        if "factcheck.verified_sources"@ == "factcheck.notes"@ {
            assert(("factcheck.verified_sources"@).len() == ("factcheck.notes"@).len());
        }
    }
    assert("factcheck.verified_sources"@ != "critique.confident"@) by {
        if "factcheck.verified_sources"@ == "critique.confident"@ {
            assert(("factcheck.verified_sources"@).len() == ("critique.confident"@).len());
        }
    }
    assert("factcheck.verified_sources"@ != "critique.verdict"@) by {
        if "factcheck.verified_sources"@ == "critique.verdict"@ {
            assert(("factcheck.verified_sources"@).len() == ("critique.verdict"@).len());
        }
    }
    assert("factcheck.verified_sources"@ != "final.summary"@) by {
        if "factcheck.verified_sources"@ == "final.summary"@ {
            assert(("factcheck.verified_sources"@).len() == ("final.summary"@).len());
        }
    }
    assert("factcheck.verified_sources"@ != "final.requires_manual"@) by {
        if "factcheck.verified_sources"@ == "final.requires_manual"@ {
            assert(("factcheck.verified_sources"@).len() == ("final.requires_manual"@).len());
        }
    }
    assert("factcheck.passed"@ != "factcheck.notes"@) by {
        if "factcheck.passed"@ == "factcheck.notes"@ {
            assert(("factcheck.passed"@).len() == ("factcheck.notes"@).len());
        }
    }
    assert("factcheck.passed"@ != "critique.confident"@) by {
        if "factcheck.passed"@ == "critique.confident"@ {
            assert(("factcheck.passed"@).len() == ("critique.confident"@).len());
        }
    }
    assert("factcheck.passed"@ != "critique.verdict"@) by {
        if "factcheck.passed"@ == "critique.verdict"@ {
            assert(("factcheck.passed"@)[0] == ("critique.verdict"@)[0]);
        }
    }
    assert("factcheck.passed"@ != "final.summary"@) by {
        if "factcheck.passed"@ == "final.summary"@ {
            assert(("factcheck.passed"@).len() == ("final.summary"@).len());
        }
    }
    assert("factcheck.passed"@ != "final.requires_manual"@) by {
        if "factcheck.passed"@ == "final.requires_manual"@ {
            assert(("factcheck.passed"@).len() == ("final.requires_manual"@).len());
        }
    }
    assert("factcheck.notes"@ != "critique.confident"@) by {
        if "factcheck.notes"@ == "critique.confident"@ {
            assert(("factcheck.notes"@).len() == ("critique.confident"@).len());
        }
    }
    assert("factcheck.notes"@ != "critique.verdict"@) by {
        if "factcheck.notes"@ == "critique.verdict"@ {
            assert(("factcheck.notes"@).len() == ("critique.verdict"@).len());
        }
    }
    assert("factcheck.notes"@ != "final.summary"@) by {
        if "factcheck.notes"@ == "final.summary"@ {
            assert(("factcheck.notes"@).len() == ("final.summary"@).len());
        }
    }
    assert("factcheck.notes"@ != "final.requires_manual"@) by {
        if "factcheck.notes"@ == "final.requires_manual"@ {
            assert(("factcheck.notes"@).len() == ("final.requires_manual"@).len());
        }
    }
    assert("critique.confident"@ != "critique.verdict"@) by {
        if "critique.confident"@ == "critique.verdict"@ {
            assert(("critique.confident"@).len() == ("critique.verdict"@).len());
        }
    }
    assert("critique.confident"@ != "final.summary"@) by {
        if "critique.confident"@ == "final.summary"@ {
            assert(("critique.confident"@).len() == ("final.summary"@).len());
        }
    }
    assert("critique.confident"@ != "final.requires_manual"@) by {
        if "critique.confident"@ == "final.requires_manual"@ {
            assert(("critique.confident"@).len() == ("final.requires_manual"@).len());
        }
    }
    assert("critique.verdict"@ != "final.summary"@) by {
        if "critique.verdict"@ == "final.summary"@ {
            assert(("critique.verdict"@).len() == ("final.summary"@).len());
        }
    }
    assert("critique.verdict"@ != "final.requires_manual"@) by {
        if "critique.verdict"@ == "final.requires_manual"@ {
            assert(("critique.verdict"@).len() == ("final.requires_manual"@).len());
        }
    }
    assert("final.summary"@ != "final.requires_manual"@) by {
        if "final.summary"@ == "final.requires_manual"@ {
            assert(("final.summary"@).len() == ("final.requires_manual"@).len());
        }
    }
}

/// The trace events currently carried in the context, or the empty
/// sequence when no collector is stored.
pub open spec fn trace_events_of(m: Map<Seq<char>, CtxValue>) -> Seq<crate::trace::TraceEvent> {
    if m.contains_key("trace.collector"@) {
        match m["trace.collector"@] {
            CtxValue::Trace(c) => c@,
            _ => Seq::empty(),
        }
    } else {
        Seq::empty()
    }
}

/// One step of task `tid` was traced: with tracing enabled, exactly one
/// event carrying that task id was appended; otherwise the trace is
/// untouched.
pub open spec fn traced_step(
    m0: Map<Seq<char>, CtxValue>,
    m1: Map<Seq<char>, CtxValue>,
    tid: Seq<char>,
) -> bool {
    if ctx_bool(m0, "trace.enabled"@) == Option::Some(true) {
        &&& trace_events_of(m1).len() == trace_events_of(m0).len() + 1
        &&& trace_events_of(m1).subrange(0, trace_events_of(m0).len() as int) == trace_events_of(
            m0,
        )
        &&& trace_events_of(m1).last().task_id@ == tid
    } else {
        trace_events_of(m1) == trace_events_of(m0)
    }
}

/// Every key outside the given set is untouched: same presence, same value.
pub open spec fn preserves_except(
    m0: Map<Seq<char>, CtxValue>,
    m1: Map<Seq<char>, CtxValue>,
    keys: Set<Seq<char>>,
) -> bool {
    forall|k: Seq<char>|
        #![trigger m0.contains_key(k)]
        #![trigger m1.contains_key(k)]
        !keys.contains(k) ==> ((m1.contains_key(k) <==> m0.contains_key(k)) && (m1.contains_key(k)
            ==> m1[k] == m0[k]))
}

impl Context {
    /// Typed read of a string key.
    pub fn get_str(&self, key: &str) -> (r: Option<String>)
        ensures
            r is Some <==> ctx_str(self@, key@) is Some,
            r is Some ==> r->0@ == ctx_str(self@, key@)->0,
    {
        match self.get_value(key) {
            Option::Some(CtxValue::Str(s)) => Option::Some(s),
            _ => Option::None,
        }
    }

    /// Typed read of a boolean key.
    pub fn get_bool(&self, key: &str) -> (r: Option<bool>)
        ensures
            r == ctx_bool(self@, key@),
    {
        match self.get_value(key) {
            Option::Some(CtxValue::Bool(b)) => Option::Some(b),
            _ => Option::None,
        }
    }

    /// Typed read of an unsigned counter key.
    pub fn get_u64(&self, key: &str) -> (r: Option<u64>)
        ensures
            r == ctx_u64(self@, key@),
    {
        match self.get_value(key) {
            Option::Some(CtxValue::U64(v)) => Option::Some(v),
            _ => Option::None,
        }
    }

    /// Typed read of a hundredths-scaled ratio key.
    pub fn get_hundredths(&self, key: &str) -> (r: Option<u32>)
        ensures
            r == ctx_hundredths(self@, key@),
    {
        match self.get_value(key) {
            Option::Some(CtxValue::Hundredths(v)) => Option::Some(v),
            _ => Option::None,
        }
    }

    /// Typed read of an optional exit-code key.
    pub fn get_opt_int(&self, key: &str) -> (r: Option<Option<i32>>)
        ensures
            r == ctx_opt_int(self@, key@),
    {
        match self.get_value(key) {
            Option::Some(CtxValue::OptInt(v)) => Option::Some(v),
            _ => Option::None,
        }
    }

    /// Typed read of a string-list key.
    pub fn get_str_list(&self, key: &str) -> (r: Option<Vec<String>>)
        ensures
            r is Some <==> ctx_strings(self@, key@) is Some,
            r is Some ==> r->0.deep_view() == ctx_strings(self@, key@)->0,
    {
        match self.get_value(key) {
            Option::Some(CtxValue::StrList(v)) => Option::Some(v),
            _ => Option::None,
        }
    }

    /// Typed read of the analyst's structured output.
    pub fn get_analyst(&self, key: &str) -> (r: Option<AnalystOutput>)
        ensures
            r is Some <==> (self@.contains_key(key@) && self@[key@] is Analyst),
            r is Some ==> analyst_like(r->0, self@[key@]->Analyst_0),
    {
        match self.get_value(key) {
            Option::Some(CtxValue::Analyst(v)) => Option::Some(v),
            _ => Option::None,
        }
    }

    /// Typed read of the numeric-tool request.
    pub fn get_math_request(&self, key: &str) -> (r: Option<MathToolRequest>)
        ensures
            r is Some <==> (self@.contains_key(key@) && self@[key@] is MathReq),
            r is Some ==> math_request_like(r->0, self@[key@]->MathReq_0),
    {
        match self.get_value(key) {
            Option::Some(CtxValue::MathReq(v)) => Option::Some(v),
            _ => Option::None,
        }
    }

    /// Typed read of the numeric-tool result.
    pub fn get_math_result(&self, key: &str) -> (r: Option<MathToolResult>)
        ensures
            r is Some <==> (self@.contains_key(key@) && self@[key@] is MathRes),
            r is Some ==> math_result_like(r->0, self@[key@]->MathRes_0),
    {
        match self.get_value(key) {
            Option::Some(CtxValue::MathRes(v)) => Option::Some(v),
            _ => Option::None,
        }
    }

    /// Typed read of the trace collector.
    pub fn get_trace(&self, key: &str) -> (r: Option<TraceCollector>)
        ensures
            r is Some <==> (self@.contains_key(key@) && self@[key@] is Trace),
            r is Some ==> r->0@ == self@[key@]->Trace_0@,
    {
        match self.get_value(key) {
            Option::Some(CtxValue::Trace(v)) => Option::Some(v),
            _ => Option::None,
        }
    }
}


/// Two context snapshots carry the same data: same keys, and the values
/// under each key carry the same data.
pub open spec fn ctx_map_like(
    m0: Map<Seq<char>, CtxValue>,
    m1: Map<Seq<char>, CtxValue>,
) -> bool {
    &&& forall|k: Seq<char>|
        #![trigger m0.contains_key(k)]
        #![trigger m1.contains_key(k)]
        m0.contains_key(k) <==> m1.contains_key(k)
    &&& forall|k: Seq<char>|
        #![trigger m0.index(k)]
        #![trigger m1.index(k)]
        m0.contains_key(k) ==> cv_like(m1[k], m0[k])
}

impl Context {
    proof fn lemma_entries_map_like(a: Seq<(String, CtxValue)>, b: Seq<(String, CtxValue)>)
        requires
            a.len() == b.len(),
            forall|i: int|
                0 <= i < a.len() ==> (#[trigger] b[i]).0@ == a[i].0@ && cv_like(b[i].1, a[i].1),
        ensures
            ctx_map_like(Context::entries_map(a), Context::entries_map(b)),
        decreases a.len(),
    {
        if a.len() > 0 {
            Context::lemma_entries_map_like(a.drop_last(), b.drop_last());
        }
    }
}

impl Clone for Context {
    /// A clone carries the same keys and data.
    fn clone(&self) -> (r: Self)
        ensures
            ctx_map_like(self@, r@),
    {
        let mut entries: Vec<(String, CtxValue)> = Vec::new();
        let mut i: usize = 0;
        while i < self.entries.len()
            invariant
                i <= self.entries@.len(),
                entries@.len() == i,
                forall|j: int|
                    0 <= j < i ==> (#[trigger] entries@[j]).0@ == self.entries@[j].0@ && cv_like(
                        entries@[j].1,
                        self.entries@[j].1,
                    ),
            decreases self.entries@.len() - i,
        {
            let pair = (self.entries[i].0.clone(), self.entries[i].1.clone());
            entries.push(pair);
            i = i + 1;
        }
        proof {
            Context::lemma_entries_map_like(self.entries@, entries@);
        }
        Context { entries }
    }
}


/// Snapshots that carry the same data agree on every typed read and on the
/// recorded trace.
pub proof fn lemma_like_reads(m0: Map<Seq<char>, CtxValue>, m1: Map<Seq<char>, CtxValue>)
    requires
        ctx_map_like(m0, m1),
    ensures
        forall|k: Seq<char>| #[trigger] ctx_str(m1, k) == ctx_str(m0, k),
        forall|k: Seq<char>| #[trigger] ctx_bool(m1, k) == ctx_bool(m0, k),
        forall|k: Seq<char>| #[trigger] ctx_u64(m1, k) == ctx_u64(m0, k),
        forall|k: Seq<char>| #[trigger] ctx_hundredths(m1, k) == ctx_hundredths(m0, k),
        forall|k: Seq<char>| #[trigger] ctx_opt_int(m1, k) == ctx_opt_int(m0, k),
        forall|k: Seq<char>| #[trigger] ctx_strings(m1, k) == ctx_strings(m0, k),
        trace_events_of(m1) == trace_events_of(m0),
        crate::tasks::spec_analysis_sources(m1) == crate::tasks::spec_analysis_sources(m0),
        crate::tasks::spec_analysis_summary(m1) == crate::tasks::spec_analysis_summary(m0),
        crate::tasks::spec_analysis_highlight(m1) == crate::tasks::spec_analysis_highlight(m0),
{
    assert forall|k: Seq<char>| #[trigger] ctx_str(m1, k) == ctx_str(m0, k) by {
        if m0.contains_key(k) {
            assert(cv_like(m1[k], m0[k]));
        }
    }
    assert forall|k: Seq<char>| #[trigger] ctx_bool(m1, k) == ctx_bool(m0, k) by {
        if m0.contains_key(k) {
            assert(cv_like(m1[k], m0[k]));
        }
    }
    assert forall|k: Seq<char>| #[trigger] ctx_u64(m1, k) == ctx_u64(m0, k) by {
        if m0.contains_key(k) {
            assert(cv_like(m1[k], m0[k]));
        }
    }
    assert forall|k: Seq<char>| #[trigger] ctx_hundredths(m1, k) == ctx_hundredths(m0, k) by {
        if m0.contains_key(k) {
            assert(cv_like(m1[k], m0[k]));
        }
    }
    assert forall|k: Seq<char>| #[trigger] ctx_opt_int(m1, k) == ctx_opt_int(m0, k) by {
        if m0.contains_key(k) {
            assert(cv_like(m1[k], m0[k]));
        }
    }
    assert forall|k: Seq<char>| #[trigger] ctx_strings(m1, k) == ctx_strings(m0, k) by {
        if m0.contains_key(k) {
            assert(cv_like(m1[k], m0[k]));
        }
    }
    if m0.contains_key("trace.collector"@) {
        assert(cv_like(m1["trace.collector"@], m0["trace.collector"@]));
    }
    if m0.contains_key("analysis.output"@) {
        assert(cv_like(m1["analysis.output"@], m0["analysis.output"@]));
        if m0["analysis.output"@] is Analyst {
            assert(crate::tasks::spec_analysis_sources(m1) =~= crate::tasks::spec_analysis_sources(
                m0,
            ));
        }
    }
}

} // verus!
