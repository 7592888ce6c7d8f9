//! Evaluation of recorded sessions: aggregate fact-check confidence over
//! completion-log entries.
//!
//! Reading and decoding the log file happens in the service; the
//! aggregation over the decoded entries is exact, with confidences in
//! hundredths.

use vstd::prelude::*;
use vstd::string::StringExecFns;

use crate::strutil::{fmt_usize, fmt_hundredths, join_strings, spec_digits, spec_hundredths};

verus! {

/// The fact-check block of one log entry.
#[derive(Debug, Clone, Copy, PartialEq, Eq, Structural)]
pub struct FactCheckLog {
    pub confidence_hundredths: u32,
    pub passed: bool,
}

/// One decoded completion-log entry.
#[derive(Debug)]
pub struct LogEntry {
    pub session_id: Option<String>,
    pub factcheck: Option<FactCheckLog>,
}

/// Aggregated evaluation counters. The mean confidence is the exact
/// rational sum over the evaluated sessions, kept as a sum in hundredths.
#[derive(Debug)]
pub struct EvaluationMetrics {
    pub total_sessions: usize,
    pub evaluated_sessions: usize,
    pub confidence_sum_hundredths: u64,
    pub failures: Vec<String>,
}

impl EvaluationMetrics {
    pub fn new() -> (r: Self)
        ensures
            r.total_sessions == 0,
            r.evaluated_sessions == 0,
            r.confidence_sum_hundredths == 0,
            r.failures@.len() == 0,
    {
        EvaluationMetrics {
            total_sessions: 0,
            evaluated_sessions: 0,
            confidence_sum_hundredths: 0,
            failures: Vec::new(),
        }
    }

    /// The mean confidence in hundredths (zero when nothing was
    /// evaluated), rounded down.
    pub fn average_confidence_hundredths(&self) -> (r: u64)
        ensures
            self.evaluated_sessions == 0 ==> r == 0,
            self.evaluated_sessions > 0 ==> r as int == self.confidence_sum_hundredths as int
                / self.evaluated_sessions as int,
    {
        if self.evaluated_sessions == 0 {
            0
        } else {
            self.confidence_sum_hundredths / (self.evaluated_sessions as u64)
        }
    }

    /// Fold one fact-check observation in: the session counts as
    /// evaluated, its confidence joins the sum, and a failed check files
    /// the session id.
    pub fn record(&mut self, session_id: Option<String>, log: &FactCheckLog)
        requires
            old(self).evaluated_sessions < usize::MAX,
            old(self).confidence_sum_hundredths + log.confidence_hundredths <= u64::MAX,
        ensures
            final(self).evaluated_sessions == old(self).evaluated_sessions + 1,
            final(self).confidence_sum_hundredths == old(self).confidence_sum_hundredths
                + log.confidence_hundredths,
            final(self).total_sessions == old(self).total_sessions,
            !log.passed && session_id is Some ==> final(self).failures@ == old(
                self,
            ).failures@.push(session_id->0),
            log.passed || session_id is None ==> final(self).failures@ == old(self).failures@,
    {
        self.evaluated_sessions = self.evaluated_sessions + 1;
        self.confidence_sum_hundredths = self.confidence_sum_hundredths + (
        log.confidence_hundredths as u64);
        if !log.passed {
            match session_id {
                Option::Some(id) => {
                    self.failures.push(id);
                },
                Option::None => {},
            }
        }
    }

    /// The one-line report: evaluated over total, the mean confidence with
    /// two decimals, and the failure count.
    pub fn summary(&self) -> (r: String)
        ensures
            r@ == "evaluated "@ + spec_digits(self.evaluated_sessions as nat) + "/"@ + spec_digits(
                self.total_sessions as nat,
            ) + " sessions • avg confidence "@ + spec_hundredths(
                ({
                    let avg = if self.evaluated_sessions == 0 {
                        0
                    } else {
                        self.confidence_sum_hundredths as int / self.evaluated_sessions as int
                    };
                    if avg <= u32::MAX as int {
                        avg
                    } else {
                        u32::MAX as int
                    }
                }) as nat,
            ) + " • "@ + spec_digits(self.failures@.len() as nat) + " failure(s)"@,
    {
        let avg = self.average_confidence_hundredths();
        let avg32: u32 = if avg > 0xFFFF_FFFFu64 {
            u32::MAX
        } else {
            avg as u32
        };
        proof {
            if self.evaluated_sessions > 0 {
                assert(self.confidence_sum_hundredths as int / self.evaluated_sessions as int
                    <= self.confidence_sum_hundredths as int) by (nonlinear_arith)
                    requires
                        self.evaluated_sessions >= 1,
                        self.confidence_sum_hundredths >= 0,
                ;
            }
        }
        let mut out: String = "evaluated ".to_owned();
        out.append(fmt_usize(self.evaluated_sessions).as_str());
        out.append("/");
        out.append(fmt_usize(self.total_sessions).as_str());
        out.append(" sessions • avg confidence ");
        out.append(fmt_hundredths(avg32).as_str());
        out.append(" • ");
        out.append(fmt_usize(self.failures.len()).as_str());
        out.append(" failure(s)");
        out
    }
}

/// The confidence an entry contributes, capped below the unsigned bound.
pub open spec fn capped_confidence(log: FactCheckLog) -> int {
    if log.confidence_hundredths > 0xFFFF_FFFEu32 {
        0xFFFF_FFFEu32 as int
    } else {
        log.confidence_hundredths as int
    }
}

/// How many of the first `n` entries carry a fact-check block.
pub open spec fn spec_evaluated(entries: Seq<LogEntry>, n: nat) -> nat
    decreases n,
{
    if n == 0 {
        0
    } else {
        spec_evaluated(entries, (n - 1) as nat) + if entries[n - 1].factcheck is Some {
            1nat
        } else {
            0nat
        }
    }
}

/// The capped confidence sum over the first `n` entries.
pub open spec fn spec_confidence_sum(entries: Seq<LogEntry>, n: nat) -> int
    decreases n,
{
    if n == 0 {
        0
    } else {
        spec_confidence_sum(entries, (n - 1) as nat) + match entries[n - 1].factcheck {
            Option::Some(log) => capped_confidence(log),
            Option::None => 0,
        }
    }
}

/// The ids of the failed, identified sessions among the first `n`.
pub open spec fn spec_failures(entries: Seq<LogEntry>, n: nat) -> Seq<Seq<char>>
    decreases n,
{
    if n == 0 {
        Seq::<Seq<char>>::empty()
    } else {
        let rest = spec_failures(entries, (n - 1) as nat);
        match entries[n - 1].factcheck {
            Option::Some(log) => if !log.passed && entries[n - 1].session_id is Some {
                rest.push(entries[n - 1].session_id->0@)
            } else {
                rest
            },
            Option::None => rest,
        }
    }
}

/// Aggregates decoded completion-log entries.
pub struct EvaluationHarness;

impl EvaluationHarness {
    /// Fold a batch of decoded entries: every entry counts toward the
    /// total, entries carrying a fact-check block are evaluated with
    /// their (capped) confidence summed, and every failed identified
    /// session is filed, in order.
    pub fn analyze_entries(entries: Vec<LogEntry>) -> (r: EvaluationMetrics)
        requires
            entries@.len() < 100000000,
        ensures
            r.total_sessions == entries@.len(),
            r.evaluated_sessions == spec_evaluated(entries@, entries@.len() as nat),
            r.confidence_sum_hundredths == spec_confidence_sum(entries@, entries@.len() as nat),
            r.failures.deep_view() == spec_failures(entries@, entries@.len() as nat),
    {
        let mut metrics = EvaluationMetrics::new();
        let total = entries.len();
        let mut consumed = entries;
        let mut i: usize = 0;
        let n = total;
        while i < n
            invariant
                consumed@ == entries@,
                n == consumed@.len(),
                n < 100000000,
                i <= n,
                metrics.total_sessions == i,
                metrics.evaluated_sessions <= i,
                metrics.evaluated_sessions == spec_evaluated(entries@, i as nat),
                metrics.confidence_sum_hundredths == spec_confidence_sum(entries@, i as nat),
                metrics.confidence_sum_hundredths <= (i as int) * 0x100000000,
                metrics.failures.deep_view() == spec_failures(entries@, i as nat),
            decreases n - i,
        {
            proof {
                assert(((i + 1) as int) * 0x100000000 == (i as int) * 0x100000000 + 0x100000000)
                    by (nonlinear_arith);
                assert((i as int) * 0x100000000 <= (n as int) * 0x100000000) by (nonlinear_arith)
                    requires
                        0 <= i <= n,
                ;
                assert((n as int) * 0x100000000 < 0x10000000000000000) by (nonlinear_arith)
                    requires
                        n < 100000000,
                ;
            }
            let entry = &consumed[i];
            metrics.total_sessions = metrics.total_sessions + 1;
            match &entry.factcheck {
                Option::Some(fact) => {
                    let sid = crate::strutil::clone_opt_string(&entry.session_id);
                    let capped = FactCheckLog {
                        confidence_hundredths: if fact.confidence_hundredths
                            > 0xFFFF_FFFEu32 {
                            0xFFFF_FFFEu32
                        } else {
                            fact.confidence_hundredths
                        },
                        passed: fact.passed,
                    };
                    metrics.record(sid, &capped);
                    proof {
                        if !fact.passed && entry.session_id is Some {
                            assert(metrics.failures.deep_view() =~= spec_failures(
                                entries@,
                                (i + 1) as nat,
                            ));
                        }
                    }
                },
                Option::None => {},
            }
            i = i + 1;
        }
        metrics
    }
}

} // verus!
