//! The session completion log: one sanitized JSON record per finished
//! session, an audit record whenever any redaction fired, and the
//! rewriting of log lines when a session is purged.
//!
//! Appending to the monthly files, walking directories and pruning by file
//! age is file I/O and lives with the service; the record text, the
//! redaction set and every decision are built and proved here.

use vstd::prelude::*;
use vstd::string::StringExecFns;

use crate::redact::{RedactionFlags, or_flags, sanitize_text, spec_sanitize_flags, spec_sanitized};
use crate::strutil::{
    clone_opt_string, clone_string_vec, fmt_json_string, fmt_pad2, fmt_pad4, json_string,
    spec_padded, str_eq,
};

verus! {

/// What one finished session contributes to the log.
#[derive(Debug)]
pub struct SessionLogInput {
    pub session_id: String,
    pub query: Option<String>,
    pub summary: String,
    pub verdict: Option<String>,
    pub requires_manual: bool,
    pub sources: Vec<String>,
    pub trace_path: Option<String>,
}

/// `null` or a JSON string.
pub open spec fn json_opt_string(v: Option<Seq<char>>) -> Seq<char> {
    match v {
        Option::Some(s) => json_string(s),
        Option::None => "null"@,
    }
}

pub open spec fn json_bool(b: bool) -> Seq<char> {
    if b {
        "true"@
    } else {
        "false"@
    }
}

/// The items of a JSON string array, opening bracket included.
pub open spec fn json_array_items(items: Seq<Seq<char>>, n: nat) -> Seq<char>
    decreases n,
{
    if n == 0 {
        seq!['[']
    } else if n == 1 {
        seq!['['] + json_string(items[0])
    } else {
        json_array_items(items, (n - 1) as nat) + seq![','] + json_string(items[n - 1])
    }
}

/// A JSON array of strings.
pub open spec fn json_str_array(items: Seq<Seq<char>>) -> Seq<char> {
    json_array_items(items, items.len()).push(']')
}

/// Render a JSON array of strings.
pub fn fmt_json_str_array(items: &Vec<String>) -> (r: String)
    ensures
        r@ == json_str_array(items.deep_view()),
{
    let mut out = String::new();
    crate::strutil::push_char(&mut out, '[');
    proof {
        assert(out@ =~= json_array_items(items.deep_view(), 0));
    }
    let mut i: usize = 0;
    while i < items.len()
        invariant
            i <= items@.len(),
            out@ == json_array_items(items.deep_view(), i as nat),
        decreases items@.len() - i,
    {
        if i > 0 {
            crate::strutil::push_char(&mut out, ',');
        }
        out.append(fmt_json_string(items[i].as_str()).as_str());
        proof {
            if i == 0 {
                assert(out@ =~= json_array_items(items.deep_view(), 1));
            } else {
                assert(out@ =~= json_array_items(items.deep_view(), (i + 1) as nat));
            }
        }
        i = i + 1;
    }
    crate::strutil::push_char(&mut out, ']');
    out
}

/// The names of the classes that fired, in the fixed pattern order.
pub open spec fn redaction_names(f: RedactionFlags) -> Seq<Seq<char>> {
    let a = if f.api_key {
        seq!["api_key"@]
    } else {
        Seq::<Seq<char>>::empty()
    };
    let b = if f.secret {
        a.push("secret"@)
    } else {
        a
    };
    let c = if f.bearer {
        b.push("bearer"@)
    } else {
        b
    };
    if f.sk_token {
        c.push("sk_token"@)
    } else {
        c
    }
}

/// List the classes that fired.
pub fn redaction_name_list(f: &RedactionFlags) -> (r: Vec<String>)
    ensures
        r.deep_view() == redaction_names(*f),
{
    let mut out: Vec<String> = Vec::new();
    if f.api_key {
        out.push("api_key".to_owned());
    }
    proof {
        let a = if f.api_key {
            seq!["api_key"@]
        } else {
            Seq::<Seq<char>>::empty()
        };
        assert(out.deep_view() =~= a);
    }
    if f.secret {
        out.push("secret".to_owned());
    }
    if f.bearer {
        out.push("bearer".to_owned());
    }
    if f.sk_token {
        out.push("sk_token".to_owned());
    }
    proof {
        assert(out.deep_view() =~= redaction_names(*f));
    }
    out
}

/// The sanitized source list.
pub open spec fn sanitized_sources(sources: Seq<Seq<char>>, n: nat) -> Seq<Seq<char>>
    decreases n,
{
    if n == 0 {
        Seq::<Seq<char>>::empty()
    } else {
        sanitized_sources(sources, (n - 1) as nat).push(spec_sanitized(sources[n - 1]))
    }
}

/// The classes fired across the source list, merged in order.
pub open spec fn sources_flags(acc: RedactionFlags, sources: Seq<Seq<char>>, n: nat) -> RedactionFlags
    decreases n,
{
    if n == 0 {
        acc
    } else {
        or_flags(sources_flags(acc, sources, (n - 1) as nat), spec_sanitize_flags(sources[n - 1]))
    }
}

/// The flags over a whole log input: query, summary, verdict, then every
/// source, in that order.
pub open spec fn spec_input_flags(input: SessionLogInput) -> RedactionFlags {
    let f0 = RedactionFlags { api_key: false, secret: false, bearer: false, sk_token: false };
    let f1 = match input.query {
        Option::Some(q) => or_flags(f0, spec_sanitize_flags(q@)),
        Option::None => f0,
    };
    let f2 = or_flags(f1, spec_sanitize_flags(input.summary@));
    let f3 = match input.verdict {
        Option::Some(v) => or_flags(f2, spec_sanitize_flags(v@)),
        Option::None => f2,
    };
    sources_flags(f3, input.sources.deep_view(), input.sources.deep_view().len())
}

/// The canonical completion record for a session, as one JSON line.
pub open spec fn spec_session_log_line(ts: Seq<char>, input: SessionLogInput) -> Seq<char> {
    let query = match input.query {
        Option::Some(q) => Option::Some(spec_sanitized(q@)),
        Option::None => Option::None,
    };
    let verdict = match input.verdict {
        Option::Some(v) => Option::Some(spec_sanitized(v@)),
        Option::None => Option::None,
    };
    let tp = match input.trace_path {
        Option::Some(p) => Option::Some(p@),
        Option::None => Option::None,
    };
    "{\"timestamp\":"@ + json_string(ts) + ",\"session_id\":"@ + json_string(input.session_id@)
        + ",\"query\":"@ + json_opt_string(query) + ",\"summary\":"@ + json_string(
        spec_sanitized(input.summary@),
    ) + ",\"verdict\":"@ + json_opt_string(verdict) + ",\"requires_manual\":"@ + json_bool(
        input.requires_manual,
    ) + ",\"sources\":"@ + json_str_array(
        sanitized_sources(input.sources.deep_view(), input.sources.deep_view().len()),
    ) + ",\"trace_path\":"@ + json_opt_string(tp) + ",\"redactions\":"@ + json_str_array(
        redaction_names(spec_input_flags(input)),
    ) + "}"@
}

/// The audit record written when any redaction fired.
pub open spec fn spec_audit_line(ts: Seq<char>, sid: Seq<char>, f: RedactionFlags) -> Seq<char> {
    "{\"timestamp\":"@ + json_string(ts) + ",\"session_id\":"@ + json_string(sid)
        + ",\"redactions\":"@ + json_str_array(redaction_names(f)) + "}"@
}

/// Build the completion record and, when any redaction fired, the audit
/// record, for the given wall-clock timestamp. Free-text fields are
/// sanitized; the redaction classes that fired are listed in the record.
pub fn log_session_completion_lines(timestamp: &str, input: &SessionLogInput) -> (r: (
    String,
    Option<String>,
))
    ensures
        r.0@ == spec_session_log_line(timestamp@, *input),
        ({
            let f = spec_input_flags(*input);
            &&& ((r.1 is Some) <==> (f.api_key || f.secret || f.bearer || f.sk_token))
            &&& (r.1 is Some ==> r.1->0@ == spec_audit_line(timestamp@, input.session_id@, f))
        }),
{
    let mut flags = RedactionFlags::none();
    let query_s: Option<String> = match &input.query {
        Option::Some(q) => {
            let (txt, f) = sanitize_text(q.as_str());
            flags.merge(f);
            Option::Some(txt)
        },
        Option::None => Option::None,
    };
    let (summary_s, f_sum) = sanitize_text(input.summary.as_str());
    flags.merge(f_sum);
    let verdict_s: Option<String> = match &input.verdict {
        Option::Some(v) => {
            let (txt, f) = sanitize_text(v.as_str());
            flags.merge(f);
            Option::Some(txt)
        },
        Option::None => Option::None,
    };
    let mut sources_s: Vec<String> = Vec::new();
    let mut i: usize = 0;
    let ghost f3 = flags;
    while i < input.sources.len()
        invariant
            i <= input.sources@.len(),
            sources_s.deep_view() == sanitized_sources(input.sources.deep_view(), i as nat),
            flags == sources_flags(f3, input.sources.deep_view(), i as nat),
        decreases input.sources@.len() - i,
    {
        let (txt, f) = sanitize_text(input.sources[i].as_str());
        flags.merge(f);
        sources_s.push(txt);
        proof {
            assert(sources_s.deep_view() =~= sanitized_sources(
                input.sources.deep_view(),
                (i + 1) as nat,
            ));
        }
        i = i + 1;
    }
    let names = redaction_name_list(&flags);

    let mut line: String = "{\"timestamp\":".to_owned();
    line.append(fmt_json_string(timestamp).as_str());
    line.append(",\"session_id\":");
    line.append(fmt_json_string(input.session_id.as_str()).as_str());
    line.append(",\"query\":");
    match &query_s {
        Option::Some(q) => {
            line.append(fmt_json_string(q.as_str()).as_str());
        },
        Option::None => {
            line.append("null");
        },
    }
    line.append(",\"summary\":");
    line.append(fmt_json_string(summary_s.as_str()).as_str());
    line.append(",\"verdict\":");
    match &verdict_s {
        Option::Some(v) => {
            line.append(fmt_json_string(v.as_str()).as_str());
        },
        Option::None => {
            line.append("null");
        },
    }
    line.append(",\"requires_manual\":");
    if input.requires_manual {
        line.append("true");
    } else {
        line.append("false");
    }
    line.append(",\"sources\":");
    line.append(fmt_json_str_array(&sources_s).as_str());
    line.append(",\"trace_path\":");
    match &input.trace_path {
        Option::Some(p) => {
            line.append(fmt_json_string(p.as_str()).as_str());
        },
        Option::None => {
            line.append("null");
        },
    }
    line.append(",\"redactions\":");
    line.append(fmt_json_str_array(&names).as_str());
    line.append("}");

    let audit: Option<String> = if flags.any() {
        let mut a: String = "{\"timestamp\":".to_owned();
        a.append(fmt_json_string(timestamp).as_str());
        a.append(",\"session_id\":");
        a.append(fmt_json_string(input.session_id.as_str()).as_str());
        a.append(",\"redactions\":");
        a.append(fmt_json_str_array(&names).as_str());
        a.append("}");
        Option::Some(a)
    } else {
        Option::None
    };
    (line, audit)
}

/// The monthly shard directory `YYYY/MM` under the log root.
pub fn month_dir_name(year: u64, month: u64) -> (r: String)
    ensures
        r@ == spec_padded(year as nat, 4) + "/"@ + spec_padded(month as nat, 2),
{
    let mut out = fmt_pad4(year);
    out.append("/");
    out.append(fmt_pad2(month).as_str());
    out
}

/// A file is pruned when retention is on and the file is older than the
/// retention window.
pub fn should_prune(modified_secs: u64, now_secs: u64, retention_days: u64) -> (r: bool)
    ensures
        r == (retention_days > 0 && (modified_secs as int) < now_secs - retention_days * 86400),
{
    if retention_days == 0 {
        return false;
    }
    let window: u128 = (retention_days as u128) * 86400;
    let cutoff: u128 = if (now_secs as u128) >= window {
        (now_secs as u128) - window
    } else {
        0
    };
    (modified_secs as u128) < cutoff
}

/// Names the `session_id` string field that serde_json reads off a JSON
/// object line, when the line parses and carries one.
pub uninterp spec fn session_id_field(line: Seq<char>) -> Option<Seq<char>>;

/// Relies on serde_json's `from_str`, `Value::get` and `Value::as_str`:
/// the `session_id` field of the parsed line, a function of the line text.
#[verifier::external_body]
fn json_line_session_id(line: &str) -> (r: Option<String>)
    ensures
        (r is Some <==> session_id_field(line@) is Some),
        r is Some ==> r->0@ == session_id_field(line@)->0,
{
    match serde_json::from_str::<serde_json::Value>(line) {
        Ok(v) => match v.get("session_id").and_then(|x| x.as_str()) {
            Some(s) => Some(s.to_string()),
            None => None,
        },
        Err(_) => None,
    }
}

/// The lines kept when purging a session: those whose `session_id` field
/// differs from the purged id.
pub open spec fn kept_lines(lines: Seq<Seq<char>>, sid: Seq<char>, n: nat) -> Seq<Seq<char>>
    decreases n,
{
    if n == 0 {
        Seq::<Seq<char>>::empty()
    } else {
        let rest = kept_lines(lines, sid, (n - 1) as nat);
        if session_id_field(lines[n - 1]) == Option::Some(sid) {
            rest
        } else {
            rest.push(lines[n - 1])
        }
    }
}

/// Filter the lines of a log file, dropping the records of one session.
/// The flag reports whether anything was dropped.
pub fn lines_without_session(lines: &Vec<String>, session_id: &str) -> (r: (Vec<String>, bool))
    ensures
        r.0.deep_view() == kept_lines(lines.deep_view(), session_id@, lines.deep_view().len()),
        r.1 == (r.0.deep_view().len() != lines.deep_view().len()),
{
    let mut kept: Vec<String> = Vec::new();
    let mut removed = false;
    let mut i: usize = 0;
    while i < lines.len()
        invariant
            i <= lines@.len(),
            kept.deep_view() == kept_lines(lines.deep_view(), session_id@, i as nat),
            kept.deep_view().len() <= i,
            removed == (kept.deep_view().len() != i),
        decreases lines@.len() - i,
    {
        let matched = match json_line_session_id(lines[i].as_str()) {
            Option::Some(sid) => str_eq(sid.as_str(), session_id),
            Option::None => false,
        };
        if matched {
            removed = true;
        } else {
            kept.push(lines[i].clone());
            proof {
                assert(kept.deep_view() =~= kept_lines(
                    lines.deep_view(),
                    session_id@,
                    (i + 1) as nat,
                ));
            }
        }
        i = i + 1;
    }
    (kept, removed)
}

} // verus!
