use deepresearch::context::CtxValue;
use deepresearch::pipeline::{
    collect_math_outputs, consent_allows, default_curated_dir, default_raw_dir, format_kind,
    int96_words, session_record_line,
};
use deepresearch::sandbox::SandboxOutputKind;
use deepresearch::storage::{InMemorySessionStorage, Session};
use deepresearch::tasks::{MathToolOutput, MathToolResult, MathToolStatus};
use deepresearch::workflow::{SessionOptions, run_research_session_with_report};

#[test]
fn artifact_records_carry_lengths_not_bytes() {
    let result = MathToolResult {
        status: MathToolStatus::Success,
        exit_code: Some(0),
        timed_out: false,
        duration_ms: 3,
        stdout: String::new(),
        stderr: String::new(),
        outputs: vec![
            MathToolOutput {
                path: "plot.png".to_string(),
                kind: SandboxOutputKind::Binary,
                bytes: vec![0; 17],
            },
            MathToolOutput {
                path: "log.txt".to_string(),
                kind: SandboxOutputKind::Text,
                bytes: b"abc".to_vec(),
            },
        ],
    };
    let records = collect_math_outputs(&result);
    assert_eq!(records.len(), 2);
    assert_eq!(records[0].path, "plot.png");
    assert_eq!(records[0].kind, "binary");
    assert_eq!(records[0].bytes_len, 17);
    assert_eq!(records[1].kind, "text");
    assert_eq!(records[1].bytes_len, 3);

    assert_eq!(format_kind(&SandboxOutputKind::Binary), "binary");
    assert_eq!(format_kind(&SandboxOutputKind::Text), "text");
}

#[test]
fn pipeline_record_is_self_contained_json() {
    let mut storage = InMemorySessionStorage::new();
    let options = SessionOptions::new("use context7 dummy".to_string())
        .with_session_id("test".to_string());
    let outcome = run_research_session_with_report(options, &mut storage).expect("run succeeds");
    let session = storage.get("test").expect("stored");

    let line = session_record_line("2024-01-01T00:00:00Z", &session, &outcome);
    assert!(line.contains("\"session_id\":\"test\""));
    let record: serde_json::Value = serde_json::from_str(&line).expect("valid JSON");
    assert_eq!(record["session_id"], "test");
    assert_eq!(record["query"], "use context7 dummy");
    assert_eq!(record["requires_manual_review"], true);
    assert_eq!(record["math_status"], "skipped");
    assert_eq!(record["math_alert_required"], false);
    assert_eq!(record["math_outputs"].as_array().unwrap().len(), 0);
    assert_eq!(record["trace_path"], serde_json::Value::Null);
}

#[test]
fn consent_defaults_to_inclusion() {
    assert!(consent_allows(None));
    assert!(consent_allows(Some(true)));
    assert!(!consent_allows(Some(false)));
}

#[test]
fn timestamp_words_split_little_end_first() {
    let (w0, w1, w2) = int96_words(1);
    assert_eq!((w0, w1, w2), (1, 0, 0));
    let (w0, w1, w2) = int96_words(0x1_0000_0001);
    assert_eq!((w0, w1, w2), (1, 1, 0));
    let (w0, w1, w2) = int96_words(-1);
    assert_eq!((w0, w1, w2), (u32::MAX, u32::MAX, 0));
}

#[test]
fn default_pipeline_directories() {
    assert_eq!(default_raw_dir(), "data/pipeline/raw");
    assert_eq!(default_curated_dir(), "data/pipeline/curated");
}

#[test]
fn storage_session_snapshot_carries_context() {
    let mut session = Session::new_from_task("x".to_string(), "researcher".to_string());
    session.context.set("math.status".to_string(), CtxValue::Str("success".to_string()));
    assert_eq!(session.context.get_str("math.status"), Some("success".to_string()));
    assert_eq!(session.context.get_str("missing"), None);
    assert_eq!(session.context.get_bool("math.status"), None);
}
