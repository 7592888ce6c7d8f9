use deepresearch::context::CtxValue;
use deepresearch::retrieval::IngestDocument;
use deepresearch::sandbox::SandboxResult;
use deepresearch::storage::{InMemorySessionStorage, Session};
use deepresearch::tasks::MathToolRequest;
use deepresearch::workflow::{
    DeleteOptions, IngestOptions, LoadOptions, ResumeOptions, RetrieverChoice, SessionOptions,
    delete_session, ingest_documents, load_session_report, resume_research_session,
    run_research_session, run_research_session_with_options, run_research_session_with_report,
};

/// Two indexed documents with their own sources, enough for the default
/// fact-check settings to pass.
fn indexed_documents() -> Vec<IngestDocument> {
    vec![
        IngestDocument {
            id: "d1".to_string(),
            text: "battery demand grows with storage deployments".to_string(),
            source: Some("https://example.com/industry-overview".to_string()),
        },
        IngestDocument {
            id: "d2".to_string(),
            text: "lithium supply contracts tighten through 2024".to_string(),
            source: Some("https://example.com/market-trends".to_string()),
        },
    ]
}

#[test]
fn critic_verdict_is_non_empty() {
    let mut storage = InMemorySessionStorage::new();
    let options = SessionOptions::new("Assess lithium battery market drivers 2024".to_string())
        .with_stub_documents(indexed_documents());
    let summary =
        run_research_session_with_options(options, &mut storage).expect("workflow should succeed");

    assert!(summary.contains("Sources:"), "summary should list sources: {summary}");
    assert!(summary.contains("Analysis passes"), "expected critic verdict wording: {summary}");
}

#[test]
fn happy_path_completes_without_manual_review() {
    let mut storage = InMemorySessionStorage::new();
    let options = SessionOptions::new("Assess lithium battery market drivers 2024".to_string())
        .with_stub_documents(indexed_documents());
    let outcome = run_research_session_with_report(options, &mut storage).expect("run succeeds");
    assert!(outcome.summary.contains("Analysis passes automated checks"));
    assert!(!outcome.requires_manual);
    assert_eq!(outcome.critic_confident, Some(true));
    assert_eq!(outcome.factcheck_passed, Some(true));
}

#[test]
fn empty_retrieval_forces_manual_review() {
    let mut storage = InMemorySessionStorage::new();
    let options = SessionOptions::new("Assess lithium battery market drivers 2024".to_string());
    let outcome = run_research_session_with_report(options, &mut storage).expect("run succeeds");
    assert!(outcome.requires_manual, "an empty retrieval result set leaves the critic unconvinced");
    assert_eq!(outcome.critic_confident, Some(false));
    assert_eq!(outcome.factcheck_passed, Some(false));
    assert!(outcome.summary.to_lowercase().contains("manual"));
}

#[test]
fn manual_review_branch_triggers() {
    let mut storage = InMemorySessionStorage::new();
    let mut settings = deepresearch::tasks::FactCheckSettings::default();
    settings.min_confidence_hundredths = 95;
    settings.verification_count = 0;
    let options = SessionOptions::new("Trigger manual review".to_string())
        .with_fact_check_settings(settings);

    let summary = run_research_session_with_options(options, &mut storage)
        .expect("workflow should succeed");

    assert!(
        summary.to_lowercase().contains("manual"),
        "expected manual review message, got: {summary}"
    );
}

#[test]
fn manual_flag_mirrors_critic_confidence() {
    let mut storage = InMemorySessionStorage::new();
    let mut settings = deepresearch::tasks::FactCheckSettings::default();
    settings.min_confidence_hundredths = 95;
    settings.verification_count = 0;
    let options = SessionOptions::new("Trigger manual review".to_string())
        .with_fact_check_settings(settings);
    let outcome = run_research_session_with_report(options, &mut storage).expect("run succeeds");
    assert!(outcome.requires_manual);
    assert_eq!(outcome.critic_confident, Some(false));
    assert_eq!(outcome.factcheck_passed, Some(false));
}

#[test]
fn resume_session_returns_summary() {
    let mut storage = InMemorySessionStorage::new();
    let session_id = "resume-check".to_string();

    let options = SessionOptions::new("Assess lithium battery market drivers 2024".to_string())
        .with_session_id(session_id.clone())
        .with_stub_documents(indexed_documents());
    let summary = run_research_session_with_options(options, &mut storage)
        .expect("initial run succeeds");
    assert!(summary.contains("Analysis passes"));

    let resume_summary =
        resume_research_session(ResumeOptions::new(session_id.clone()), &mut storage)
            .expect("resume should succeed");
    assert!(resume_summary.contains("Analysis passes"));
    assert_eq!(summary, resume_summary);

    let again = resume_research_session(ResumeOptions::new(session_id), &mut storage)
        .expect("a repeated resume succeeds");
    assert_eq!(summary, again);
}

#[test]
fn resume_of_unknown_session_is_rejected() {
    let mut storage = InMemorySessionStorage::new();
    let err = resume_research_session(ResumeOptions::new("s-missing".to_string()), &mut storage);
    assert!(err.is_err());
}

#[test]
fn run_then_load_reports_the_same_outcome() {
    let mut storage = InMemorySessionStorage::new();
    let options = SessionOptions::new("Assess lithium battery market drivers 2024".to_string())
        .with_session_id("s1".to_string())
        .enable_trace();
    let outcome = run_research_session_with_report(options, &mut storage).expect("run succeeds");

    let loaded = load_session_report(LoadOptions::new("s1".to_string()), &storage)
        .expect("load succeeds");
    assert_eq!(outcome.summary, loaded.summary);
    assert_eq!(outcome.requires_manual, loaded.requires_manual);
    assert_eq!(outcome.critic_confident, loaded.critic_confident);
    assert_eq!(outcome.trace_events.len(), loaded.trace_events.len());
}

#[test]
fn trace_follows_the_default_wiring() {
    let mut storage = InMemorySessionStorage::new();
    let options = SessionOptions::new("path check".to_string()).enable_trace();
    let outcome = run_research_session_with_report(options, &mut storage).expect("run succeeds");
    let ids: Vec<String> = outcome.trace_events.iter().map(|e| e.task_id.clone()).collect();
    assert_eq!(
        ids,
        vec!["researcher", "analyst", "math_tool", "fact_check", "critic", "manual_review"]
    );

    let mut s2 = InMemorySessionStorage::new();
    let seeded = SessionOptions::new("path check".to_string())
        .enable_trace()
        .with_stub_documents(indexed_documents());
    let outcome = run_research_session_with_report(seeded, &mut s2).expect("run succeeds");
    let ids: Vec<String> = outcome.trace_events.iter().map(|e| e.task_id.clone()).collect();
    assert_eq!(
        ids,
        vec!["researcher", "analyst", "math_tool", "fact_check", "critic", "finalize"]
    );
}

#[test]
fn trace_path_points_at_the_session_file() {
    let mut storage = InMemorySessionStorage::new();
    let options = SessionOptions::new("q".to_string())
        .with_session_id("sid-7".to_string())
        .with_trace_output_dir("data/traces".to_string());
    let outcome = run_research_session_with_report(options, &mut storage).expect("run succeeds");
    assert_eq!(outcome.trace_path, Some("data/traces/sid-7.json".to_string()));
}

#[test]
fn empty_script_is_skipped() {
    let mut storage = InMemorySessionStorage::new();
    let request = MathToolRequest {
        script_name: Some("noop.py".to_string()),
        script: "   ".to_string(),
        args: Vec::new(),
        files: Vec::new(),
        expected_outputs: Vec::new(),
        timeout_ms: None,
    };
    let options = SessionOptions::new("numbers".to_string())
        .with_session_id("m1".to_string())
        .with_initial_context("math.request".to_string(), CtxValue::MathReq(request));
    run_research_session_with_options(options, &mut storage).expect("run succeeds");

    let session = storage.get("m1").expect("session stored");
    assert_eq!(session.context.get_str("math.status"), Some("skipped".to_string()));
    assert_eq!(session.context.get_bool("math.retry_recommended"), Some(false));
    assert_eq!(session.context.get_str("math.degradation_note"), Some(String::new()));
}

#[test]
fn sandbox_timeout_degrades_gracefully() {
    let mut storage = InMemorySessionStorage::new();
    let request = MathToolRequest {
        script_name: Some("sleepy.py".to_string()),
        script: "import time; time.sleep(10)".to_string(),
        args: Vec::new(),
        files: Vec::new(),
        expected_outputs: Vec::new(),
        timeout_ms: Some(100),
    };
    let timed_out = SandboxResult {
        exit_code: None,
        stdout: String::new(),
        stderr: String::new(),
        outputs: Vec::new(),
        timed_out: true,
        duration_ms: 100,
    };
    let options = SessionOptions::new("numbers".to_string())
        .with_session_id("m2".to_string())
        .with_initial_context("math.request".to_string(), CtxValue::MathReq(request))
        .with_sandbox_outcomes(vec![Ok(timed_out)]);
    let outcome = run_research_session_with_options(options, &mut storage);
    assert!(outcome.is_ok(), "the session still completes");

    let session = storage.get("m2").expect("session stored");
    assert_eq!(session.context.get_str("math.status"), Some("timeout".to_string()));
    assert_eq!(session.context.get_bool("math.timed_out"), Some(true));
    assert_eq!(session.context.get_bool("math.retry_recommended"), Some(true));
    let note = session.context.get_str("math.degradation_note").unwrap();
    assert_eq!(note, "Math tool timeout. Falling back to non-numeric reasoning.");
}

#[test]
fn math_context_keys_are_stable() {
    let mut storage = InMemorySessionStorage::new();
    let request = MathToolRequest {
        script_name: Some("stub_math.py".to_string()),
        script: "print('ok')".to_string(),
        args: Vec::new(),
        files: Vec::new(),
        expected_outputs: Vec::new(),
        timeout_ms: Some(1000),
    };
    let run_result = SandboxResult {
        exit_code: Some(0),
        stdout: "ok".to_string(),
        stderr: String::new(),
        outputs: Vec::new(),
        timed_out: false,
        duration_ms: 12,
    };
    let options = SessionOptions::new("use context7 verify math context keys".to_string())
        .with_session_id("m3".to_string())
        .with_initial_context("math.request".to_string(), CtxValue::MathReq(request))
        .with_sandbox_outcomes(vec![Ok(run_result)]);
    run_research_session_with_options(options, &mut storage).expect("workflow should succeed");

    let session = storage.get("m3").expect("session should exist after run");
    let status = session.context.get_str("math.status").expect("math.status key missing");
    assert!(!status.is_empty(), "math.status should be non-empty");
    assert_eq!(status, "success");
    assert!(session.context.get_bool("math.alert_required").is_some());
    assert!(session.context.get_bool("math.retry_recommended").is_some());
    assert!(session.context.get_str("math.degradation_note").is_some());
    assert!(session.context.get_bool("analysis.math_alert_required").is_some());
    assert!(session.context.get_bool("analysis.math_retry_recommended").is_some());
}

#[test]
fn save_then_get_round_trips() {
    let mut storage = InMemorySessionStorage::new();
    let mut session = Session::new_from_task("s9".to_string(), "researcher".to_string());
    session.context.set("query".to_string(), CtxValue::Str("q".to_string()));
    storage.save(session);

    let loaded = storage.get("s9").expect("saved session is found");
    assert_eq!(loaded.id, "s9");
    assert_eq!(loaded.current_task_id, "researcher");
    assert_eq!(loaded.context.get_str("query"), Some("q".to_string()));

    storage.delete("s9");
    assert!(storage.get("s9").is_none());
    storage.delete("s9");
    assert!(storage.get("s9").is_none());
}

#[test]
fn delete_session_requires_existence() {
    let mut storage = InMemorySessionStorage::new();
    assert!(delete_session(DeleteOptions::new("nope".to_string()), &mut storage).is_err());

    let mut s2 = InMemorySessionStorage::new();
    let options = SessionOptions::new("q".to_string()).with_session_id("del-1".to_string());
    run_research_session_with_options(options, &mut s2).expect("run succeeds");
    assert!(delete_session(DeleteOptions::new("del-1".to_string()), &mut s2).is_ok());
    assert!(s2.get("del-1").is_none());
}

#[test]
fn finalize_summary_has_the_documented_shape() {
    let mut storage = InMemorySessionStorage::new();
    let outcome = run_research_session_with_report(
        SessionOptions::new("Snapshot regression baseline".to_string())
            .with_stub_documents(indexed_documents()),
        &mut storage,
    )
    .expect("workflow should succeed");
    let summary = &outcome.summary;
    assert!(summary.starts_with("Analysis passes automated checks\n\nSummary:\n"));
    assert!(summary.contains("\nKey Insight: "));
    assert!(summary.contains("\nConfidence: High\n"));
    assert!(summary.contains("\nSources:\n  1. https://example.com/industry-overview"));
    assert!(summary.contains("\n  2. https://example.com/market-trends"));
    assert!(summary.contains("\nFact-Check Confidence: 1.00\n"));
    assert!(summary.contains("Verified Sources:\n  1. https://example.com/industry-overview"));
}

#[test]
fn default_settings_match_the_documented_values() {
    let settings = deepresearch::tasks::FactCheckSettings::default();
    assert_eq!(settings.min_confidence_hundredths, 75);
    assert_eq!(settings.verification_count, 3);
    assert_eq!(settings.timeout_ms, 20000);
}

#[test]
fn default_run_reports_the_manual_review_summary() {
    let mut storage = InMemorySessionStorage::new();
    let summary =
        run_research_session("anything at all".to_string(), &mut storage).expect("run succeeds");
    assert_eq!(
        summary,
        "Automated checks flagged low confidence. Please perform manual verification."
    );
}

#[test]
fn ingested_documents_are_visible_to_the_store() {
    let mut retriever = deepresearch::retrieval::StubRetriever::new();
    ingest_documents(
        IngestOptions {
            session_id: "t".to_string(),
            documents: indexed_documents(),
            retriever: RetrieverChoice::Stub,
        },
        &mut retriever,
    )
    .expect("stub ingest succeeds");
    let docs = retriever.retrieve("t", 5);
    assert_eq!(docs.len(), 2);
    assert_eq!(docs[0].score_milli, 1000);

    let mut untouched = deepresearch::retrieval::StubRetriever::new();
    let err = ingest_documents(
        IngestOptions {
            session_id: "t".to_string(),
            documents: Vec::new(),
            retriever: RetrieverChoice::qdrant("url".to_string(), "c".to_string(), 8),
        },
        &mut untouched,
    );
    assert!(err.is_err());
}
