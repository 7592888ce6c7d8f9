use deepresearch::logging::{
    SessionLogInput, lines_without_session, log_session_completion_lines, month_dir_name,
    should_prune,
};
use deepresearch::redact::sanitize_text;

#[test]
fn secrets_are_scrubbed() {
    let (text, flags) = sanitize_text("Find api_key=abcd1234 fast");
    assert_eq!(text, "Find api_key=[REDACTED] fast");
    assert!(flags.api_key);

    let (text, flags) = sanitize_text("Summary with secret=topsecret");
    assert_eq!(text, "Summary with secret=[REDACTED]");
    assert!(flags.secret);

    let (text, flags) = sanitize_text("Authorization: bearer XYZ123");
    assert_eq!(text, "Authorization: bearer [REDACTED]");
    assert!(flags.bearer);

    let (text, flags) = sanitize_text("token sk-abcdef1234567890 leaked");
    assert_eq!(text, "token sk-[REDACTED] leaked");
    assert!(flags.sk_token);

    let (text, flags) = sanitize_text("nothing to see here");
    assert_eq!(text, "nothing to see here");
    assert!(!flags.any());
}

#[test]
fn case_and_separators_are_tolerated() {
    let (text, _) = sanitize_text("API-KEY : abcd");
    assert_eq!(text, "API-KEY : [REDACTED]");
    let (text, _) = sanitize_text("ApiKey=v4lue");
    assert_eq!(text, "ApiKey=[REDACTED]");
    let (text, flags) = sanitize_text("sk-short");
    assert_eq!(text, "sk-short");
    assert!(!flags.sk_token);
}

#[test]
fn session_logging_sanitizes_the_record() {
    let input = SessionLogInput {
        session_id: "test-session".to_string(),
        query: Some("Find api_key=abcd1234".to_string()),
        summary: "Summary with secret=topsecret".to_string(),
        verdict: Some("bearer XYZ".to_string()),
        requires_manual: false,
        sources: vec!["sk-abcdef1234567890".to_string()],
        trace_path: Some("data/traces/test.json".to_string()),
    };
    let (line, audit) = log_session_completion_lines("2024-01-01T00:00:00Z", &input);

    let record: serde_json::Value = serde_json::from_str(&line).expect("record is valid JSON");
    assert_eq!(record["session_id"], "test-session");
    assert!(record["summary"].as_str().unwrap().contains("[REDACTED]"));
    assert!(record["query"].as_str().unwrap().contains("[REDACTED]"));
    let reds: Vec<String> = record["redactions"]
        .as_array()
        .unwrap()
        .iter()
        .map(|v| v.as_str().unwrap().to_string())
        .collect();
    assert_eq!(reds, vec!["api_key", "secret", "bearer", "sk_token"]);

    let audit_line = audit.expect("audit record when anything fired");
    let audit_rec: serde_json::Value = serde_json::from_str(&audit_line).unwrap();
    assert_eq!(audit_rec["session_id"], "test-session");
}

#[test]
fn clean_inputs_produce_no_audit_record() {
    let input = SessionLogInput {
        session_id: "clean".to_string(),
        query: None,
        summary: "All fine".to_string(),
        verdict: None,
        requires_manual: true,
        sources: Vec::new(),
        trace_path: None,
    };
    let (line, audit) = log_session_completion_lines("2024-01-01T00:00:00Z", &input);
    assert!(audit.is_none());
    let record: serde_json::Value = serde_json::from_str(&line).unwrap();
    assert_eq!(record["requires_manual"], true);
    assert_eq!(record["query"], serde_json::Value::Null);
    assert_eq!(record["redactions"].as_array().unwrap().len(), 0);
}

#[test]
fn purging_drops_only_the_sessions_lines() {
    let a = SessionLogInput {
        session_id: "keep".to_string(),
        query: None,
        summary: "one".to_string(),
        verdict: None,
        requires_manual: false,
        sources: Vec::new(),
        trace_path: None,
    };
    let b = SessionLogInput {
        session_id: "drop".to_string(),
        query: None,
        summary: "two".to_string(),
        verdict: None,
        requires_manual: false,
        sources: Vec::new(),
        trace_path: None,
    };
    let (la, _) = log_session_completion_lines("t1", &a);
    let (lb, _) = log_session_completion_lines("t2", &b);
    let lines = vec![la.clone(), lb, "not json".to_string()];
    let (kept, removed) = lines_without_session(&lines, "drop");
    assert!(removed);
    assert_eq!(kept, vec![la, "not json".to_string()]);

    let (kept2, removed2) = lines_without_session(&kept, "absent");
    assert!(!removed2);
    assert_eq!(kept2.len(), 2);
}

#[test]
fn retention_prunes_only_old_files() {
    assert!(!should_prune(0, 1000, 0));
    assert!(should_prune(0, 86401, 1));
    assert!(!should_prune(86400, 86401 + 86400, 2));
    assert!(!should_prune(500, 400, 1));
}

#[test]
fn monthly_shards_are_zero_padded() {
    assert_eq!(month_dir_name(2024, 3), "2024/03");
    assert_eq!(month_dir_name(987, 12), "0987/12");
}
