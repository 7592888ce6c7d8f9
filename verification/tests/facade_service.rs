use deepresearch::facade::{
    SessionRequest, SessionService, build_task_metrics, build_timeline, ensure_context7_prefix,
};
use deepresearch::trace::TraceEvent;

#[test]
fn prompt_rewrite_guarantees_the_token() {
    assert_eq!(ensure_context7_prefix("use context7 find things"), "use context7 find things");
    assert_eq!(ensure_context7_prefix("  USE Context7 find"), "  USE Context7 find");
    assert_eq!(ensure_context7_prefix(""), "use context7");
    assert_eq!(ensure_context7_prefix("   "), "use context7");
    assert_eq!(ensure_context7_prefix("find things"), "use context7 find things");
}

#[test]
fn namespace_prefixes_session_ids() {
    let service = SessionService::new(2, false, Some("team".to_string()));
    assert_eq!(service.normalize_session_id(Some("team::a".to_string())), "team::a");
    assert_eq!(service.normalize_session_id(Some("a".to_string())), "team::a");
    let minted = service.normalize_session_id(None);
    assert!(minted.starts_with("team"));

    let plain = SessionService::new(2, false, None);
    assert_eq!(plain.normalize_session_id(Some("x".to_string())), "x");
}

#[test]
fn admission_backpressure() {
    let mut service = SessionService::new(1, false, None);
    assert!(service.try_admit());
    assert!(!service.try_admit());
    assert!(matches!(
        service.try_acquire_session(),
        Err(deepresearch::error::DeepResearchError::AdmissionRejected)
    ));
    service.release_permit();
    assert!(service.try_admit());
}

#[test]
fn lifecycle_records_and_metrics() {
    let mut service = SessionService::new(4, true, None);
    let request = SessionRequest::new("look into things".to_string())
        .with_session_id(Some("s1".to_string()))
        .with_trace(None);
    let (sid, prompt, enable_trace, started) = service.admit_session(request);
    assert_eq!(sid, "s1");
    assert_eq!(prompt, "use context7 look into things");
    assert!(enable_trace, "default tracing is on for this service");
    assert_eq!(started.kind.as_str(), "started");

    let m = service.metrics();
    assert_eq!(m.max_concurrency, 4);
    assert_eq!(m.total_sessions, 1);
    assert_eq!(m.running_sessions, 1);

    let status = service.status("s1").expect("tracked");
    assert!(matches!(status.state, deepresearch::facade::SessionState::Running));

    let event = service.fail_session("s1".to_string(), "boom".to_string());
    assert_eq!(event.kind.as_str(), "error");
    assert_eq!(event.message, Some("session failed: boom".to_string()));
    let status = service.status("s1").expect("tracked");
    assert!(matches!(status.state, deepresearch::facade::SessionState::Failed));
    assert_eq!(status.error, Some("boom".to_string()));
    assert_eq!(service.metrics().running_sessions, 0);
    assert_eq!(service.list_sessions().len(), 1);

    assert!(service.terminal_event("s1").is_some());
    assert!(service.outcome("s1").is_none());
}

#[test]
fn stream_counters_move_with_subscribers() {
    let mut service = SessionService::new(1, false, None);
    service.stream_opened();
    service.stream_opened();
    assert_eq!(service.active_streams, 2);
    service.stream_closed();
    assert_eq!(service.active_streams, 1);
    service.stream_closed();
    service.stream_closed();
    assert_eq!(service.active_streams, 0);
}

#[test]
fn timeline_offsets_and_durations() {
    let events = vec![
        TraceEvent { task_id: "a".to_string(), message: "one".to_string(), timestamp_ms: 100 },
        TraceEvent { task_id: "b".to_string(), message: "two".to_string(), timestamp_ms: 130 },
        TraceEvent { task_id: "a".to_string(), message: "three".to_string(), timestamp_ms: 190 },
    ];
    let timeline = build_timeline(&events);
    assert_eq!(timeline.len(), 3);
    assert_eq!(timeline[0].step_index, 1);
    assert_eq!(timeline[0].offset_ms, 0);
    assert_eq!(timeline[0].duration_ms, Some(30));
    assert_eq!(timeline[1].offset_ms, 30);
    assert_eq!(timeline[1].duration_ms, Some(60));
    assert_eq!(timeline[2].offset_ms, 90);
    assert_eq!(timeline[2].duration_ms, None);

    let metrics = build_task_metrics(&timeline);
    assert_eq!(metrics.len(), 2);
    assert_eq!(metrics[0].task_id, "a");
    assert_eq!(metrics[0].occurrences, 2);
    assert_eq!(metrics[0].total_duration_ms, Some(30));
    assert_eq!(metrics[0].average_duration_ms, Some(30));
    assert_eq!(metrics[1].task_id, "b");
    assert_eq!(metrics[1].occurrences, 1);
    assert_eq!(metrics[1].total_duration_ms, Some(60));
}
