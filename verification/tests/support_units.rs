use deepresearch::config::{AppConfig, ConfigLoader, FactcheckConfig, StorageBackend, parse_bool};
use deepresearch::config::{Config, LlmConfig, LoggingConfig, PlannerConfig, QdrantConfig};
use deepresearch::eval::{EvaluationHarness, EvaluationMetrics, FactCheckLog, LogEntry};
use deepresearch::events::EventCollector;
use deepresearch::orchestrator::{OrchestratorConfig, RigOrchestrator, next_backoff, retry_decision};
use deepresearch::planner::{AgentRole, PlannerAgent};
use deepresearch::telemetry::{record_sandbox_metrics, session_completed, warn_stub_ingest};

#[test]
fn parse_bool_is_lenient() {
    assert_eq!(parse_bool(" TRUE "), Some(true));
    assert_eq!(parse_bool("1"), Some(true));
    assert_eq!(parse_bool("yes"), Some(true));
    assert_eq!(parse_bool("On"), Some(true));
    assert_eq!(parse_bool("0"), Some(false));
    assert_eq!(parse_bool("off"), Some(false));
    assert_eq!(parse_bool("No"), Some(false));
    assert_eq!(parse_bool("false"), Some(false));
    assert_eq!(parse_bool("maybe"), None);
    assert_eq!(parse_bool(""), None);
}

#[test]
fn app_config_resolution_rules() {
    let config = AppConfig::resolve(
        None,
        None,
        Some(8),
        None,
        None,
        None,
        Some("  token  ".to_string()),
        StorageBackend::InMemory,
        Some("   ".to_string()),
        None,
    );
    assert_eq!(config.listen_addr, "0.0.0.0:8080");
    assert_eq!(config.max_concurrency, 8);
    assert!(config.default_enable_trace);
    assert!(config.gui_enabled, "a configured token forces the interface on");
    assert_eq!(config.auth_token, Some("token".to_string()));
    assert_eq!(config.session_namespace, None);

    let fallback = AppConfig::resolve(
        Some("127.0.0.1:9000".to_string()),
        Some(0),
        None,
        Some(false),
        None,
        Some("off".to_string()),
        None,
        StorageBackend::InMemory,
        None,
        None,
    );
    assert_eq!(fallback.listen_addr, "127.0.0.1:9000");
    assert_eq!(fallback.max_concurrency, 4);
    assert!(!fallback.default_enable_trace);
    assert!(!fallback.gui_enabled);
}

#[test]
fn config_validation_requires_a_key_reference() {
    let config = Config {
        llm: LlmConfig {
            provider: "p".to_string(),
            model: "m".to_string(),
            api_key_env: "  ".to_string(),
        },
        qdrant: QdrantConfig { url: "u".to_string(), collection: "c".to_string() },
        planner: PlannerConfig { max_iterations: 3, confidence_threshold_hundredths: 80 },
        factcheck: FactcheckConfig::default(),
        logging: LoggingConfig { level: "info".to_string() },
    };
    assert!(ConfigLoader::validate(&config).is_err());

    let mut ok = config;
    ok.llm.api_key_env = "MY_KEY".to_string();
    assert!(ConfigLoader::validate(&ok).is_ok());
    assert_eq!(ok.factcheck.min_confidence_hundredths, 75);
    assert_eq!(ok.factcheck.verification_count, 3);
    assert_eq!(ok.factcheck.timeout_ms, 20000);
}

#[test]
fn evaluation_harness_aggregates_confidence() {
    let entries = vec![
        LogEntry {
            session_id: Some("a".to_string()),
            factcheck: Some(FactCheckLog { confidence_hundredths: 80, passed: true }),
        },
        LogEntry {
            session_id: Some("b".to_string()),
            factcheck: Some(FactCheckLog { confidence_hundredths: 40, passed: false }),
        },
    ];
    let metrics = EvaluationHarness::analyze_entries(entries);
    assert_eq!(metrics.total_sessions, 2);
    assert_eq!(metrics.evaluated_sessions, 2);
    assert_eq!(metrics.average_confidence_hundredths(), 60);
    assert_eq!(metrics.failures, vec!["b".to_string()]);
    assert_eq!(
        metrics.summary(),
        "evaluated 2/2 sessions • avg confidence 0.60 • 1 failure(s)"
    );
}

#[test]
fn empty_metrics_report_zero_confidence() {
    let metrics = EvaluationMetrics::new();
    assert_eq!(metrics.average_confidence_hundredths(), 0);
    assert_eq!(
        metrics.summary(),
        "evaluated 0/0 sessions • avg confidence 0.00 • 0 failure(s)"
    );
}

#[test]
fn test_event_collector() {
    let mut collector = EventCollector::new();
    collector.emit_start("task1".to_string(), AgentRole::Researcher, "Test task".to_string());
    let events = collector.events();
    assert_eq!(events.len(), 1);
    match &events[0] {
        deepresearch::events::Event::Start { task_id, event_id, .. } => {
            assert_eq!(task_id.as_str(), "task1");
            assert_eq!(event_id.as_str(), "evt_0");
        }
        _ => panic!("expected a start event"),
    }
}

#[test]
fn test_trace_collector() {
    let mut collector = EventCollector::new();
    collector.emit_start("task1".to_string(), AgentRole::Researcher, "Test".to_string());
    let drained = collector.flush();
    assert_eq!(drained.len(), 1);
    assert_eq!(collector.events().len(), 0);
}

#[test]
fn test_orchestrator_execution() {
    let collector = EventCollector::new();
    let config = OrchestratorConfig::default();
    let mut orchestrator = RigOrchestrator::new(config, collector);

    let planner = PlannerAgent::new(1, 80);
    let mut graph = deepresearch::planner::TaskGraph::new();
    graph
        .add_node(deepresearch::planner::TaskNode::new(
            "test1".to_string(),
            "Test task".to_string(),
            AgentRole::Researcher,
        ))
        .unwrap();
    let _ = planner;

    let report = orchestrator.execute(&graph).unwrap();
    assert_eq!(report.total_tasks, 1);
    assert_eq!(report.successful_tasks, 1);
    assert_eq!(report.failed_tasks, 0);
}

#[test]
fn test_orchestrator_with_dependencies() {
    let collector = EventCollector::new();
    let config = OrchestratorConfig::default();
    let mut orchestrator = RigOrchestrator::new(config, collector);

    let mut graph = deepresearch::planner::TaskGraph::new();
    let node1 = deepresearch::planner::TaskNode::new(
        "1".to_string(),
        "One".to_string(),
        AgentRole::Researcher,
    );
    let node2 = deepresearch::planner::TaskNode::new(
        "2".to_string(),
        "Two".to_string(),
        AgentRole::Analyst,
    )
    .with_dependency("1".to_string());
    graph.add_node(node1).unwrap();
    graph.add_node(node2).unwrap();

    let report = orchestrator.execute(&graph).unwrap();
    assert_eq!(report.total_tasks, 2);
    assert_eq!(report.successful_tasks, 2);
    assert_eq!(orchestrator.get_results().len(), 2);
    assert_eq!(orchestrator.get_results()[0].task_id, "1");
}

#[test]
fn retry_policy_is_exact() {
    assert!(retry_decision(0, 2, true));
    assert!(retry_decision(1, 2, true));
    assert!(!retry_decision(2, 2, true));
    assert!(!retry_decision(0, 2, false));
    assert_eq!(next_backoff(1000, 30000), 2000);
    assert_eq!(next_backoff(20000, 30000), 30000);
    assert_eq!(next_backoff(u64::MAX, u64::MAX), u64::MAX);
}

#[test]
fn telemetry_records_carry_their_fields() {
    let rec = session_completed("s1", true, 4, 2, 1);
    assert_eq!(rec.message, "session_completed");
    assert_eq!(rec.fields[0].1, "s1");
    assert_eq!(rec.fields[3].1, "true");
    assert_eq!(rec.fields[4].1, "4");

    let (runs, alerts) = record_sandbox_metrics(12, 0, 3);
    assert_eq!((runs, alerts), (1, 1));
    let (_, no_alert) = record_sandbox_metrics(12, 0, 2);
    assert_eq!(no_alert, 0);

    assert!(matches!(
        warn_stub_ingest().severity,
        deepresearch::telemetry::TelemetrySeverity::Warn
    ));
}
