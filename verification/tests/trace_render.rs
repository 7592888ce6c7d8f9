use deepresearch::trace::{
    TraceCollector, TraceEvent, TraceSummary, escape_graphviz, sanitize_mermaid,
    trace_events_json,
};

#[test]
fn markdown_renders_steps() {
    let mut collector = TraceCollector::new();
    collector.record("researcher".to_string(), "captured findings".to_string());
    collector.record("analyst".to_string(), "highlight: growth insight".to_string());

    let summary = collector.summary();
    let markdown = summary.render_markdown();

    assert!(markdown.contains("1."));
    assert!(markdown.contains("researcher"));
    assert!(markdown.contains("analyst"));
}

#[test]
fn mermaid_and_graphviz_render_sequences() {
    let events = vec![
        TraceEvent::new("fact_check".to_string(), "confidence 0.8".to_string()),
        TraceEvent::new("critic".to_string(), "verdict auto".to_string()),
    ];
    let summary = TraceSummary::from_events(&events);

    let mermaid = summary.render_mermaid();
    assert!(mermaid.contains("flowchart TD"));
    assert!(mermaid.contains("step1"));

    let graphviz = summary.render_graphviz();
    assert!(graphviz.contains("digraph Trace"));
    assert!(graphviz.contains("step1"));
}

#[test]
fn markdown_exact_output() {
    let events = vec![
        TraceEvent::new("researcher".to_string(), "captured findings".to_string()),
        TraceEvent::new("analyst".to_string(), "highlight: growth insight".to_string()),
    ];
    let summary = TraceSummary::from_events(&events);
    assert_eq!(
        summary.render_markdown(),
        "### Trace Summary\n1. researcher → captured findings\n2. analyst → highlight: growth insight\n"
    );
}

#[test]
fn mermaid_exact_output() {
    let events = vec![
        TraceEvent::new("fact_check".to_string(), "confidence 0.8".to_string()),
        TraceEvent::new("critic".to_string(), "verdict auto".to_string()),
    ];
    let summary = TraceSummary::from_events(&events);
    assert_eq!(
        summary.render_mermaid(),
        "flowchart TD\n  %% auto-generated trace\n  step1[\"fact_check: confidence 0.8\"]\n  step2[\"critic: verdict auto\"]\n  step1 --> step2\n"
    );
}

#[test]
fn graphviz_exact_output() {
    let events = vec![
        TraceEvent::new("fact_check".to_string(), "confidence 0.8".to_string()),
        TraceEvent::new("critic".to_string(), "verdict auto".to_string()),
    ];
    let summary = TraceSummary::from_events(&events);
    assert_eq!(
        summary.render_graphviz(),
        "digraph Trace {\n  rankdir=LR;\n  node [shape=box];\n  step1 [label=\"fact_check: confidence 0.8\"];\n\n  step2 [label=\"critic: verdict auto\"];\n\n  step1 -> step2;\n}\n"
    );
}

#[test]
fn empty_trace_placeholders() {
    let summary = TraceSummary::from_events(&Vec::new());
    assert_eq!(summary.render_markdown(), "No trace events recorded.");
    assert_eq!(summary.render_mermaid(), "flowchart TD\n  %% no trace events captured");
    assert_eq!(summary.render_graphviz(), "digraph Trace {\n  // no trace events captured\n}");
}

#[test]
fn rendering_is_a_function_of_the_events() {
    let make = || {
        TraceSummary::from_events(&vec![
            TraceEvent::new("a".to_string(), "one".to_string()),
            TraceEvent::new("b".to_string(), "two".to_string()),
        ])
    };
    let s1 = make();
    let s2 = make();
    assert_eq!(s1.render_markdown(), s2.render_markdown());
    assert_eq!(s1.render_mermaid(), s2.render_mermaid());
    assert_eq!(s1.render_graphviz(), s2.render_graphviz());
}

#[test]
fn labels_are_escaped() {
    assert_eq!(sanitize_mermaid("a\"b\\c[d]e\nf"), "a\\\"b\\\\c(d)e<br/>f");
    assert_eq!(escape_graphviz("say \"hi\"\nnow"), "say \\\"hi\\\" now");
}

#[test]
fn trace_file_text_is_a_pretty_json_array() {
    assert_eq!(trace_events_json(&Vec::new()), "[]");

    let events = vec![
        TraceEvent { task_id: "researcher".to_string(), message: "one \"quote\"".to_string(), timestamp_ms: 5 },
        TraceEvent { task_id: "analyst".to_string(), message: "two".to_string(), timestamp_ms: 9 },
    ];
    let text = trace_events_json(&events);
    assert_eq!(
        text,
        "[\n  {\n    \"task_id\": \"researcher\",\n    \"message\": \"one \\\"quote\\\"\",\n    \"timestamp_ms\": 5\n  },\n  {\n    \"task_id\": \"analyst\",\n    \"message\": \"two\",\n    \"timestamp_ms\": 9\n  }\n]"
    );

    let parsed: serde_json::Value = serde_json::from_str(&text).expect("valid JSON");
    let rows = parsed.as_array().unwrap();
    assert_eq!(rows.len(), 2);
    assert_eq!(rows[0]["task_id"], "researcher");
    assert_eq!(rows[0]["message"], "one \"quote\"");
    assert_eq!(rows[1]["timestamp_ms"], 9);
}
