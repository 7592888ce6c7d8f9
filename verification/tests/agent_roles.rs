use deepresearch::agents::{Agent, AgentContext, AnalystAgent, CriticAgent, ResearcherAgent};
use deepresearch::events::EventCollector;
use deepresearch::planner::{AgentRole, ParamValue};

#[test]
fn test_researcher_execution() {
    let collector = EventCollector::new();
    let agent = ResearcherAgent::new();

    let params = vec![(
        "query".to_string(),
        ParamValue::Str("test query".to_string()),
    )];
    let mut context = AgentContext::new(
        "test_task".to_string(),
        AgentRole::Researcher,
        params,
        collector,
    );

    let result = agent.execute(&mut context).unwrap();
    assert_eq!(result.role, AgentRole::Researcher);
    assert!(!result.sources.is_empty());
}

#[test]
fn test_analyst_execution() {
    let collector = EventCollector::new();
    let agent = AnalystAgent::new();

    let params = vec![(
        "synthesis_mode".to_string(),
        ParamValue::Str("comprehensive".to_string()),
    )];
    let mut context = AgentContext::new(
        "test_task".to_string(),
        AgentRole::Analyst,
        params,
        collector,
    );

    let result = agent.execute(&mut context).unwrap();
    assert_eq!(result.role, AgentRole::Analyst);
    assert!(result.confidence_hundredths > 0);
}

#[test]
fn test_critic_execution() {
    let collector = EventCollector::new();
    let agent = CriticAgent::new();

    let params = vec![("min_confidence".to_string(), ParamValue::Hundredths(75))];
    let mut context = AgentContext::new(
        "test_task".to_string(),
        AgentRole::Critic,
        params,
        collector,
    );

    let result = agent.execute(&mut context).unwrap();
    assert_eq!(result.role, AgentRole::Critic);
    assert!(result.confidence_hundredths > 0);
    assert_eq!(context.event_collector.events().len(), 2);
}
