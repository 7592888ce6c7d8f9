use deepresearch::planner::{AgentRole, ParamValue, PlannerAgent, TaskGraph, TaskNode};

#[test]
fn test_task_graph_creation() {
    let mut graph = TaskGraph::new();

    let node = TaskNode::new(
        "task1".to_string(),
        "Test task".to_string(),
        AgentRole::Researcher,
    );

    assert!(graph.add_node(node).is_ok());
    assert_eq!(graph.len(), 1);
}

#[test]
fn planner_test_cycle_detection() {
    let mut graph = TaskGraph::new();

    let node1 = TaskNode::new(
        "task1".to_string(),
        "Task 1".to_string(),
        AgentRole::Researcher,
    );
    let node2 = TaskNode::new(
        "task2".to_string(),
        "Task 2".to_string(),
        AgentRole::Analyst,
    )
    .with_dependency("task1".to_string());

    graph.add_node(node1).unwrap();
    graph.add_node(node2).unwrap();

    assert!(graph.validate().is_ok());
}

#[test]
fn test_topological_order() {
    let mut graph = TaskGraph::new();

    let node1 = TaskNode::new("1".to_string(), "One".to_string(), AgentRole::Researcher);
    let node2 = TaskNode::new("2".to_string(), "Two".to_string(), AgentRole::Analyst)
        .with_dependency("1".to_string());
    let node3 = TaskNode::new("3".to_string(), "Three".to_string(), AgentRole::Critic)
        .with_dependency("2".to_string());

    graph.add_node(node1).unwrap();
    graph.add_node(node2).unwrap();
    graph.add_node(node3).unwrap();

    let order = graph.topological_order().unwrap();
    assert_eq!(order, vec!["1".to_string(), "2".to_string(), "3".to_string()]);
}

#[test]
fn duplicate_ids_and_unknown_dependencies_are_rejected() {
    let mut graph = TaskGraph::new();
    let node = TaskNode::new("a".to_string(), "A".to_string(), AgentRole::Researcher);
    graph.add_node(node).unwrap();

    let dup = TaskNode::new("a".to_string(), "again".to_string(), AgentRole::Analyst);
    assert!(graph.add_node(dup).is_err());

    let dangling = TaskNode::new("b".to_string(), "B".to_string(), AgentRole::Analyst)
        .with_dependency("missing".to_string());
    assert!(graph.add_node(dangling).is_err());
}

#[test]
fn test_planner_creates_valid_graph() {
    let planner = PlannerAgent::new(10, 80);
    let graph = planner.plan("test query").unwrap();

    assert!(!graph.is_empty());
    assert!(graph.validate().is_ok());
    assert_eq!(graph.len(), 3);
    let node = graph.get_node("critique_1").expect("critique task planned");
    assert!(matches!(node.role, AgentRole::Critic));
    assert!(matches!(
        node.get_param("min_confidence"),
        Some(ParamValue::Hundredths(80))
    ));
}

#[test]
fn ready_nodes_have_no_dependencies() {
    let planner = PlannerAgent::new(10, 80);
    let graph = planner.plan("q").unwrap();
    let ready = graph.ready_nodes();
    assert_eq!(ready.len(), 1);
    assert_eq!(ready[0].id, "research_1");
}
