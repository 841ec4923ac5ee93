use grass::error::GrassError;
use grass::ids::{new_v4_id, uuid_string};
use grass::orchestrator::{GrassCrewManager, GrassTaskGraph, GrassTaskManager, GrassTaskNode, GrassTaskType};
use grass::text_map::GrassStringMap;
use grass::types::{GrassAgentBuilder, GrassTaskPayload, GrassTaskResult, GrassTaskStatus};

fn make_node(id: &str) -> GrassTaskNode {
    GrassTaskNode {
        id: id.into(),
        task: GrassTaskPayload {
            task_id: new_v4_id(),
            agent_id: new_v4_id(),
            action: "test".into(),
            input: "{}".into(),
            metadata: GrassStringMap::new(),
        },
        task_type: GrassTaskType::Sequential,
        status: GrassTaskStatus::Pending,
    }
}

#[test]
fn test_task_graph() {
    let mut graph = GrassTaskGraph::new();
    graph.add_node(make_node("a"));
    graph.add_node(make_node("b"));
    graph.add_edge("a", "b");

    let deps = graph.dependencies("b");
    assert_eq!(deps, vec!["a".to_string()]);
}

#[test]
fn test_ready_nodes_excludes_dependent_nodes() {
    let mut graph = GrassTaskGraph::new();
    graph.add_node(make_node("a"));
    graph.add_node(make_node("b"));
    graph.add_edge("a", "b");

    let ready = graph.ready_nodes();
    let ids: Vec<String> = ready.iter().map(|n| n.id.clone()).collect();
    assert_eq!(ids, vec!["a".to_string()]);
}

#[test]
fn test_ready_nodes_ignores_completed_node() {
    let mut graph = GrassTaskGraph::new();
    graph.add_node(make_node("a"));
    let mut done = make_node("b");
    done.status = GrassTaskStatus::Completed;
    graph.add_node(done);

    let ready = graph.ready_nodes();
    assert_eq!(ready.len(), 1);
    assert_eq!(ready[0].id, "a");
}

#[test]
fn test_dependencies_of_unknown_node_returns_empty() {
    let mut graph = GrassTaskGraph::new();
    graph.add_node(make_node("a"));
    let deps = graph.dependencies("missing");
    assert!(deps.is_empty());
}

#[test]
fn test_task_graph_cycle_marked_by_unreachable_ready() {
    let mut graph = GrassTaskGraph::new();
    graph.add_node(make_node("a"));
    graph.add_node(make_node("b"));
    graph.add_edge("a", "b");
    graph.add_edge("b", "a");

    assert_eq!(
        graph.ready_nodes().len(),
        0,
        "cycle leaves no ready node"
    );
}

#[test]
fn task_graph_lookup_and_repeated_edges() {
    let mut graph = GrassTaskGraph::new();
    graph.add_node(make_node("a"));
    graph.add_node(make_node("b"));
    graph.add_node(make_node("c"));
    graph.add_edge("a", "c");
    graph.add_edge("b", "c");
    assert_eq!(graph.dependencies("c"), vec!["a".to_string(), "b".to_string()]);
    assert_eq!(graph.get_node("b").unwrap().id, "b");
    assert!(graph.get_node("z").is_none());
    let ids: Vec<String> = graph.ready_nodes().iter().map(|n| n.id.clone()).collect();
    assert_eq!(ids, vec!["a".to_string(), "b".to_string()]);
}

#[test]
fn test_crew_manager() {
    let mut mgr = GrassCrewManager::new();
    let id = new_v4_id();
    let meta = GrassAgentBuilder::new("worker").build();
    let mut meta = meta;
    meta.id = id;
    mgr.add_agent(meta);
    mgr.assign_task("summarize", id).unwrap();
    assert_eq!(mgr.agents_for_task("summarize"), vec![id]);
}

#[test]
fn crew_refuses_unknown_agents() {
    let mut mgr = GrassCrewManager::new();
    let id = new_v4_id();
    let err = mgr.assign_task("summarize", id).unwrap_err();
    assert_eq!(err, GrassError::Agent(format!("agent {} not found", uuid_string(id))));
    assert!(mgr.agents_for_task("summarize").is_empty());
    let mut meta = GrassAgentBuilder::new("worker").build();
    meta.id = id;
    mgr.add_agent(meta);
    assert_eq!(mgr.list_agents().len(), 1);
    mgr.remove_agent(id);
    assert!(mgr.list_agents().is_empty());
}

#[test]
fn test_task_manager() {
    let mut mgr = GrassTaskManager::new();
    let task_id = new_v4_id();
    let agent_id = new_v4_id();
    let payload = GrassTaskPayload {
        task_id,
        agent_id,
        action: "process".into(),
        input: "{}".into(),
        metadata: GrassStringMap::new(),
    };
    mgr.create_task(payload);
    assert_eq!(mgr.pending_count(), 1);

    let result = GrassTaskResult {
        task_id,
        agent_id,
        status: GrassTaskStatus::Completed,
        output: "{\"done\":true}".into(),
        error: None,
        duration_ms: 100,
    };
    mgr.complete_task(result);
    assert_eq!(mgr.completed_count(), 1);
    assert_eq!(mgr.get_result(task_id).unwrap().duration_ms, 100);
}

#[test]
fn ready_nodes_list_each_replaced_node_once() {
    let mut graph = GrassTaskGraph::new();
    graph.add_node(make_node("a"));
    graph.add_node(make_node("b"));
    let mut again = make_node("a");
    again.task.action = "second".into();
    graph.add_node(again);
    graph.add_node(make_node("c"));
    graph.add_edge("b", "c");
    let ready = graph.ready_nodes();
    let ids: Vec<String> = ready.iter().map(|n| n.id.clone()).collect();
    assert_eq!(ids, vec!["a".to_string(), "b".to_string()]);
    assert_eq!(ready[0].task.action, "second");
}

#[test]
fn ready_nodes_are_exactly_the_pending_nodes_without_incoming_edges() {
    let mut graph = GrassTaskGraph::new();
    for id in ["a", "b", "c", "d"] {
        graph.add_node(make_node(id));
    }
    let mut done = make_node("b");
    done.status = GrassTaskStatus::Completed;
    graph.add_node(done);
    graph.add_edge("a", "c");
    graph.add_edge("zz", "d");
    let ids: Vec<String> = graph.ready_nodes().iter().map(|n| n.id.clone()).collect();
    assert_eq!(ids, vec!["a".to_string()]);
}
