use yew_flow::components::edge::models::Edge;
use yew_flow::components::node::models::Node;
use yew_flow::components::viewport::layout::Layout;
use yew_flow::components::viewport::models::{ContainerDimensions, Viewport};
use yew_flow::store::{
    Connector, InteractionMode, NewEdgeDragActivateCmd, WorkspaceAction, WorkspaceStore,
};
use yew_flow::workspace::YewFlowValues;

fn some_values() -> YewFlowValues {
    YewFlowValues {
        nodes: vec![Node::generated(0, "a".to_string()), Node::generated(1, "b".to_string())],
        edges: vec![Edge::generated(0, "e".to_string())],
    }
}

fn measured_canvas() -> Viewport {
    Viewport::new(Some(ContainerDimensions {
        offset_left: 0,
        offset_top: 0,
        width: 400,
        height: 400,
    }))
}

#[test]
fn values_are_the_nodes_and_edges_of_the_store() {
    let store = WorkspaceStore::default();
    let values = store.values();
    assert_eq!(values.nodes, store.nodes);
    assert_eq!(values.edges, store.edges);
    assert_eq!(values.clone(), values);
}

#[test]
fn store_from_values_is_idle_and_unmeasured() {
    let store = WorkspaceStore::from_values(&some_values());
    assert_eq!(store.viewport, None);
    assert_eq!(store.interaction_mode, InteractionMode::Idle);
    assert_eq!(store.values(), some_values());
}

#[test]
fn load_replaces_the_graph_and_keeps_the_viewport() {
    let store = WorkspaceStore::init(measured_canvas());
    let next = store.load(&some_values());
    assert_eq!(next.viewport, Some(measured_canvas()));
    assert_eq!(next.interaction_mode, InteractionMode::Idle);
    assert_eq!(next.values(), some_values());
    assert_eq!(store.nodes.len(), 6);
}

#[test]
fn saved_values_load_back_unchanged() {
    let store = WorkspaceStore::init(measured_canvas());
    let saved = store.values();
    let other = WorkspaceStore::from_values(&some_values());
    let loaded = other.load(&saved);
    assert_eq!(loaded.nodes, store.nodes);
    assert_eq!(loaded.edges, store.edges);
    assert_eq!(store.load(&saved), store);
}

#[test]
fn load_during_a_gesture_resets_to_idle() {
    let store = WorkspaceStore::init(measured_canvas()).reduce(
        WorkspaceAction::NewEdgeDragActivate(NewEdgeDragActivateCmd {
            from_connector: Connector::Output("node-0--output-1".to_string()),
            x: 1,
            y: 2,
        }),
        &Layout::new(),
    );
    assert_ne!(store.interaction_mode, InteractionMode::Idle);
    let saved = store.values();
    let loaded = store.load(&saved);
    assert_eq!(loaded.interaction_mode, InteractionMode::Idle);
    assert_eq!(loaded.nodes, store.nodes);
    assert_eq!(loaded.edges, store.edges);
}
