use yew_flow::components::edge::models::{clone_edges, Edge};
use yew_flow::components::node::models::{
    clone_nodes, input_id_text, output_id_text, Node, NodeInput, NodeOutput,
};
use yew_flow::constants::{EDGE_COLOR, NODE_COLOR, NODE_HEIGHT, NODE_WIDTH};
use yew_flow::store::{Connector, InteractionMode, WorkspaceStore};
use yew_flow::types::decimal::decimal_text;
use yew_flow::types::standard_id::{IdentifierExt, StandardId};

#[test]
fn node_size_is_fixed() {
    assert_eq!(NODE_WIDTH, 150);
    assert_eq!(NODE_HEIGHT, 60);
}

#[test]
fn colors_are_what_the_color_library_writes() {
    let node = colorsys::Hsl::new(0., 100., 50., Some(0.8)).to_css_string();
    let edge = colorsys::Hsl::new(0., 100., 100., Some(0.8)).to_css_string();
    assert_eq!(NODE_COLOR, node);
    assert_eq!(EDGE_COLOR, edge);
}

#[test]
fn generated_identifier_is_a_hyphenated_uuid() {
    let id = StandardId::generate();
    assert_eq!(id.chars().count(), 36);
    let parsed = uuid::Uuid::parse_str(&id);
    assert!(parsed.is_ok());
    assert_eq!(parsed.unwrap().get_version_num(), 4);
    assert_eq!(id, id.to_lowercase());
}

#[test]
fn generated_identifiers_differ() {
    let one = StandardId::generate();
    let other = StandardId::generate();
    assert_ne!(one, other);
}

#[test]
fn decimal_text_writes_numbers_as_the_formatter_does() {
    assert_eq!(decimal_text(0), "0");
    assert_eq!(decimal_text(7), "7");
    assert_eq!(decimal_text(10), "10");
    assert_eq!(decimal_text(105), "105");
    assert_eq!(decimal_text(u64::MAX), "18446744073709551615");
    let mut n: u64 = 0;
    while n < 2000 {
        assert_eq!(decimal_text(n), format!("{}", n));
        n += 1;
    }
}

#[test]
fn connector_ids_name_node_and_slot() {
    assert_eq!(input_id_text(0, 0), "node-0--input-0");
    assert_eq!(input_id_text(12, 3), "node-12--input-3");
    assert_eq!(output_id_text(5, 2), "node-5--output-2");
}

#[test]
fn generated_node_has_title_place_and_connectors() {
    let node = Node::generated(4, "an-id".to_string());
    assert_eq!(node.id, "an-id");
    assert_eq!(node.title, "Node 4");
    assert_eq!(node.x, 0);
    assert_eq!(node.y, 280);
    assert_eq!(node.color, NODE_COLOR);
    assert_eq!(
        node.inputs,
        vec![
            NodeInput { id: "node-4--input-0".to_string() },
            NodeInput { id: "node-4--input-1".to_string() },
            NodeInput { id: "node-4--input-2".to_string() },
        ]
    );
    assert_eq!(
        node.outputs,
        vec![
            NodeOutput { id: "node-4--output-0".to_string() },
            NodeOutput { id: "node-4--output-1".to_string() },
            NodeOutput { id: "node-4--output-2".to_string() },
        ]
    );
}

#[test]
fn generated_edge_joins_neighbouring_nodes() {
    let edge = Edge::generated(1, "e".to_string());
    assert_eq!(
        edge,
        Edge {
            id: "e".to_string(),
            from_output: Some("node-1--output-0".to_string()),
            to_input: Some("node-2--input-0".to_string()),
            x1: 0,
            y1: 0,
            x2: 0,
            y2: 0,
            color: EDGE_COLOR.to_string(),
        }
    );
}

#[test]
fn blank_edge_binds_nothing() {
    let edge = Edge::blank("e".to_string());
    assert_eq!(edge.id, "e");
    assert_eq!(edge.from_output, None);
    assert_eq!(edge.to_input, None);
    assert_eq!((edge.x1, edge.y1, edge.x2, edge.y2), (0, 0, 0, 0));
    assert_eq!(edge.color, EDGE_COLOR);
}

#[test]
fn default_edge_is_blank_under_a_new_id() {
    let edge = Edge::default();
    assert_eq!(edge.id.chars().count(), 36);
    assert_eq!(edge, Edge::blank(edge.id.clone()));
    assert_ne!(edge.id, Edge::default().id);
}

#[test]
fn dangling_edge_from_an_output_binds_the_start() {
    let edge = Edge::dangling("e".to_string(), &Connector::Output("o".to_string()), 3, 4);
    assert_eq!(edge.from_output, Some("o".to_string()));
    assert_eq!(edge.to_input, None);
    assert_eq!((edge.x1, edge.y1, edge.x2, edge.y2), (3, 4, 3, 4));
    assert_eq!(edge.id, "e");
    assert_eq!(edge.color, EDGE_COLOR);
}

#[test]
fn dangling_edge_from_an_input_binds_the_end() {
    let edge = Edge::dangling("e".to_string(), &Connector::Input("i".to_string()), 3, 4);
    assert_eq!(edge.from_output, None);
    assert_eq!(edge.to_input, Some("i".to_string()));
    assert_eq!((edge.x1, edge.y1, edge.x2, edge.y2), (3, 4, 3, 4));
}

#[test]
fn node_knows_its_connectors() {
    let node = Node::generated(2, "n".to_string());
    assert!(node.has_input(&"node-2--input-1".to_string()));
    assert!(!node.has_input(&"node-2--output-1".to_string()));
    assert!(node.has_output(&"node-2--output-2".to_string()));
    assert!(!node.has_output(&"node-2--output-3".to_string()));
    assert!(!node.has_output(&"node-3--output-0".to_string()));
}

#[test]
fn clones_are_equal_to_what_was_cloned() {
    let node = Node::generated(3, "n".to_string());
    assert_eq!(node.clone(), node);
    let edge = Edge::generated(0, "e".to_string());
    assert_eq!(edge.clone(), edge);
    let nodes = vec![Node::generated(0, "a".to_string()), Node::generated(1, "b".to_string())];
    assert_eq!(clone_nodes(&nodes), nodes);
    let edges = vec![Edge::generated(0, "a".to_string()), Edge::blank("b".to_string())];
    assert_eq!(clone_edges(&edges), edges);
    let connector = Connector::Input("i".to_string());
    assert_eq!(connector.clone(), connector);
    let store = WorkspaceStore::default();
    assert_eq!(store.clone(), store);
}

#[test]
fn connectors_compare_by_direction_and_id() {
    let input = Connector::Input("a".to_string());
    let output = Connector::Output("a".to_string());
    assert!(input.same_as(&Connector::Input("a".to_string())));
    assert!(!input.same_as(&Connector::Input("b".to_string())));
    assert!(!input.same_as(&output));
    assert!(input.is_opposite_of(&output));
    assert!(output.is_opposite_of(&input));
    assert!(!input.is_opposite_of(&Connector::Input("b".to_string())));
    assert!(!output.is_opposite_of(&Connector::Output("b".to_string())));
}

#[test]
fn default_store_holds_the_generated_graph() {
    let store = WorkspaceStore::default();
    assert_eq!(store.viewport, None);
    assert_eq!(store.interaction_mode, InteractionMode::Idle);
    assert_eq!(store.nodes.len(), 6);
    assert_eq!(store.edges.len(), 2);
    for (index, node) in store.nodes.iter().enumerate() {
        assert_eq!(*node, Node::generated(index as u32, node.id.clone()));
        assert_eq!(node.title, format!("Node {}", index));
        assert_eq!(node.y, 70 * index as i64);
        assert_eq!(node.id.chars().count(), 36);
    }
    for (index, edge) in store.edges.iter().enumerate() {
        assert_eq!(*edge, Edge::generated(index as u32, edge.id.clone()));
        assert_eq!(edge.from_output, Some(format!("node-{}--output-{}", index, 0)));
        assert_eq!(edge.to_input, Some(format!("node-{}--input-{}", index + 1, 0)));
    }
}

#[test]
fn generated_graph_gets_new_identifiers_each_time() {
    let one = WorkspaceStore::default();
    let other = WorkspaceStore::default();
    let mut ids: Vec<String> = Vec::new();
    for node in one.nodes.iter().chain(other.nodes.iter()) {
        ids.push(node.id.clone());
    }
    for edge in one.edges.iter().chain(other.edges.iter()) {
        ids.push(edge.id.clone());
    }
    let count = ids.len();
    ids.sort();
    ids.dedup();
    assert_eq!(ids.len(), count);
}

#[test]
fn generated_identifier_has_the_shape_of_a_version_4_uuid() {
    let mut round = 0;
    while round < 200 {
        let id = StandardId::generate();
        let text: Vec<char> = id.chars().collect();
        assert_eq!(text.len(), 36);
        for (place, c) in text.iter().enumerate() {
            if place == 8 || place == 13 || place == 18 || place == 23 {
                assert_eq!(*c, '-');
            } else {
                assert!(matches!(*c, '0'..='9' | 'a'..='f'));
            }
        }
        assert_eq!(text[14], '4');
        assert!(matches!(text[19], '8' | '9' | 'a' | 'b'));
        round += 1;
    }
}
