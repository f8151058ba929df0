use vstd::prelude::*;
use crate::types::standard_unit::StandardUnit;

verus! {

/// Width of the node.
pub const NODE_WIDTH: StandardUnit = 150;

/// Height of the node.
pub const NODE_HEIGHT: StandardUnit = 60;

/// Free space between two neighbours in the grid of generated nodes.
pub const NODE_GAP: StandardUnit = 10;

/// Number of nodes in the generated graph.
pub const GENERATED_NODES: u32 = 6;

/// Number of edges in the generated graph.
pub const GENERATED_EDGES: u32 = 2;

/// Number of inputs, and of outputs, on a generated node.
pub const GENERATED_CONNECTORS: u32 = 3;

/// Color of a node's border, as a CSS string.
pub const NODE_COLOR: &'static str = "hsla(0,100%,50%,0.8)";

/// Color of an edge's stroke, as a CSS string.
pub const EDGE_COLOR: &'static str = "hsla(0,100%,100%,0.8)";

} // verus!
