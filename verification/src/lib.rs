//! The interaction engine of a node-graph canvas.
//!
//! Pointer gestures and measured geometry go in; a consistent graph of nodes,
//! edges and their canvas coordinates comes out. The store holds the graph and
//! the current interaction mode, and one transition function moves it from
//! snapshot to snapshot. Every function carries its contract, stated over the
//! mathematical view of the data it works on.

pub mod components;
pub mod consistency;
pub mod constants;
pub mod gesture;
pub mod store;
pub mod types;
pub mod workspace;
