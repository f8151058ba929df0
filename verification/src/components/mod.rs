pub mod edge;
pub mod node;
pub mod viewport;
