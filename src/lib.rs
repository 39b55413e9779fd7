//! Node-graph model for composing signed-distance-field scenes: the kinds of
//! node and what each looks like, a graph store with stable node identities,
//! and the viewer actions that insert, rewire, edit and remove nodes.
pub mod capture;
pub mod graph;
pub mod nodes;
pub mod viewer;

pub use capture::toggle_capture;
pub use graph::{connect, disconnect, insert, new_graph, node, node_count, remove, source_of, wire_count};
pub use nodes::{Node, NodeViewer, PinShape, PinStyle, PrimitiveType, Rgb, ValueType};
