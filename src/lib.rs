use vstd::prelude::*;

pub mod catalog;
pub mod engine;
pub mod network;
pub mod text;

pub use catalog::{Category, NodeSelectionDescriptor, NodeSelectionTable, FULL_PREVALENCE};
pub use engine::{run_node, run_node_drawn};
pub use network::{Connection, Layer, Network, Node};
pub use text::{run_text_node, TextOutput};

verus! {

/// Failures reported by the catalog and the graph model.
#[derive(Debug, Clone, Copy, PartialEq, Eq, Structural)]
pub enum Error {
    Initialize,
    PrevalenceConfigure,
    InvalidLayer,
    InvalidNode,
    NodeAddition,
    LayerRetrieval,
    NodeRetrieval,
}

} // verus!
