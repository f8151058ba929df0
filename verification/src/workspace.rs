//! The graph as it is handed to and taken from the outside.

use vstd::prelude::*;
use crate::components::edge::models::{clone_edges, edge_views, Edge, EdgeView};
use crate::components::node::models::{clone_nodes, node_views, Node, NodeView};
use crate::components::viewport::models::Viewport;
use crate::store::{InteractionMode, InteractionModeView, WorkspaceStore, WorkspaceStoreView};

verus! {

/// # Workspace values
///
/// The nodes and edges of a workspace, without anything that belongs to a
/// gesture or to the screen. This is what is saved and loaded.
#[derive(Debug, PartialEq, Eq)]
pub struct YewFlowValues {
    pub nodes: Vec<Node>,
    pub edges: Vec<Edge>,
}

/// What a [`YewFlowValues`] is, as a mathematical value.
pub struct YewFlowValuesView {
    pub nodes: Seq<NodeView>,
    pub edges: Seq<EdgeView>,
}

impl View for YewFlowValues {
    type V = YewFlowValuesView;

    open spec fn view(&self) -> YewFlowValuesView {
        YewFlowValuesView { nodes: node_views(self.nodes@), edges: edge_views(self.edges@) }
    }
}

impl Clone for YewFlowValues {
    fn clone(&self) -> (copy: Self)
        ensures
            copy@ == self@,
    {
        YewFlowValues { nodes: clone_nodes(&self.nodes), edges: clone_edges(&self.edges) }
    }
}

impl YewFlowValuesView {
    /// Every edge has both ends bound.
    pub open spec fn settled(self) -> bool {
        forall|i: int| 0 <= i < self.edges.len() ==> (#[trigger] self.edges[i]).is_complete()
    }
}

impl WorkspaceStoreView {
    /// The nodes and edges of this state.
    pub open spec fn values(self) -> YewFlowValuesView {
        YewFlowValuesView { nodes: self.nodes, edges: self.edges }
    }

    /// This state after the given values were loaded: they replace the graph
    /// as a whole, and no gesture is in progress. The viewport stays.
    pub open spec fn loaded(self, values: YewFlowValuesView) -> WorkspaceStoreView {
        WorkspaceStoreView {
            viewport: self.viewport,
            nodes: values.nodes,
            edges: values.edges,
            interaction_mode: InteractionModeView::Idle,
        }
    }
}

impl WorkspaceStore {
    /// The nodes and edges of the store, as of now.
    pub fn values(&self) -> (values: YewFlowValues)
        ensures
            values@ == self@.values(),
    {
        YewFlowValues { nodes: clone_nodes(&self.nodes), edges: clone_edges(&self.edges) }
    }

    /// A store that holds the given values: no viewport yet, no gesture in
    /// progress.
    pub fn from_values(values: &YewFlowValues) -> (store: Self)
        ensures
            store@.viewport == None::<Viewport>,
            store@.interaction_mode == InteractionModeView::Idle,
            store@.values() == values@,
    {
        WorkspaceStore {
            viewport: None,
            nodes: clone_nodes(&values.nodes),
            edges: clone_edges(&values.edges),
            interaction_mode: InteractionMode::Idle,
        }
    }

    /// Loads the given values into the store: the result holds them in place
    /// of the graph, keeps the viewport, and is idle. The store itself is left
    /// as it is.
    pub fn load(&self, values: &YewFlowValues) -> (next: Self)
        ensures
            next@ == self@.loaded(values@),
            values@.settled() ==> next@.well_formed(),
    {
        WorkspaceStore {
            viewport: self.viewport,
            nodes: clone_nodes(&values.nodes),
            edges: clone_edges(&values.edges),
            interaction_mode: InteractionMode::Idle,
        }
    }
}

/// Saving and loading reproduces the graph: what a store holds after it has
/// loaded the values of another store are that store's nodes and edges, and
/// it is idle, whatever gesture was in progress when the values were taken.
pub proof fn lemma_load_reproduces_values(saved: WorkspaceStoreView, into: WorkspaceStoreView)
    ensures
        into.loaded(saved.values()).values() == saved.values(),
        into.loaded(saved.values()).nodes == saved.nodes,
        into.loaded(saved.values()).edges == saved.edges,
        into.loaded(saved.values()).interaction_mode is Idle,
        into.loaded(saved.values()).viewport == into.viewport,
{
}

/// A store that loads its own values while it is idle is what it was.
pub proof fn lemma_reload_changes_nothing(state: WorkspaceStoreView)
    requires
        state.interaction_mode is Idle,
    ensures
        state.loaded(state.values()) == state,
{
}

} // verus!
