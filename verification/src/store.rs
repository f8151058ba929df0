use vstd::prelude::*;
use crate::components::edge::models::{
    clone_edges, dangling_edge, edge_views, generated_edge, Edge, EdgeView,
};
use crate::components::node::models::{clone_nodes, generated_node, node_views, Node, NodeView};
use crate::components::viewport::layout::Layout;
use crate::components::viewport::models::{Position, Viewport};
use crate::consistency::{lemma_generated_graph_is_well_formed, lemma_reduction_keeps_well_formed};
use crate::constants::{GENERATED_EDGES, GENERATED_NODES};
use crate::types::standard_id::{IdentifierExt, StandardId};
use crate::types::standard_unit::StandardUnit;

verus! {

/// # Node Connectors
///
/// Node connectors. Either input or output.
#[derive(Debug, PartialEq, Eq)]
pub enum Connector {
    /// Input connector. Takes id of the input.
    Input(StandardId),
    /// Output connector. Takes id of the output.
    Output(StandardId),
}

/// What a [`Connector`] is, as a mathematical value.
pub enum ConnectorView {
    Input(Seq<char>),
    Output(Seq<char>),
}

impl ConnectorView {
    /// Whether the two connectors face each other: one is an input and the
    /// other an output.
    pub open spec fn opposes(self, other: ConnectorView) -> bool {
        (self is Input) != (other is Input)
    }
}

impl View for Connector {
    type V = ConnectorView;

    open spec fn view(&self) -> ConnectorView {
        match self {
            Connector::Input(id) => ConnectorView::Input(id@),
            Connector::Output(id) => ConnectorView::Output(id@),
        }
    }
}

impl Clone for Connector {
    fn clone(&self) -> (copy: Self)
        ensures
            copy@ == self@,
    {
        match self {
            Connector::Input(id) => Connector::Input(id.clone()),
            Connector::Output(id) => Connector::Output(id.clone()),
        }
    }
}

impl Connector {
    /// Whether this is the same connector as `other`: the same direction and
    /// the same id.
    pub fn same_as(&self, other: &Connector) -> (same: bool)
        ensures
            same == (self@ == other@),
    {
        match (self, other) {
            (Connector::Input(a), Connector::Input(b)) => *a == *b,
            (Connector::Output(a), Connector::Output(b)) => *a == *b,
            _ => false,
        }
    }

    /// Whether this connector and `other` face each other.
    pub fn is_opposite_of(&self, other: &Connector) -> (opposite: bool)
        ensures
            opposite == self@.opposes(other@),
    {
        match (self, other) {
            (Connector::Input(_), Connector::Output(_)) => true,
            (Connector::Output(_), Connector::Input(_)) => true,
            _ => false,
        }
    }
}

/// Where the dragged node is to go, in canvas coordinates.
#[derive(Debug, Clone, Copy, PartialEq, Eq, Structural)]
pub struct DragNodeCmd {
    pub x: StandardUnit,
    pub y: StandardUnit,
}

/// The start of an edge drag: the connector that the pointer went down on
/// and where that connector lies on the canvas.
#[derive(Debug, PartialEq, Eq)]
pub struct NewEdgeDragActivateCmd {
    /// The connector that the new edge starts from.
    pub from_connector: Connector,
    /// Canvas x coordinate of that connector.
    pub x: StandardUnit,
    /// Canvas y coordinate of that connector.
    pub y: StandardUnit,
}

/// The end of an edge drag: the connector under the pointer, if there is one.
#[derive(Debug, PartialEq, Eq)]
pub struct NewEdgeDragDeactivateCmd {
    /// The connector that the new edge was dropped on.
    pub to_connector: Option<Connector>,
}

/// Where the free end of the edge being drawn is to go, in canvas
/// coordinates.
#[derive(Debug, Clone, Copy, PartialEq, Eq, Structural)]
pub struct DragEdgeCmd {
    // x cord to which dragged edge is ending.
    pub x: StandardUnit,
    // y cord to which dragged edge is ending.
    pub y: StandardUnit,
}

/// # Workspace Action
///
/// Actions to be dispatched to `WorkspaceStore`.
#[derive(Debug, PartialEq, Eq)]
pub enum WorkspaceAction {
    /// Init/Re-init store
    Init(Viewport),
    /// When the container was laid out anew.
    ViewportChanged(Viewport),
    /// When node drag needs to be activated.
    NodeDragActivate(StandardId),
    /// When node needs to be dragged.
    DragNode(DragNodeCmd),
    /// When node drag needs to be deactivated.
    NodeDragDeactivate,
    /// When new edge drag needs to be activated.
    NewEdgeDragActivate(NewEdgeDragActivateCmd),
    /// When new edge needs to be dragged out.
    DragEdge(DragEdgeCmd),
    /// When new edge drag needs to be deactivated.
    NewEdgeDragDeactivate(NewEdgeDragDeactivateCmd),
}

/// What a [`WorkspaceAction`] is, as a mathematical value.
pub enum ActionView {
    Init(Viewport),
    ViewportChanged(Viewport),
    NodeDragActivate(Seq<char>),
    DragNode { x: int, y: int },
    NodeDragDeactivate,
    NewEdgeDragActivate { origin: ConnectorView, x: int, y: int },
    DragEdge { x: int, y: int },
    NewEdgeDragDeactivate { target: Option<ConnectorView> },
}

/// The view of an optional connector.
pub open spec fn optional_connector(connector: Option<Connector>) -> Option<ConnectorView> {
    match connector {
        Some(connector) => Some(connector@),
        None => None,
    }
}

impl View for WorkspaceAction {
    type V = ActionView;

    open spec fn view(&self) -> ActionView {
        match self {
            WorkspaceAction::Init(viewport) => ActionView::Init(*viewport),
            WorkspaceAction::ViewportChanged(viewport) => ActionView::ViewportChanged(*viewport),
            WorkspaceAction::NodeDragActivate(id) => ActionView::NodeDragActivate(id@),
            WorkspaceAction::DragNode(cmd) => ActionView::DragNode {
                x: cmd.x as int,
                y: cmd.y as int,
            },
            WorkspaceAction::NodeDragDeactivate => ActionView::NodeDragDeactivate,
            WorkspaceAction::NewEdgeDragActivate(cmd) => ActionView::NewEdgeDragActivate {
                origin: cmd.from_connector@,
                x: cmd.x as int,
                y: cmd.y as int,
            },
            WorkspaceAction::DragEdge(cmd) => ActionView::DragEdge {
                x: cmd.x as int,
                y: cmd.y as int,
            },
            WorkspaceAction::NewEdgeDragDeactivate(cmd) => ActionView::NewEdgeDragDeactivate {
                target: optional_connector(cmd.to_connector),
            },
        }
    }
}

/// The connector that an edge drag started from.
#[derive(Debug, PartialEq, Eq)]
pub struct NewEdgeDragMode {
    pub from_connector: Connector,
}

/// # User Interaction Mode
///
/// Enum of all modes of user interaction with the
/// flow workspace.
#[derive(Debug, PartialEq, Eq)]
pub enum InteractionMode {
    /// No gesture is in progress.
    Idle,
    /// Node drag mode. Pass `node_id` of node being dragged.
    NodeDrag(StandardId),
    /// New Edge drag mode.
    NewEdgeDrag(NewEdgeDragMode),
}

/// What an [`InteractionMode`] is, as a mathematical value.
pub enum InteractionModeView {
    Idle,
    NodeDrag(Seq<char>),
    NewEdgeDrag(ConnectorView),
}

impl View for InteractionMode {
    type V = InteractionModeView;

    open spec fn view(&self) -> InteractionModeView {
        match self {
            InteractionMode::Idle => InteractionModeView::Idle,
            InteractionMode::NodeDrag(id) => InteractionModeView::NodeDrag(id@),
            InteractionMode::NewEdgeDrag(mode) => InteractionModeView::NewEdgeDrag(
                mode.from_connector@,
            ),
        }
    }
}

impl Clone for InteractionMode {
    fn clone(&self) -> (copy: Self)
        ensures
            copy@ == self@,
    {
        match self {
            InteractionMode::Idle => InteractionMode::Idle,
            InteractionMode::NodeDrag(id) => InteractionMode::NodeDrag(id.clone()),
            InteractionMode::NewEdgeDrag(mode) => InteractionMode::NewEdgeDrag(
                NewEdgeDragMode { from_connector: mode.from_connector.clone() },
            ),
        }
    }
}

/// # Workspace Store
///
/// Main state/store of the workspace: the graph, the frame of the canvas as
/// it was last measured, and what the current gesture means.
#[derive(Debug, PartialEq, Eq)]
pub struct WorkspaceStore {
    pub viewport: Option<Viewport>,
    pub nodes: Vec<Node>,
    pub edges: Vec<Edge>,
    pub interaction_mode: InteractionMode,
}

/// What a [`WorkspaceStore`] is, as a mathematical value.
pub struct WorkspaceStoreView {
    pub viewport: Option<Viewport>,
    pub nodes: Seq<NodeView>,
    pub edges: Seq<EdgeView>,
    pub interaction_mode: InteractionModeView,
}

impl View for WorkspaceStore {
    type V = WorkspaceStoreView;

    open spec fn view(&self) -> WorkspaceStoreView {
        WorkspaceStoreView {
            viewport: self.viewport,
            nodes: node_views(self.nodes@),
            edges: edge_views(self.edges@),
            interaction_mode: self.interaction_mode@,
        }
    }
}

/// Where a connector lies on the canvas, if that can be told: the frame must
/// be known and laid out, and the connector must have been measured.
pub open spec fn canvas_position_of(
    viewport: Option<Viewport>,
    layout: Map<ConnectorView, Position>,
    connector: ConnectorView,
) -> Option<Position> {
    match viewport {
        Some(viewport) => if viewport.ready() && layout.contains_key(connector) {
            Some(viewport.canvas_point(layout[connector]))
        } else {
            None
        },
        None => None,
    }
}

/// `index` is the place of the first node that goes by `id`.
pub open spec fn first_with_id(nodes: Seq<NodeView>, id: Seq<char>, index: int) -> bool {
    &&& 0 <= index < nodes.len()
    &&& nodes[index].id == id
    &&& forall|before: int| 0 <= before < index ==> (#[trigger] nodes[before]).id != id
}

/// An edge after the node `node` was dragged: each end that is bound to one
/// of the node's connectors follows that connector to where it lies now. An
/// end whose connector cannot be placed stays where it was.
pub open spec fn edge_after_drag(
    edge: EdgeView,
    node: NodeView,
    viewport: Option<Viewport>,
    layout: Map<ConnectorView, Position>,
) -> EdgeView {
    let start = match edge.from_output {
        Some(connector) => if node.outputs.contains(connector) {
            canvas_position_of(viewport, layout, ConnectorView::Output(connector))
        } else {
            None
        },
        None => None,
    };
    let end = match edge.to_input {
        Some(connector) => if node.inputs.contains(connector) {
            canvas_position_of(viewport, layout, ConnectorView::Input(connector))
        } else {
            None
        },
        None => None,
    };
    let edge = match start {
        Some(start) => edge.with_start(start.x as int, start.y as int),
        None => edge,
    };
    match end {
        Some(end) => edge.with_end(end.x as int, end.y as int),
        None => edge,
    }
}

/// An edge being drawn from `origin` after the pointer moved to `(x, y)`:
/// the end opposite the origin follows the pointer, the origin's own end
/// stays.
pub open spec fn free_end_moved(edge: EdgeView, origin: ConnectorView, x: int, y: int) -> EdgeView {
    match origin {
        ConnectorView::Output(_) => edge.with_end(x, y),
        ConnectorView::Input(_) => edge.with_start(x, y),
    }
}

/// An edge after one of its ends was bound to `target`, which lies at
/// `position`.
pub open spec fn bound_to(edge: EdgeView, target: ConnectorView, position: Position) -> EdgeView {
    match target {
        ConnectorView::Output(connector) => EdgeView {
            from_output: Some(connector),
            x1: position.x as int,
            y1: position.y as int,
            ..edge
        },
        ConnectorView::Input(connector) => EdgeView {
            to_input: Some(connector),
            x2: position.x as int,
            y2: position.y as int,
            ..edge
        },
    }
}

/// Where an edge drawn from `origin` lands when it is dropped on `target`:
/// on a connector that faces the origin and can be placed on the canvas, and
/// nowhere else.
pub open spec fn landing(
    viewport: Option<Viewport>,
    layout: Map<ConnectorView, Position>,
    origin: ConnectorView,
    target: Option<ConnectorView>,
) -> Option<(ConnectorView, Position)> {
    match target {
        Some(target) => if target.opposes(origin) {
            match canvas_position_of(viewport, layout, target) {
                Some(position) => Some((target, position)),
                None => None,
            }
        } else {
            None
        },
        None => None,
    }
}

/// The nodes and edges are those of the generated graph, each under some
/// identifier of its own.
pub open spec fn is_generated_graph(nodes: Seq<NodeView>, edges: Seq<EdgeView>) -> bool {
    &&& nodes.len() == GENERATED_NODES
    &&& forall|i: int| 0 <= i < nodes.len() ==> #[trigger] nodes[i] == generated_node(i as nat, nodes[i].id)
    &&& edges.len() == GENERATED_EDGES
    &&& forall|i: int| 0 <= i < edges.len() ==> #[trigger] edges[i] == generated_edge(i as nat, edges[i].id)
}

/// The edge hangs from `origin`: the end on the origin's side is bound to
/// it, the other end is free.
pub open spec fn hangs_from(edge: EdgeView, origin: ConnectorView) -> bool {
    match origin {
        ConnectorView::Output(connector) => edge.from_output == Some(connector)
            && edge.to_input is None,
        ConnectorView::Input(connector) => edge.to_input == Some(connector)
            && edge.from_output is None,
    }
}

impl WorkspaceStoreView {
    /// The edges agree with the interaction mode. While an edge is being
    /// drawn, the last edge hangs from the connector that the drag started
    /// from and every other edge is complete. At any other time every edge is
    /// complete.
    pub open spec fn well_formed(self) -> bool {
        match self.interaction_mode {
            InteractionModeView::NewEdgeDrag(origin) => {
                &&& self.edges.len() > 0
                &&& forall|i: int| 0 <= i < self.edges.len() - 1 ==> (#[trigger] self.edges[i]).is_complete()
                &&& hangs_from(self.edges.last(), origin)
            },
            _ => forall|i: int| 0 <= i < self.edges.len() ==> (#[trigger] self.edges[i]).is_complete(),
        }
    }

    /// The state after the container was laid out anew.
    pub open spec fn viewport_changed(self, viewport: Viewport) -> WorkspaceStoreView {
        WorkspaceStoreView { viewport: Some(viewport), ..self }
    }

    /// The state after a pointer went down on the body of node `id`.
    pub open spec fn begin_node_drag(self, id: Seq<char>) -> WorkspaceStoreView {
        match self.interaction_mode {
            InteractionModeView::Idle => WorkspaceStoreView {
                interaction_mode: InteractionModeView::NodeDrag(id),
                ..self
            },
            _ => self,
        }
    }

    /// The state after the dragged node was moved to `(x, y)`: the first node
    /// that goes by the dragged id stands there, and the edges at its
    /// connectors have followed.
    pub open spec fn drag_node(
        self,
        x: int,
        y: int,
        layout: Map<ConnectorView, Position>,
    ) -> WorkspaceStoreView {
        match self.interaction_mode {
            InteractionModeView::NodeDrag(id) => if exists|i: int| first_with_id(self.nodes, id, i) {
                let index = choose|i: int| first_with_id(self.nodes, id, i);
                let node = self.nodes[index];
                WorkspaceStoreView {
                    nodes: self.nodes.update(index, node.moved_to(x, y)),
                    edges: self.edges.map_values(
                        |edge: EdgeView| edge_after_drag(edge, node, self.viewport, layout),
                    ),
                    ..self
                }
            } else {
                self
            },
            _ => self,
        }
    }

    /// The state after the pointer let go of the dragged node.
    pub open spec fn end_node_drag(self) -> WorkspaceStoreView {
        match self.interaction_mode {
            InteractionModeView::NodeDrag(_) => WorkspaceStoreView {
                interaction_mode: InteractionModeView::Idle,
                ..self
            },
            _ => self,
        }
    }

    /// The state after a pointer went down on the connector `origin`, which
    /// lies at `(x, y)`: a new edge under the identifier `id` hangs from it.
    pub open spec fn begin_edge_drag(
        self,
        origin: ConnectorView,
        x: int,
        y: int,
        id: Seq<char>,
    ) -> WorkspaceStoreView {
        match self.interaction_mode {
            InteractionModeView::Idle => WorkspaceStoreView {
                edges: self.edges.push(dangling_edge(id, origin, x, y)),
                interaction_mode: InteractionModeView::NewEdgeDrag(origin),
                ..self
            },
            _ => self,
        }
    }

    /// The state after the pointer moved to `(x, y)` while an edge is drawn.
    pub open spec fn drag_edge(self, x: int, y: int) -> WorkspaceStoreView {
        match self.interaction_mode {
            InteractionModeView::NewEdgeDrag(origin) => if self.edges.len() > 0 {
                WorkspaceStoreView {
                    edges: self.edges.drop_last().push(
                        free_end_moved(self.edges.last(), origin, x, y),
                    ),
                    ..self
                }
            } else {
                self
            },
            _ => self,
        }
    }

    /// The state after the edge being drawn was dropped: bound to the target
    /// where it lands, removed where it does not.
    pub open spec fn end_edge_drag(
        self,
        target: Option<ConnectorView>,
        layout: Map<ConnectorView, Position>,
    ) -> WorkspaceStoreView {
        match self.interaction_mode {
            InteractionModeView::NewEdgeDrag(origin) => WorkspaceStoreView {
                edges: if self.edges.len() == 0 {
                    self.edges
                } else {
                    match landing(self.viewport, layout, origin, target) {
                        Some((target, position)) => self.edges.drop_last().push(
                            bound_to(self.edges.last(), target, position),
                        ),
                        None => self.edges.drop_last(),
                    }
                },
                interaction_mode: InteractionModeView::Idle,
                ..self
            },
            _ => self,
        }
    }

    /// The identifier of the newest edge; the empty one where there is no
    /// edge.
    pub open spec fn newest_edge_id(self) -> Seq<char> {
        if self.edges.len() > 0 {
            self.edges.last().id
        } else {
            Seq::empty()
        }
    }

    /// `next` is a state that the action may lead to from this one. Where the
    /// action makes nodes or edges, their identifiers are left open; all else
    /// is determined.
    pub open spec fn reduces_to(
        self,
        action: ActionView,
        layout: Map<ConnectorView, Position>,
        next: WorkspaceStoreView,
    ) -> bool {
        match action {
            ActionView::Init(viewport) => {
                &&& next.viewport == Some(viewport)
                &&& next.interaction_mode == InteractionModeView::Idle
                &&& is_generated_graph(next.nodes, next.edges)
            },
            ActionView::ViewportChanged(viewport) => next == self.viewport_changed(viewport),
            ActionView::NodeDragActivate(id) => next == self.begin_node_drag(id),
            ActionView::DragNode { x, y } => next == self.drag_node(x, y, layout),
            ActionView::NodeDragDeactivate => next == self.end_node_drag(),
            ActionView::NewEdgeDragActivate { origin, x, y } => next == self.begin_edge_drag(
                origin,
                x,
                y,
                next.newest_edge_id(),
            ),
            ActionView::DragEdge { x, y } => next == self.drag_edge(x, y),
            ActionView::NewEdgeDragDeactivate { target } => next == self.end_edge_drag(
                target,
                layout,
            ),
        }
    }
}

/// Two places that both hold the first node of one id are the same place.
pub proof fn lemma_first_with_id_unique(nodes: Seq<NodeView>, id: Seq<char>, i: int, j: int)
    requires
        first_with_id(nodes, id, i),
        first_with_id(nodes, id, j),
    ensures
        i == j,
{
    if i < j {
        assert(nodes[i].id != id);
    } else if j < i {
        assert(nodes[j].id != id);
    }
}

/// Where a connector lies on the canvas, if that can be told.
pub fn canvas_position(viewport: &Option<Viewport>, layout: &Layout, connector: &Connector) -> (position:
    Option<Position>)
    ensures
        position == canvas_position_of(*viewport, layout@, connector@),
{
    match viewport {
        Some(viewport) => {
            if viewport.is_ready() {
                match layout.resolve(connector) {
                    Some(absolute) => Some(viewport.relative_pos_from_abs(absolute)),
                    None => None,
                }
            } else {
                None
            }
        },
        None => None,
    }
}

/// Lets the ends of an edge that are bound to connectors of `node` follow
/// those connectors.
pub fn follow_node(edge: &Edge, node: &Node, viewport: &Option<Viewport>, layout: &Layout) -> (moved:
    Edge)
    ensures
        moved@ == edge_after_drag(edge@, node@, *viewport, layout@),
{
    let mut moved = edge.clone();
    match &edge.from_output {
        Some(connector) => {
            if node.has_output(connector) {
                let output = Connector::Output(connector.clone());
                match canvas_position(viewport, layout, &output) {
                    Some(start) => {
                        moved.x1 = start.x;
                        moved.y1 = start.y;
                    },
                    None => {},
                }
            }
        },
        None => {},
    }
    match &edge.to_input {
        Some(connector) => {
            if node.has_input(connector) {
                let input = Connector::Input(connector.clone());
                match canvas_position(viewport, layout, &input) {
                    Some(end) => {
                        moved.x2 = end.x;
                        moved.y2 = end.y;
                    },
                    None => {},
                }
            }
        },
        None => {},
    }
    moved
}

/// A copy of all edges but the last.
fn clone_all_but_last(edges: &Vec<Edge>) -> (copy: Vec<Edge>)
    requires
        edges.len() > 0,
    ensures
        edge_views(copy@) == edge_views(edges@).drop_last(),
{
    let mut copy: Vec<Edge> = Vec::new();
    let mut i: usize = 0;
    while i + 1 < edges.len()
        invariant
            i + 1 <= edges.len(),
            copy.len() == i,
            forall|j: int| 0 <= j < i ==> copy[j]@ == edges[j]@,
        decreases edges.len() - i,
    {
        copy.push(edges[i].clone());
        i += 1;
    }
    assert(edge_views(copy@) =~= edge_views(edges@).drop_last());
    copy
}

impl Clone for WorkspaceStore {
    fn clone(&self) -> (copy: Self)
        ensures
            copy@ == self@,
    {
        WorkspaceStore {
            viewport: self.viewport,
            nodes: clone_nodes(&self.nodes),
            edges: clone_edges(&self.edges),
            interaction_mode: self.interaction_mode.clone(),
        }
    }
}

impl Default for WorkspaceStore {
    /// The store as it is before anything was measured: the generated graph,
    /// each node and edge under a new identifier, no viewport, no gesture.
    fn default() -> (store: Self)
        ensures
            store@.viewport == None::<Viewport>,
            store@.interaction_mode == InteractionModeView::Idle,
            is_generated_graph(store@.nodes, store@.edges),
            store@.well_formed(),
    {
        let mut nodes: Vec<Node> = Vec::new();
        let mut n: u32 = 0;
        while n < GENERATED_NODES
            invariant
                n <= GENERATED_NODES,
                nodes.len() == n,
                forall|i: int| 0 <= i < n ==> nodes[i]@ == generated_node(i as nat, nodes[i]@.id),
            decreases GENERATED_NODES - n,
        {
            nodes.push(Node::generated(n, StandardId::generate()));
            n += 1;
        }
        let mut edges: Vec<Edge> = Vec::new();
        let mut e: u32 = 0;
        while e < GENERATED_EDGES
            invariant
                e <= GENERATED_EDGES,
                edges.len() == e,
                forall|i: int| 0 <= i < e ==> edges[i]@ == generated_edge(i as nat, edges[i]@.id),
            decreases GENERATED_EDGES - e,
        {
            edges.push(Edge::generated(e, StandardId::generate()));
            e += 1;
        }
        let store = WorkspaceStore {
            viewport: None,
            nodes,
            edges,
            interaction_mode: InteractionMode::Idle,
        };
        proof {
            lemma_generated_graph_is_well_formed(store@);
        }
        store
    }
}

/// Whether the edge hangs from `origin`.
pub fn edge_hangs_from(edge: &Edge, origin: &Connector) -> (hangs: bool)
    ensures
        hangs == hangs_from(edge@, origin@),
{
    match origin {
        Connector::Output(connector) => match (&edge.from_output, &edge.to_input) {
            (Some(bound), None) => *bound == *connector,
            _ => false,
        },
        Connector::Input(connector) => match (&edge.to_input, &edge.from_output) {
            (Some(bound), None) => *bound == *connector,
            _ => false,
        },
    }
}

impl WorkspaceStore {
    /// Whether the edges agree with the interaction mode.
    pub fn is_well_formed(&self) -> (well_formed: bool)
        ensures
            well_formed == self@.well_formed(),
    {
        let count: usize = self.edges.len();
        let complete: usize = match &self.interaction_mode {
            InteractionMode::NewEdgeDrag(mode) => {
                if count == 0 || !edge_hangs_from(&self.edges[count - 1], &mode.from_connector) {
                    return false;
                }
                count - 1
            },
            _ => count,
        };
        let mut i: usize = 0;
        while i < complete
            invariant
                i <= complete <= self.edges.len(),
                match self@.interaction_mode {
                    InteractionModeView::NewEdgeDrag(origin) => {
                        &&& complete == self.edges.len() - 1
                        &&& hangs_from(self@.edges.last(), origin)
                    },
                    _ => complete == self.edges.len(),
                },
                forall|j: int| 0 <= j < i ==> (#[trigger] self@.edges[j]).is_complete(),
            decreases complete - i,
        {
            if !self.edges[i].is_complete() {
                assert(!self@.edges[i as int].is_complete());
                return false;
            }
            i += 1;
        }
        true
    }

    /// The place of the first node that goes by `id`, if there is one.
    pub fn find_node(&self, id: &StandardId) -> (place: Option<usize>)
        ensures
            match place {
                Some(index) => first_with_id(self@.nodes, id@, index as int),
                None => forall|i: int| !first_with_id(self@.nodes, id@, i),
            },
    {
        let mut i: usize = 0;
        while i < self.nodes.len()
            invariant
                i <= self.nodes.len(),
                forall|j: int| 0 <= j < i ==> (#[trigger] self@.nodes[j]).id != id@,
            decreases self.nodes.len() - i,
        {
            if self.nodes[i].id == *id {
                assert(self@.nodes[i as int].id == id@);
                return Some(i);
            }
            i += 1;
        }
        None
    }

    /// Starts over: the generated graph in the given frame, no gesture in
    /// progress. What the store held before plays no part.
    pub fn init(viewport: Viewport) -> (next: Self)
        ensures
            next@.viewport == Some(viewport),
            next@.interaction_mode == InteractionModeView::Idle,
            is_generated_graph(next@.nodes, next@.edges),
            next@.well_formed(),
    {
        let mut next = WorkspaceStore::default();
        next.viewport = Some(viewport);
        next
    }

    /// Takes note of the frame that the container was laid out in.
    pub fn viewport_changed(&self, viewport: Viewport) -> (next: Self)
        ensures
            next@ == self@.viewport_changed(viewport),
    {
        let mut next = self.clone();
        next.viewport = Some(viewport);
        next
    }

    /// Begins to drag the node `id`, if no gesture is in progress.
    pub fn begin_node_drag(&self, id: StandardId) -> (next: Self)
        ensures
            next@ == self@.begin_node_drag(id@),
    {
        let mut next = self.clone();
        match &self.interaction_mode {
            InteractionMode::Idle => {
                next.interaction_mode = InteractionMode::NodeDrag(id);
            },
            _ => {},
        }
        next
    }

    /// Moves the dragged node and lets the edges at its connectors follow.
    /// Nothing happens unless a node is being dragged.
    pub fn drag_node(&self, cmd: DragNodeCmd, layout: &Layout) -> (next: Self)
        ensures
            next@ == self@.drag_node(cmd.x as int, cmd.y as int, layout@),
    {
        let id: &StandardId = match &self.interaction_mode {
            InteractionMode::NodeDrag(id) => id,
            _ => {
                return self.clone();
            },
        };
        let index: usize = match self.find_node(id) {
            Some(index) => index,
            None => {
                return self.clone();
            },
        };
        proof {
            let chosen = choose|i: int| first_with_id(self@.nodes, id@, i);
            lemma_first_with_id_unique(self@.nodes, id@, chosen, index as int);
        }
        let node: &Node = &self.nodes[index];
        let mut nodes: Vec<Node> = Vec::new();
        let mut n: usize = 0;
        while n < self.nodes.len()
            invariant
                n <= self.nodes.len(),
                index < self.nodes.len(),
                nodes.len() == n,
                forall|j: int|
                    0 <= j < n ==> nodes[j]@ == (if j == index {
                        self.nodes[j]@.moved_to(cmd.x as int, cmd.y as int)
                    } else {
                        self.nodes[j]@
                    }),
            decreases self.nodes.len() - n,
        {
            let mut copy = self.nodes[n].clone();
            if n == index {
                copy.x = cmd.x;
                copy.y = cmd.y;
            }
            nodes.push(copy);
            n += 1;
        }
        let mut edges: Vec<Edge> = Vec::new();
        let mut e: usize = 0;
        while e < self.edges.len()
            invariant
                e <= self.edges.len(),
                edges.len() == e,
                forall|j: int|
                    0 <= j < e ==> edges[j]@ == edge_after_drag(
                        self.edges[j]@,
                        node@,
                        self.viewport,
                        layout@,
                    ),
            decreases self.edges.len() - e,
        {
            edges.push(follow_node(&self.edges[e], node, &self.viewport, layout));
            e += 1;
        }
        let next = WorkspaceStore {
            viewport: self.viewport,
            nodes,
            edges,
            interaction_mode: self.interaction_mode.clone(),
        };
        proof {
            let expected = self@.drag_node(cmd.x as int, cmd.y as int, layout@);
            assert(next@.nodes =~= expected.nodes);
            assert(next@.edges =~= expected.edges);
        }
        next
    }

    /// Ends the node drag, if one is in progress.
    pub fn end_node_drag(&self) -> (next: Self)
        ensures
            next@ == self@.end_node_drag(),
    {
        let mut next = self.clone();
        match &self.interaction_mode {
            InteractionMode::NodeDrag(_) => {
                next.interaction_mode = InteractionMode::Idle;
            },
            _ => {},
        }
        next
    }

    /// Begins to draw an edge from a connector, under the identifier given
    /// for the new edge. Nothing happens while another gesture is in
    /// progress.
    pub fn begin_edge_drag_as(&self, cmd: NewEdgeDragActivateCmd, id: StandardId) -> (next: Self)
        ensures
            next@ == self@.begin_edge_drag(cmd.from_connector@, cmd.x as int, cmd.y as int, id@),
    {
        let mut next = self.clone();
        match &self.interaction_mode {
            InteractionMode::Idle => {
                next.edges.push(Edge::dangling(id, &cmd.from_connector, cmd.x, cmd.y));
                next.interaction_mode = InteractionMode::NewEdgeDrag(
                    NewEdgeDragMode { from_connector: cmd.from_connector },
                );
                assert(next@.edges =~= self@.edges.push(
                    dangling_edge(id@, cmd.from_connector@, cmd.x as int, cmd.y as int),
                ));
            },
            _ => {},
        }
        next
    }

    /// Begins to draw an edge from a connector. The new edge gets a newly
    /// generated identifier. Nothing happens while another gesture is in
    /// progress.
    pub fn begin_edge_drag(&self, cmd: NewEdgeDragActivateCmd) -> (next: Self)
        ensures
            next@ == self@.begin_edge_drag(
                cmd.from_connector@,
                cmd.x as int,
                cmd.y as int,
                next@.newest_edge_id(),
            ),
    {
        let next = self.begin_edge_drag_as(cmd, StandardId::generate());
        next
    }

    /// Moves the free end of the edge being drawn. Nothing happens unless an
    /// edge is being drawn.
    pub fn drag_edge(&self, cmd: DragEdgeCmd) -> (next: Self)
        ensures
            next@ == self@.drag_edge(cmd.x as int, cmd.y as int),
    {
        let origin: &Connector = match &self.interaction_mode {
            InteractionMode::NewEdgeDrag(mode) => &mode.from_connector,
            _ => {
                return self.clone();
            },
        };
        if self.edges.len() == 0 {
            return self.clone();
        }
        let mut edges = clone_all_but_last(&self.edges);
        let mut last = self.edges[self.edges.len() - 1].clone();
        match origin {
            Connector::Output(_) => {
                last.x2 = cmd.x;
                last.y2 = cmd.y;
            },
            Connector::Input(_) => {
                last.x1 = cmd.x;
                last.y1 = cmd.y;
            },
        }
        edges.push(last);
        let next = WorkspaceStore {
            viewport: self.viewport,
            nodes: clone_nodes(&self.nodes),
            edges,
            interaction_mode: self.interaction_mode.clone(),
        };
        assert(next@.edges =~= self@.drag_edge(cmd.x as int, cmd.y as int).edges);
        next
    }

    /// Ends the edge drag: the edge is bound to the connector it was dropped
    /// on, if that connector faces the origin and can be placed on the
    /// canvas, and removed otherwise. Nothing happens unless an edge is being
    /// drawn.
    pub fn end_edge_drag(&self, cmd: NewEdgeDragDeactivateCmd, layout: &Layout) -> (next: Self)
        ensures
            next@ == self@.end_edge_drag(optional_connector(cmd.to_connector), layout@),
    {
        let origin: &Connector = match &self.interaction_mode {
            InteractionMode::NewEdgeDrag(mode) => &mode.from_connector,
            _ => {
                return self.clone();
            },
        };
        let ghost expected = self@.end_edge_drag(optional_connector(cmd.to_connector), layout@);
        let mut edges: Vec<Edge> = Vec::new();
        if self.edges.len() > 0 {
            edges = clone_all_but_last(&self.edges);
            match cmd.to_connector {
                Some(target) => {
                    if target.is_opposite_of(origin) {
                        match canvas_position(&self.viewport, layout, &target) {
                            Some(position) => {
                                let mut last = self.edges[self.edges.len() - 1].clone();
                                match target {
                                    Connector::Output(connector) => {
                                        last.from_output = Some(connector);
                                        last.x1 = position.x;
                                        last.y1 = position.y;
                                    },
                                    Connector::Input(connector) => {
                                        last.to_input = Some(connector);
                                        last.x2 = position.x;
                                        last.y2 = position.y;
                                    },
                                }
                                edges.push(last);
                            },
                            None => {},
                        }
                    }
                },
                None => {},
            }
        }
        let next = WorkspaceStore {
            viewport: self.viewport,
            nodes: clone_nodes(&self.nodes),
            edges,
            interaction_mode: InteractionMode::Idle,
        };
        assert(next@.edges =~= expected.edges);
        next
    }

    /// The state that an action leads to. The store itself is left as it is:
    /// the result is a snapshot of its own.
    ///
    /// An action that does not fit the current mode changes nothing. `layout`
    /// tells where the rendered connectors lie in the document; an edge end
    /// whose connector it does not list keeps its coordinates.
    pub fn reduce(&self, action: WorkspaceAction, layout: &Layout) -> (next: Self)
        ensures
            self@.reduces_to(action@, layout@, next@),
            self@.well_formed() ==> next@.well_formed(),
    {
        let ghost dispatched = action@;
        let next = match action {
            WorkspaceAction::Init(viewport) => WorkspaceStore::init(viewport),
            WorkspaceAction::ViewportChanged(viewport) => self.viewport_changed(viewport),
            WorkspaceAction::NodeDragActivate(id) => self.begin_node_drag(id),
            WorkspaceAction::DragNode(cmd) => self.drag_node(cmd, layout),
            WorkspaceAction::NodeDragDeactivate => self.end_node_drag(),
            WorkspaceAction::NewEdgeDragActivate(cmd) => self.begin_edge_drag(cmd),
            WorkspaceAction::DragEdge(cmd) => self.drag_edge(cmd),
            WorkspaceAction::NewEdgeDragDeactivate(cmd) => self.end_edge_drag(cmd, layout),
        };
        proof {
            if self@.well_formed() {
                lemma_reduction_keeps_well_formed(self@, dispatched, layout@, next@);
            }
        }
        next
    }
}

} // verus!
