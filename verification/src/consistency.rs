//! What holds of the store after any run of actions.

use vstd::prelude::*;
use crate::components::edge::models::{dangling_edge, generated_edge, EdgeView};
use crate::components::node::models::{generated_node, NodeView};
use crate::components::viewport::models::{Position, Viewport};
use crate::constants::{NODE_HEIGHT, NODE_WIDTH};
use crate::gesture::{gesture_action, PointerEventView};
use crate::store::{
    bound_to, first_with_id, is_generated_graph, landing, lemma_first_with_id_unique, ActionView,
    ConnectorView, InteractionModeView, WorkspaceStoreView,
};

verus! {

/// The mode that an action leaves the store in.
pub open spec fn next_mode(mode: InteractionModeView, action: ActionView) -> InteractionModeView {
    match (mode, action) {
        (_, ActionView::Init(_)) => InteractionModeView::Idle,
        (InteractionModeView::Idle, ActionView::NodeDragActivate(id)) => InteractionModeView::NodeDrag(
            id,
        ),
        (InteractionModeView::NodeDrag(_), ActionView::NodeDragDeactivate) => InteractionModeView::Idle,
        (
            InteractionModeView::Idle,
            ActionView::NewEdgeDragActivate { origin, x, y },
        ) => InteractionModeView::NewEdgeDrag(origin),
        (
            InteractionModeView::NewEdgeDrag(_),
            ActionView::NewEdgeDragDeactivate { target },
        ) => InteractionModeView::Idle,
        _ => mode,
    }
}

/// The action is one that the mode is ready for. A re-init and a change of
/// the viewport fit every mode; a gesture begins in the idle mode only, and
/// is carried on and ended in its own mode only.
pub open spec fn action_fits(mode: InteractionModeView, action: ActionView) -> bool {
    match action {
        ActionView::Init(_) => true,
        ActionView::ViewportChanged(_) => true,
        ActionView::NodeDragActivate(_) => mode is Idle,
        ActionView::DragNode { .. } => mode is NodeDrag,
        ActionView::NodeDragDeactivate => mode is NodeDrag,
        ActionView::NewEdgeDragActivate { .. } => mode is Idle,
        ActionView::DragEdge { .. } => mode is NewEdgeDrag,
        ActionView::NewEdgeDragDeactivate { .. } => mode is NewEdgeDrag,
    }
}

/// An action that the mode is not ready for changes nothing.
pub proof fn lemma_unfit_action_changes_nothing(
    state: WorkspaceStoreView,
    action: ActionView,
    layout: Map<ConnectorView, Position>,
    next: WorkspaceStoreView,
)
    requires
        state.reduces_to(action, layout, next),
        !action_fits(state.interaction_mode, action),
    ensures
        next == state,
{
}

/// What a move or a release of the pointer calls for always fits the mode,
/// and so does what a press calls for while no gesture is in progress.
pub proof fn lemma_gesture_fits_the_mode(
    event: PointerEventView,
    mode: InteractionModeView,
    viewport: Viewport,
    layout: Map<ConnectorView, Position>,
)
    requires
        event is Move || event is Up || mode is Idle,
        gesture_action(event, mode, viewport, layout) is Some,
    ensures
        action_fits(mode, gesture_action(event, mode, viewport, layout)->0),
{
}

/// A node cannot be dragged off the canvas: wherever the pointer moves while
/// a node is dragged, the node lands inside the canvas as a whole.
pub proof fn lemma_dragged_node_stays_on_canvas(
    state: WorkspaceStoreView,
    id: Seq<char>,
    index: int,
    pointer: Position,
    viewport: Viewport,
    layout: Map<ConnectorView, Position>,
    next: WorkspaceStoreView,
)
    requires
        state.interaction_mode == InteractionModeView::NodeDrag(id),
        first_with_id(state.nodes, id, index),
        gesture_action(PointerEventView::Move(pointer), state.interaction_mode, viewport, layout) is Some,
        state.reduces_to(
            gesture_action(PointerEventView::Move(pointer), state.interaction_mode, viewport, layout)->0,
            layout,
            next,
        ),
    ensures
        next.nodes.len() == state.nodes.len(),
        0 <= next.nodes[index].x <= viewport.dimensions.width - NODE_WIDTH,
        0 <= next.nodes[index].y <= viewport.dimensions.height - NODE_HEIGHT,
        next.nodes[index] == state.nodes[index].moved_to(next.nodes[index].x, next.nodes[index].y),
        forall|other: int|
            0 <= other < state.nodes.len() && other != index ==> next.nodes[other]
                == state.nodes[other],
{
    let chosen = choose|i: int| first_with_id(state.nodes, id, i);
    lemma_first_with_id_unique(state.nodes, id, chosen, index);
}

/// The free end of an edge cannot be drawn off the canvas: wherever the
/// pointer moves while an edge is drawn, that end lands inside the canvas.
pub proof fn lemma_drawn_edge_stays_on_canvas(
    state: WorkspaceStoreView,
    origin: ConnectorView,
    pointer: Position,
    viewport: Viewport,
    layout: Map<ConnectorView, Position>,
    next: WorkspaceStoreView,
)
    requires
        state.interaction_mode == InteractionModeView::NewEdgeDrag(origin),
        state.edges.len() > 0,
        gesture_action(PointerEventView::Move(pointer), state.interaction_mode, viewport, layout) is Some,
        state.reduces_to(
            gesture_action(PointerEventView::Move(pointer), state.interaction_mode, viewport, layout)->0,
            layout,
            next,
        ),
    ensures
        next.edges.len() == state.edges.len(),
        origin is Output ==> {
            &&& 0 <= next.edges.last().x2 <= viewport.dimensions.width
            &&& 0 <= next.edges.last().y2 <= viewport.dimensions.height
        },
        origin is Input ==> {
            &&& 0 <= next.edges.last().x1 <= viewport.dimensions.width
            &&& 0 <= next.edges.last().y1 <= viewport.dimensions.height
        },
{
}

/// The interaction mode is one of idle, dragging a node and drawing an edge,
/// and never two of them at once.
pub proof fn lemma_mode_is_exactly_one(mode: InteractionModeView)
    ensures
        mode is Idle || mode is NodeDrag || mode is NewEdgeDrag,
        !(mode is Idle && mode is NodeDrag),
        !(mode is Idle && mode is NewEdgeDrag),
        !(mode is NodeDrag && mode is NewEdgeDrag),
{
}

/// The mode after an action depends on the mode before it and on the action
/// alone, as the table of transitions has it: only the action that fits the
/// current mode changes it.
pub proof fn lemma_mode_follows_table(
    state: WorkspaceStoreView,
    action: ActionView,
    layout: Map<ConnectorView, Position>,
    next: WorkspaceStoreView,
)
    requires
        state.reduces_to(action, layout, next),
    ensures
        next.interaction_mode == next_mode(state.interaction_mode, action),
{
}

/// The generated graph is well formed when no gesture is in progress.
pub proof fn lemma_generated_graph_is_well_formed(state: WorkspaceStoreView)
    requires
        is_generated_graph(state.nodes, state.edges),
        !(state.interaction_mode is NewEdgeDrag),
    ensures
        state.well_formed(),
{
    assert forall|i: int| 0 <= i < state.edges.len() implies (#[trigger] state.edges[i]).is_complete() by {}
}

/// No action takes a well-formed store to one that is not.
pub proof fn lemma_reduction_keeps_well_formed(
    state: WorkspaceStoreView,
    action: ActionView,
    layout: Map<ConnectorView, Position>,
    next: WorkspaceStoreView,
)
    requires
        state.well_formed(),
        state.reduces_to(action, layout, next),
    ensures
        next.well_formed(),
{
    match action {
        ActionView::Init(_) => {
            lemma_generated_graph_is_well_formed(next);
        },
        ActionView::DragNode { x, y } => {
            assert forall|i: int| 0 <= i < next.edges.len() implies (#[trigger] next.edges[i]).from_output
                == state.edges[i].from_output && next.edges[i].to_input
                == state.edges[i].to_input by {}
        },
        _ => {},
    }
}

/// One step of a run: the action, the layout it was reduced under, and the
/// state it led to.
pub struct Step {
    pub action: ActionView,
    pub layout: Map<ConnectorView, Position>,
    pub result: WorkspaceStoreView,
}

/// The state that step number `k` of a run starts from.
pub open spec fn state_before(start: WorkspaceStoreView, steps: Seq<Step>, k: int) -> WorkspaceStoreView {
    if k == 0 {
        start
    } else {
        steps[k - 1].result
    }
}

/// `steps` is a run of the store from `start`: each step reduces the state
/// that the step before it led to.
pub open spec fn is_run(start: WorkspaceStoreView, steps: Seq<Step>) -> bool {
    forall|k: int|
        0 <= k < steps.len() ==> state_before(start, steps, k).reduces_to(
            (#[trigger] steps[k]).action,
            steps[k].layout,
            steps[k].result,
        )
}

/// After any run of actions from a well-formed store, the store is well
/// formed: every state on the way is.
pub proof fn lemma_run_keeps_well_formed(start: WorkspaceStoreView, steps: Seq<Step>, k: int)
    requires
        start.well_formed(),
        is_run(start, steps),
        0 <= k < steps.len(),
    ensures
        steps[k].result.well_formed(),
    decreases k,
{
    if k > 0 {
        lemma_run_keeps_well_formed(start, steps, k - 1);
    }
    let before = state_before(start, steps, k);
    assert(before.reduces_to(steps[k].action, steps[k].layout, steps[k].result));
    lemma_reduction_keeps_well_formed(before, steps[k].action, steps[k].layout, steps[k].result);
}

/// In a well-formed store every edge has one or both of its ends bound. An
/// edge with one end bound exists only while an edge is being drawn, and
/// then it is the last edge and the only such one.
pub proof fn lemma_edges_are_bound(state: WorkspaceStoreView, i: int)
    requires
        state.well_formed(),
        0 <= i < state.edges.len(),
    ensures
        state.edges[i].is_complete() || state.edges[i].is_dangling(),
        state.edges[i].is_dangling() ==> state.interaction_mode is NewEdgeDrag && i
            == state.edges.len() - 1,
        state.interaction_mode is NewEdgeDrag ==> state.edges.last().is_dangling(),
{
}

/// The two runs of nodes differ in nothing but the nodes' identifiers.
pub open spec fn same_nodes_but_ids(a: Seq<NodeView>, b: Seq<NodeView>) -> bool {
    &&& a.len() == b.len()
    &&& forall|i: int| 0 <= i < a.len() ==> (#[trigger] a[i]).with_id(b[i].id) == b[i]
}

/// The two runs of edges differ in nothing but the edges' identifiers.
pub open spec fn same_edges_but_ids(a: Seq<EdgeView>, b: Seq<EdgeView>) -> bool {
    &&& a.len() == b.len()
    &&& forall|i: int| 0 <= i < a.len() ==> (#[trigger] a[i]).with_id(b[i].id) == b[i]
}

/// What a re-init leads to depends on the viewport alone, not on the state
/// it starts from: any two results for one viewport have the same viewport
/// and mode, and the same nodes and edges but for the newly generated
/// identifiers.
pub proof fn lemma_init_forgets_the_past(
    viewport: Viewport,
    one: WorkspaceStoreView,
    one_layout: Map<ConnectorView, Position>,
    one_next: WorkspaceStoreView,
    other: WorkspaceStoreView,
    other_layout: Map<ConnectorView, Position>,
    other_next: WorkspaceStoreView,
)
    requires
        one.reduces_to(ActionView::Init(viewport), one_layout, one_next),
        other.reduces_to(ActionView::Init(viewport), other_layout, other_next),
    ensures
        one_next.viewport == other_next.viewport,
        one_next.interaction_mode == other_next.interaction_mode,
        same_nodes_but_ids(one_next.nodes, other_next.nodes),
        same_edges_but_ids(one_next.edges, other_next.edges),
{
    assert forall|i: int| 0 <= i < one_next.nodes.len() implies (#[trigger] one_next.nodes[i]).with_id(
        other_next.nodes[i].id,
    ) == other_next.nodes[i] by {
        assert(other_next.nodes[i] == generated_node(i as nat, other_next.nodes[i].id));
    }
    assert forall|i: int| 0 <= i < one_next.edges.len() implies (#[trigger] one_next.edges[i]).with_id(
        other_next.edges[i].id,
    ) == other_next.edges[i] by {
        assert(other_next.edges[i] == generated_edge(i as nat, other_next.edges[i].id));
    }
}

/// Re-init is idempotent on a fixed viewport: dispatched a second time it
/// leads to the graph that the first led to, but for the newly generated
/// identifiers.
pub proof fn lemma_init_is_idempotent(
    viewport: Viewport,
    state: WorkspaceStoreView,
    first_layout: Map<ConnectorView, Position>,
    once: WorkspaceStoreView,
    second_layout: Map<ConnectorView, Position>,
    twice: WorkspaceStoreView,
)
    requires
        state.reduces_to(ActionView::Init(viewport), first_layout, once),
        once.reduces_to(ActionView::Init(viewport), second_layout, twice),
    ensures
        once.viewport == twice.viewport,
        once.interaction_mode == twice.interaction_mode,
        same_nodes_but_ids(once.nodes, twice.nodes),
        same_edges_but_ids(once.edges, twice.edges),
{
    lemma_init_forgets_the_past(
        viewport,
        state,
        first_layout,
        once,
        once,
        second_layout,
        twice,
    );
}

/// The state after the pointer went through `points`, one move after the
/// other, while an edge is drawn.
pub open spec fn dragged_along(state: WorkspaceStoreView, points: Seq<(int, int)>) -> WorkspaceStoreView
    decreases points.len(),
{
    if points.len() == 0 {
        state
    } else {
        dragged_along(state, points.drop_last()).drag_edge(points.last().0, points.last().1)
    }
}

/// Moving the pointer while an edge is drawn touches nothing but the free
/// end of the last edge.
pub proof fn lemma_drag_moves_the_free_end_only(
    state: WorkspaceStoreView,
    origin: ConnectorView,
    points: Seq<(int, int)>,
)
    requires
        state.interaction_mode == InteractionModeView::NewEdgeDrag(origin),
        state.edges.len() > 0,
    ensures
        ({
            let moved = dragged_along(state, points);
            let last = moved.edges.last();
            let was = state.edges.last();
            &&& moved.viewport == state.viewport
            &&& moved.nodes == state.nodes
            &&& moved.interaction_mode == state.interaction_mode
            &&& moved.edges.len() == state.edges.len()
            &&& moved.edges.drop_last() == state.edges.drop_last()
            &&& last.id == was.id
            &&& last.color == was.color
            &&& last.from_output == was.from_output
            &&& last.to_input == was.to_input
            &&& origin is Output ==> last.x1 == was.x1 && last.y1 == was.y1
            &&& origin is Input ==> last.x2 == was.x2 && last.y2 == was.y2
        }),
    decreases points.len(),
{
    if points.len() > 0 {
        lemma_drag_moves_the_free_end_only(state, origin, points.drop_last());
        let before = dragged_along(state, points.drop_last());
        let moved = before.drag_edge(points.last().0, points.last().1);
        assert(moved.edges.drop_last() =~= before.edges.drop_last());
    }
}

/// An edge drag that ends on no valid target leaves no trace: after the
/// drag was begun from an idle store, the pointer moved any number of times
/// and the edge was dropped where it cannot land, the store is what it was
/// before. The number of edges, in particular, is what it was.
pub proof fn lemma_cancelled_drag_leaves_no_trace(
    state: WorkspaceStoreView,
    origin: ConnectorView,
    x: int,
    y: int,
    id: Seq<char>,
    points: Seq<(int, int)>,
    target: Option<ConnectorView>,
    layout: Map<ConnectorView, Position>,
)
    requires
        state.interaction_mode is Idle,
        landing(state.viewport, layout, origin, target) is None,
    ensures
        dragged_along(state.begin_edge_drag(origin, x, y, id), points).end_edge_drag(
            target,
            layout,
        ) == state,
{
    let begun = state.begin_edge_drag(origin, x, y, id);
    lemma_drag_moves_the_free_end_only(begun, origin, points);
    let moved = dragged_along(begun, points);
    let ended = moved.end_edge_drag(target, layout);
    assert(begun.edges.drop_last() =~= state.edges);
    assert(ended.edges =~= state.edges);
}

/// An edge drag that ends on a valid target adds one complete edge and
/// nothing else: the edge keeps the origin's end where the drag began, and
/// its other end is bound to the target where the target lies. Where the
/// pointer went in between plays no part.
pub proof fn lemma_dropped_edge_connects(
    state: WorkspaceStoreView,
    origin: ConnectorView,
    x: int,
    y: int,
    id: Seq<char>,
    points: Seq<(int, int)>,
    target: ConnectorView,
    layout: Map<ConnectorView, Position>,
)
    requires
        state.interaction_mode is Idle,
        landing(state.viewport, layout, origin, Some(target)) is Some,
    ensures
        ({
            let ended = dragged_along(state.begin_edge_drag(origin, x, y, id), points).end_edge_drag(
                Some(target),
                layout,
            );
            let position = (landing(state.viewport, layout, origin, Some(target))->0).1;
            &&& ended.viewport == state.viewport
            &&& ended.nodes == state.nodes
            &&& ended.interaction_mode is Idle
            &&& ended.edges == state.edges.push(
                bound_to(dangling_edge(id, origin, x, y), target, position),
            )
            &&& ended.edges.last().is_complete()
        }),
{
    let begun = state.begin_edge_drag(origin, x, y, id);
    lemma_drag_moves_the_free_end_only(begun, origin, points);
    let moved = dragged_along(begun, points);
    let ended = moved.end_edge_drag(Some(target), layout);
    let position = (landing(state.viewport, layout, origin, Some(target))->0).1;
    assert(begun.edges.drop_last() =~= state.edges);
    assert(begun.edges.last() == dangling_edge(id, origin, x, y));
    assert(bound_to(moved.edges.last(), target, position) == bound_to(
        dangling_edge(id, origin, x, y),
        target,
        position,
    ));
    assert(ended.edges =~= state.edges.push(
        bound_to(dangling_edge(id, origin, x, y), target, position),
    ));
}

/// An action leads to one state and no other, but for the identifiers that
/// it generates: the results of a re-init agree up to the identifiers of
/// their nodes and edges, the results of a begun edge drag up to the
/// identifier of the new edge, and the results of any other action in
/// everything.
pub proof fn lemma_reduction_is_determined(
    state: WorkspaceStoreView,
    action: ActionView,
    layout: Map<ConnectorView, Position>,
    one: WorkspaceStoreView,
    other: WorkspaceStoreView,
)
    requires
        state.reduces_to(action, layout, one),
        state.reduces_to(action, layout, other),
    ensures
        one.viewport == other.viewport,
        one.interaction_mode == other.interaction_mode,
        same_nodes_but_ids(one.nodes, other.nodes),
        same_edges_but_ids(one.edges, other.edges),
        !(action is Init) ==> one.nodes == other.nodes,
        !(action is Init) && !(action is NewEdgeDragActivate) ==> one == other,
        action is NewEdgeDragActivate ==> one.edges.len() == other.edges.len() && forall|i: int|
            0 <= i < one.edges.len() - 1 ==> one.edges[i] == other.edges[i],
{
    match action {
        ActionView::Init(viewport) => {
            lemma_init_forgets_the_past(viewport, state, layout, one, state, layout, other);
        },
        _ => {},
    }
}

/// No action renames a node or an edge. But for a re-init, which starts
/// over, the nodes keep their identifiers, and so does every edge that is
/// still there after the action.
pub proof fn lemma_identifiers_are_stable(
    state: WorkspaceStoreView,
    action: ActionView,
    layout: Map<ConnectorView, Position>,
    next: WorkspaceStoreView,
)
    requires
        !(action is Init),
        state.reduces_to(action, layout, next),
    ensures
        next.nodes.len() == state.nodes.len(),
        forall|i: int| 0 <= i < state.nodes.len() ==> (#[trigger] next.nodes[i]).id == state.nodes[i].id,
        state.edges.len() - 1 <= next.edges.len() <= state.edges.len() + 1,
        forall|i: int|
            0 <= i < state.edges.len() && i < next.edges.len() ==> (#[trigger] next.edges[i]).id
                == state.edges[i].id,
{
    match action {
        ActionView::DragNode { x, y } => {
            if state.interaction_mode is NodeDrag {
                let id = state.interaction_mode->NodeDrag_0;
                if exists|i: int| first_with_id(state.nodes, id, i) {
                    let index = choose|i: int| first_with_id(state.nodes, id, i);
                    assert(next.nodes[index].id == state.nodes[index].id);
                }
            }
        },
        _ => {},
    }
}

} // verus!
