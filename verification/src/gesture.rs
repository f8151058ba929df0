//! From raw pointer events to the actions that the store understands.

use vstd::prelude::*;
use crate::components::viewport::layout::Layout;
use crate::components::viewport::models::{relative_position, Position, Viewport};
use crate::constants::{NODE_HEIGHT, NODE_WIDTH};
use crate::store::{
    canvas_position, canvas_position_of, optional_connector, ActionView, Connector, ConnectorView,
    DragEdgeCmd, DragNodeCmd, InteractionMode, InteractionModeView, NewEdgeDragActivateCmd,
    NewEdgeDragDeactivateCmd, WorkspaceAction,
};
use crate::types::standard_id::StandardId;
use crate::types::standard_unit::StandardUnit;

verus! {

/// What the pointer did, and on what.
#[derive(Debug, PartialEq, Eq)]
pub enum PointerEvent {
    /// The pointer went down on the body of the node with this id.
    NodeDown(StandardId),
    /// The pointer went down on this connector.
    ConnectorDown(Connector),
    /// The pointer moved over the canvas, to this place of the document.
    Move(Position),
    /// The pointer went up, over this connector if over any.
    Up(Option<Connector>),
}

/// What a [`PointerEvent`] is, as a mathematical value.
pub enum PointerEventView {
    NodeDown(Seq<char>),
    ConnectorDown(ConnectorView),
    Move(Position),
    Up(Option<ConnectorView>),
}

impl View for PointerEvent {
    type V = PointerEventView;

    open spec fn view(&self) -> PointerEventView {
        match self {
            PointerEvent::NodeDown(id) => PointerEventView::NodeDown(id@),
            PointerEvent::ConnectorDown(connector) => PointerEventView::ConnectorDown(connector@),
            PointerEvent::Move(position) => PointerEventView::Move(*position),
            PointerEvent::Up(connector) => PointerEventView::Up(optional_connector(*connector)),
        }
    }
}

/// Where a node lands whose centre is dragged to `pointer`: inside the
/// canvas as a whole. `None` while the canvas is not laid out or cannot hold
/// a node.
pub open spec fn node_drop_point(viewport: Viewport, pointer: Position) -> Option<(int, int)> {
    if viewport.ready() && viewport.fits(NODE_WIDTH as int, NODE_HEIGHT as int) {
        Some(
            (
                relative_position(
                    pointer.x as int,
                    viewport.dimensions.offset_left as int,
                    viewport.dimensions.width as int,
                    NODE_WIDTH as int,
                ),
                relative_position(
                    pointer.y as int,
                    viewport.dimensions.offset_top as int,
                    viewport.dimensions.height as int,
                    NODE_HEIGHT as int,
                ),
            ),
        )
    } else {
        None
    }
}

/// The action that a pointer event calls for in the given mode, if it calls
/// for any.
///
/// Going down on a node begins to drag it; going down on a connector that
/// can be placed on the canvas begins an edge there. A move drags what is
/// being dragged, and does nothing while the canvas is not laid out. Going
/// up ends the gesture in progress.
pub open spec fn gesture_action(
    event: PointerEventView,
    mode: InteractionModeView,
    viewport: Viewport,
    layout: Map<ConnectorView, Position>,
) -> Option<ActionView> {
    match event {
        PointerEventView::NodeDown(id) => Some(ActionView::NodeDragActivate(id)),
        PointerEventView::ConnectorDown(connector) => match canvas_position_of(
            Some(viewport),
            layout,
            connector,
        ) {
            Some(position) => Some(
                ActionView::NewEdgeDragActivate {
                    origin: connector,
                    x: position.x as int,
                    y: position.y as int,
                },
            ),
            None => None,
        },
        PointerEventView::Move(pointer) => match mode {
            InteractionModeView::Idle => None,
            InteractionModeView::NodeDrag(_) => match node_drop_point(viewport, pointer) {
                Some((x, y)) => Some(ActionView::DragNode { x, y }),
                None => None,
            },
            InteractionModeView::NewEdgeDrag(_) => if viewport.ready() {
                let point = viewport.canvas_point(pointer);
                Some(ActionView::DragEdge { x: point.x as int, y: point.y as int })
            } else {
                None
            },
        },
        PointerEventView::Up(under) => match mode {
            InteractionModeView::Idle => None,
            InteractionModeView::NodeDrag(_) => Some(ActionView::NodeDragDeactivate),
            InteractionModeView::NewEdgeDrag(_) => Some(
                ActionView::NewEdgeDragDeactivate { target: under },
            ),
        },
    }
}

/// The view of an optional action.
pub open spec fn optional_action(action: Option<WorkspaceAction>) -> Option<ActionView> {
    match action {
        Some(action) => Some(action@),
        None => None,
    }
}

/// Translates a pointer event into the action to dispatch, if any.
///
/// `viewport` is the frame of the canvas as measured for this event, and
/// `layout` tells where the rendered connectors lie in the document. A node
/// that is dragged stays inside the canvas as a whole, and the free end of an
/// edge stays inside the canvas.
pub fn action_for(
    event: PointerEvent,
    mode: &InteractionMode,
    viewport: &Viewport,
    layout: &Layout,
) -> (action: Option<WorkspaceAction>)
    ensures
        optional_action(action) == gesture_action(event@, mode@, *viewport, layout@),
        match optional_action(action) {
            Some(ActionView::DragNode { x, y }) => {
                &&& 0 <= x <= viewport.dimensions.width - NODE_WIDTH
                &&& 0 <= y <= viewport.dimensions.height - NODE_HEIGHT
            },
            Some(ActionView::DragEdge { x, y }) => {
                &&& 0 <= x <= viewport.dimensions.width
                &&& 0 <= y <= viewport.dimensions.height
            },
            Some(ActionView::NewEdgeDragActivate { origin, x, y }) => {
                &&& 0 <= x <= viewport.dimensions.width
                &&& 0 <= y <= viewport.dimensions.height
            },
            _ => true,
        },
{
    match event {
        PointerEvent::NodeDown(id) => Some(WorkspaceAction::NodeDragActivate(id)),
        PointerEvent::ConnectorDown(connector) => {
            match canvas_position(&Some(*viewport), layout, &connector) {
                Some(position) => Some(
                    WorkspaceAction::NewEdgeDragActivate(
                        NewEdgeDragActivateCmd {
                            from_connector: connector,
                            x: position.x,
                            y: position.y,
                        },
                    ),
                ),
                None => None,
            }
        },
        PointerEvent::Move(pointer) => {
            match mode {
                InteractionMode::Idle => None,
                InteractionMode::NodeDrag(_) => {
                    if viewport.is_ready() && viewport.can_hold(NODE_WIDTH, NODE_HEIGHT) {
                        let x: StandardUnit = viewport.relative_x_pos_from_abs(
                            pointer.x,
                            Some(NODE_WIDTH),
                        );
                        let y: StandardUnit = viewport.relative_y_pos_from_abs(
                            pointer.y,
                            Some(NODE_HEIGHT),
                        );
                        Some(WorkspaceAction::DragNode(DragNodeCmd { x, y }))
                    } else {
                        None
                    }
                },
                InteractionMode::NewEdgeDrag(_) => {
                    if viewport.is_ready() {
                        let point = viewport.relative_pos_from_abs(pointer);
                        Some(WorkspaceAction::DragEdge(DragEdgeCmd { x: point.x, y: point.y }))
                    } else {
                        None
                    }
                },
            }
        },
        PointerEvent::Up(under) => {
            match mode {
                InteractionMode::Idle => None,
                InteractionMode::NodeDrag(_) => Some(WorkspaceAction::NodeDragDeactivate),
                InteractionMode::NewEdgeDrag(_) => Some(
                    WorkspaceAction::NewEdgeDragDeactivate(
                        NewEdgeDragDeactivateCmd { to_connector: under },
                    ),
                ),
            }
        },
    }
}

} // verus!
