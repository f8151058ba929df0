use vstd::prelude::*;
use vstd::string::StringExecFns;
use crate::components::node::models::{input_id, input_id_text, output_id, output_id_text};
use crate::constants::EDGE_COLOR;
use crate::store::{Connector, ConnectorView};
use crate::types::standard_id::{IdentifierExt, StandardId};
use crate::types::standard_unit::StandardUnit;

verus! {

/// Edge
///
/// A directed connection from an output connector at `(x1, y1)` to an input
/// connector at `(x2, y2)`. While it is being drawn only one of its two ends
/// is bound to a connector.
#[derive(Debug, PartialEq, Eq)]
pub struct Edge {
    pub id: StandardId,
    /// Id of the output connector that the edge leaves from.
    pub from_output: Option<String>,
    /// Id of the input connector that the edge arrives at.
    pub to_input: Option<String>,
    /// From (x1, y1) coordinate
    pub x1: StandardUnit,
    /// From (x1, y1) coordinate
    pub y1: StandardUnit,
    /// To (x2, y2) coordinate
    pub x2: StandardUnit,
    /// To (x2, y2) coordinate
    pub y2: StandardUnit,
    /// Edge color css string
    pub color: String,
}

/// What an [`Edge`] is, as a mathematical value.
pub struct EdgeView {
    pub id: Seq<char>,
    pub from_output: Option<Seq<char>>,
    pub to_input: Option<Seq<char>>,
    pub x1: int,
    pub y1: int,
    pub x2: int,
    pub y2: int,
    pub color: Seq<char>,
}

impl EdgeView {
    /// Both ends are bound to a connector.
    pub open spec fn is_complete(self) -> bool {
        self.from_output is Some && self.to_input is Some
    }

    /// Exactly one end is bound to a connector.
    pub open spec fn is_dangling(self) -> bool {
        (self.from_output is Some) != (self.to_input is Some)
    }

    /// This edge with its start point put at `(x, y)`.
    pub open spec fn with_start(self, x: int, y: int) -> EdgeView {
        EdgeView { x1: x, y1: y, ..self }
    }

    /// This edge with its end point put at `(x, y)`.
    pub open spec fn with_end(self, x: int, y: int) -> EdgeView {
        EdgeView { x2: x, y2: y, ..self }
    }

    /// This edge under another identifier, with everything else kept.
    pub open spec fn with_id(self, id: Seq<char>) -> EdgeView {
        EdgeView { id, ..self }
    }

    /// The edge that binds nothing yet and lies at the origin.
    pub open spec fn blank(id: Seq<char>) -> EdgeView {
        EdgeView {
            id,
            from_output: None,
            to_input: None,
            x1: 0,
            y1: 0,
            x2: 0,
            y2: 0,
            color: EDGE_COLOR@,
        }
    }
}

/// Edge number `index` of the generated graph, under the identifier `id`:
/// from the first output of node number `index` to the first input of the
/// node after it.
pub open spec fn generated_edge(index: nat, id: Seq<char>) -> EdgeView {
    EdgeView {
        from_output: Some(output_id(index, 0)),
        to_input: Some(input_id(index + 1, 0)),
        ..EdgeView::blank(id)
    }
}

/// The edge that a drag from the connector `origin` starts with: bound to
/// `origin` at the matching end, with both end points at `(x, y)`.
pub open spec fn dangling_edge(id: Seq<char>, origin: ConnectorView, x: int, y: int) -> EdgeView {
    let edge = EdgeView { x1: x, y1: y, x2: x, y2: y, ..EdgeView::blank(id) };
    match origin {
        ConnectorView::Output(connector) => EdgeView { from_output: Some(connector), ..edge },
        ConnectorView::Input(connector) => EdgeView { to_input: Some(connector), ..edge },
    }
}

/// The view of an optional identifier.
pub open spec fn optional_id(id: Option<String>) -> Option<Seq<char>> {
    match id {
        Some(id) => Some(id@),
        None => None,
    }
}

impl View for Edge {
    type V = EdgeView;

    open spec fn view(&self) -> EdgeView {
        EdgeView {
            id: self.id@,
            from_output: optional_id(self.from_output),
            to_input: optional_id(self.to_input),
            x1: self.x1 as int,
            y1: self.y1 as int,
            x2: self.x2 as int,
            y2: self.y2 as int,
            color: self.color@,
        }
    }
}

/// The views of a run of edges, in order.
pub open spec fn edge_views(edges: Seq<Edge>) -> Seq<EdgeView> {
    edges.map_values(|edge: Edge| edge@)
}

/// A copy of an optional identifier.
pub fn clone_optional_id(id: &Option<String>) -> (copy: Option<String>)
    ensures
        optional_id(copy) == optional_id(*id),
{
    match id {
        Some(id) => Some(id.clone()),
        None => None,
    }
}

impl Clone for Edge {
    fn clone(&self) -> (copy: Self)
        ensures
            copy@ == self@,
    {
        Edge {
            id: self.id.clone(),
            from_output: clone_optional_id(&self.from_output),
            to_input: clone_optional_id(&self.to_input),
            x1: self.x1,
            y1: self.y1,
            x2: self.x2,
            y2: self.y2,
            color: self.color.clone(),
        }
    }
}

/// A copy of a run of edges.
pub fn clone_edges(edges: &Vec<Edge>) -> (copy: Vec<Edge>)
    ensures
        edge_views(copy@) == edge_views(edges@),
{
    let mut copy: Vec<Edge> = Vec::new();
    let mut i: usize = 0;
    while i < edges.len()
        invariant
            i <= edges.len(),
            copy.len() == i,
            forall|j: int| 0 <= j < i ==> copy[j]@ == edges[j]@,
        decreases edges.len() - i,
    {
        copy.push(edges[i].clone());
        i += 1;
    }
    assert(edge_views(copy@) =~= edge_views(edges@));
    copy
}

impl Edge {
    /// The blank edge under the given identifier: no end bound, every
    /// coordinate zero, the standard edge color.
    pub fn blank(id: StandardId) -> (edge: Self)
        ensures
            edge@ == EdgeView::blank(id@),
    {
        Edge {
            id,
            from_output: None,
            to_input: None,
            x1: 0,
            y1: 0,
            x2: 0,
            y2: 0,
            color: String::from_str(EDGE_COLOR),
        }
    }
}

impl Edge {
    /// Builds edge number `index` of the generated graph under the given
    /// identifier.
    pub fn generated(index: u32, id: StandardId) -> (edge: Self)
        ensures
            edge@ == generated_edge(index as nat, id@),
    {
        let mut edge = Edge::blank(id);
        edge.from_output = Some(output_id_text(index as u64, 0));
        edge.to_input = Some(input_id_text(index as u64 + 1, 0));
        edge
    }

    /// Builds the edge that a drag from `origin` starts with, under the
    /// given identifier.
    pub fn dangling(id: StandardId, origin: &Connector, x: StandardUnit, y: StandardUnit) -> (edge: Self)
        ensures
            edge@ == dangling_edge(id@, origin@, x as int, y as int),
            edge@.is_dangling(),
    {
        let mut edge = Edge::blank(id);
        edge.x1 = x;
        edge.y1 = y;
        edge.x2 = x;
        edge.y2 = y;
        match origin {
            Connector::Output(connector) => {
                edge.from_output = Some(connector.clone());
            },
            Connector::Input(connector) => {
                edge.to_input = Some(connector.clone());
            },
        }
        edge
    }
}

impl Edge {
    /// Whether both ends are bound to a connector.
    pub fn is_complete(&self) -> (complete: bool)
        ensures
            complete == self@.is_complete(),
    {
        self.from_output.is_some() && self.to_input.is_some()
    }

    /// Whether exactly one end is bound to a connector.
    pub fn is_dangling(&self) -> (dangling: bool)
        ensures
            dangling == self@.is_dangling(),
    {
        self.from_output.is_some() != self.to_input.is_some()
    }
}

impl Default for Edge {
    /// A blank edge under a newly generated identifier.
    fn default() -> (edge: Self)
        ensures
            edge@ == EdgeView::blank(edge@.id),
    {
        Edge::blank(StandardId::generate())
    }
}

} // verus!
