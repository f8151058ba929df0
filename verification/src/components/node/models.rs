use vstd::prelude::*;
use vstd::string::StringExecFns;
use crate::constants::{GENERATED_CONNECTORS, NODE_COLOR, NODE_GAP, NODE_HEIGHT};
use crate::types::decimal::{decimal, decimal_text};
use crate::types::standard_id::StandardId;
use crate::types::standard_unit::StandardUnit;

verus! {

/// A connector on the receiving side of a node.
#[derive(Debug, PartialEq, Eq)]
pub struct NodeInput {
    pub id: StandardId,
}

/// A connector on the sending side of a node.
#[derive(Debug, PartialEq, Eq)]
pub struct NodeOutput {
    pub id: StandardId,
}

/// A node of the graph: a titled box at a canvas position with its connectors.
#[derive(Debug, PartialEq, Eq)]
pub struct Node {
    pub id: StandardId,
    pub title: String,
    pub x: StandardUnit,
    pub y: StandardUnit,
    pub color: String,
    pub inputs: Vec<NodeInput>,
    pub outputs: Vec<NodeOutput>,
}

/// What a [`Node`] is, as a mathematical value. A connector is its id.
pub struct NodeView {
    pub id: Seq<char>,
    pub title: Seq<char>,
    pub x: int,
    pub y: int,
    pub color: Seq<char>,
    pub inputs: Seq<Seq<char>>,
    pub outputs: Seq<Seq<char>>,
}

impl NodeView {
    /// This node at another position, with everything else kept.
    pub open spec fn moved_to(self, x: int, y: int) -> NodeView {
        NodeView { x, y, ..self }
    }

    /// This node under another identifier, with everything else kept.
    pub open spec fn with_id(self, id: Seq<char>) -> NodeView {
        NodeView { id, ..self }
    }
}

/// The id of input number `slot` on the generated node number `node`.
pub open spec fn input_id(node: nat, slot: nat) -> Seq<char> {
    "node-"@ + decimal(node) + "--input-"@ + decimal(slot)
}

/// The id of output number `slot` on the generated node number `node`.
pub open spec fn output_id(node: nat, slot: nat) -> Seq<char> {
    "node-"@ + decimal(node) + "--output-"@ + decimal(slot)
}

/// Node number `index` of the generated graph, under the identifier `id`.
/// The nodes stand in one column, each a node's height and a gap below the
/// one before it.
pub open spec fn generated_node(index: nat, id: Seq<char>) -> NodeView {
    NodeView {
        id,
        title: "Node "@ + decimal(index),
        x: 0,
        y: (NODE_HEIGHT + NODE_GAP) * index,
        color: NODE_COLOR@,
        inputs: Seq::new(GENERATED_CONNECTORS as nat, |slot: int| input_id(index, slot as nat)),
        outputs: Seq::new(GENERATED_CONNECTORS as nat, |slot: int| output_id(index, slot as nat)),
    }
}

impl View for NodeInput {
    type V = Seq<char>;

    open spec fn view(&self) -> Seq<char> {
        self.id@
    }
}

impl View for NodeOutput {
    type V = Seq<char>;

    open spec fn view(&self) -> Seq<char> {
        self.id@
    }
}

/// The ids of a run of input connectors, in order.
pub open spec fn input_ids(inputs: Seq<NodeInput>) -> Seq<Seq<char>> {
    inputs.map_values(|input: NodeInput| input@)
}

/// The ids of a run of output connectors, in order.
pub open spec fn output_ids(outputs: Seq<NodeOutput>) -> Seq<Seq<char>> {
    outputs.map_values(|output: NodeOutput| output@)
}

impl View for Node {
    type V = NodeView;

    open spec fn view(&self) -> NodeView {
        NodeView {
            id: self.id@,
            title: self.title@,
            x: self.x as int,
            y: self.y as int,
            color: self.color@,
            inputs: input_ids(self.inputs@),
            outputs: output_ids(self.outputs@),
        }
    }
}

/// The views of a run of nodes, in order.
pub open spec fn node_views(nodes: Seq<Node>) -> Seq<NodeView> {
    nodes.map_values(|node: Node| node@)
}

impl Clone for NodeInput {
    fn clone(&self) -> (copy: Self)
        ensures
            copy@ == self@,
    {
        NodeInput { id: self.id.clone() }
    }
}

impl Clone for NodeOutput {
    fn clone(&self) -> (copy: Self)
        ensures
            copy@ == self@,
    {
        NodeOutput { id: self.id.clone() }
    }
}

/// A copy of a run of input connectors.
pub fn clone_inputs(inputs: &Vec<NodeInput>) -> (copy: Vec<NodeInput>)
    ensures
        input_ids(copy@) == input_ids(inputs@),
{
    let mut copy: Vec<NodeInput> = Vec::new();
    let mut i: usize = 0;
    while i < inputs.len()
        invariant
            i <= inputs.len(),
            copy.len() == i,
            forall|j: int| 0 <= j < i ==> copy[j]@ == inputs[j]@,
        decreases inputs.len() - i,
    {
        copy.push(inputs[i].clone());
        i += 1;
    }
    assert(input_ids(copy@) =~= input_ids(inputs@));
    copy
}

/// A copy of a run of output connectors.
pub fn clone_outputs(outputs: &Vec<NodeOutput>) -> (copy: Vec<NodeOutput>)
    ensures
        output_ids(copy@) == output_ids(outputs@),
{
    let mut copy: Vec<NodeOutput> = Vec::new();
    let mut i: usize = 0;
    while i < outputs.len()
        invariant
            i <= outputs.len(),
            copy.len() == i,
            forall|j: int| 0 <= j < i ==> copy[j]@ == outputs[j]@,
        decreases outputs.len() - i,
    {
        copy.push(outputs[i].clone());
        i += 1;
    }
    assert(output_ids(copy@) =~= output_ids(outputs@));
    copy
}

impl Clone for Node {
    fn clone(&self) -> (copy: Self)
        ensures
            copy@ == self@,
    {
        Node {
            id: self.id.clone(),
            title: self.title.clone(),
            x: self.x,
            y: self.y,
            color: self.color.clone(),
            inputs: clone_inputs(&self.inputs),
            outputs: clone_outputs(&self.outputs),
        }
    }
}

/// A copy of a run of nodes.
pub fn clone_nodes(nodes: &Vec<Node>) -> (copy: Vec<Node>)
    ensures
        node_views(copy@) == node_views(nodes@),
{
    let mut copy: Vec<Node> = Vec::new();
    let mut i: usize = 0;
    while i < nodes.len()
        invariant
            i <= nodes.len(),
            copy.len() == i,
            forall|j: int| 0 <= j < i ==> copy[j]@ == nodes[j]@,
        decreases nodes.len() - i,
    {
        copy.push(nodes[i].clone());
        i += 1;
    }
    assert(node_views(copy@) =~= node_views(nodes@));
    copy
}

/// Writes the id of an input of a generated node.
pub fn input_id_text(node: u64, slot: u64) -> (id: StandardId)
    ensures
        id@ == input_id(node as nat, slot as nat),
{
    let mut id: String = String::from_str("node-");
    id.append(decimal_text(node).as_str());
    id.append("--input-");
    id.append(decimal_text(slot).as_str());
    id
}

/// Writes the id of an output of a generated node.
pub fn output_id_text(node: u64, slot: u64) -> (id: StandardId)
    ensures
        id@ == output_id(node as nat, slot as nat),
{
    let mut id: String = String::from_str("node-");
    id.append(decimal_text(node).as_str());
    id.append("--output-");
    id.append(decimal_text(slot).as_str());
    id
}

impl Node {
    /// Builds node number `index` of the generated graph under the given
    /// identifier.
    pub fn generated(index: u32, id: StandardId) -> (node: Self)
        ensures
            node@ == generated_node(index as nat, id@),
    {
        let mut title: String = String::from_str("Node ");
        title.append(decimal_text(index as u64).as_str());
        let mut inputs: Vec<NodeInput> = Vec::new();
        let mut outputs: Vec<NodeOutput> = Vec::new();
        let mut slot: u32 = 0;
        while slot < GENERATED_CONNECTORS
            invariant
                slot <= GENERATED_CONNECTORS,
                inputs.len() == slot,
                outputs.len() == slot,
                forall|k: int| 0 <= k < slot ==> inputs[k]@ == input_id(index as nat, k as nat),
                forall|k: int| 0 <= k < slot ==> outputs[k]@ == output_id(index as nat, k as nat),
            decreases GENERATED_CONNECTORS - slot,
        {
            inputs.push(NodeInput { id: input_id_text(index as u64, slot as u64) });
            outputs.push(NodeOutput { id: output_id_text(index as u64, slot as u64) });
            slot += 1;
        }
        let node = Node {
            id,
            title,
            x: 0,
            y: (NODE_HEIGHT + NODE_GAP) * (index as StandardUnit),
            color: String::from_str(NODE_COLOR),
            inputs,
            outputs,
        };
        assert(node@.inputs =~= generated_node(index as nat, id@).inputs);
        assert(node@.outputs =~= generated_node(index as nat, id@).outputs);
        node
    }

    /// Whether one of this node's inputs has the given id.
    pub fn has_input(&self, id: &StandardId) -> (found: bool)
        ensures
            found == self@.inputs.contains(id@),
    {
        let mut i: usize = 0;
        while i < self.inputs.len()
            invariant
                i <= self.inputs.len(),
                forall|j: int| 0 <= j < i ==> self@.inputs[j] != id@,
            decreases self.inputs.len() - i,
        {
            if self.inputs[i].id == *id {
                assert(self@.inputs[i as int] == id@);
                return true;
            }
            i += 1;
        }
        false
    }

    /// Whether one of this node's outputs has the given id.
    pub fn has_output(&self, id: &StandardId) -> (found: bool)
        ensures
            found == self@.outputs.contains(id@),
    {
        let mut i: usize = 0;
        while i < self.outputs.len()
            invariant
                i <= self.outputs.len(),
                forall|j: int| 0 <= j < i ==> self@.outputs[j] != id@,
            decreases self.outputs.len() - i,
        {
            if self.outputs[i].id == *id {
                assert(self@.outputs[i as int] == id@);
                return true;
            }
            i += 1;
        }
        false
    }
}

} // verus!
