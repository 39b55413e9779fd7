//! The node viewer acting on a graph: pin styles, header colours, and the
//! graph, node and body actions that change the graph.
use crate::graph::{graph_wf, insert, node, remove, snarl_nodes, snarl_set, snarl_wires, without_node};
use crate::nodes::{
    graph_menu_items, has_body_of, header_of, input_count, input_pin, output_count, output_pin,
    removable, Node, NodeViewer, PinStyle, Rgb,
};
use egui_snarl::{InPinId, NodeId, OutPinId, Snarl};
use tufa::export::egui::Pos2;
use vstd::prelude::*;

verus! {

/// The node stored under `id` in a graph that holds it.
fn present(s: &Snarl<Node>, id: NodeId) -> (r: Node)
    requires
        snarl_nodes(*s).contains_key(id.0),
    ensures
        r == snarl_nodes(*s)[id.0],
{
    match node(s, id) {
        Some(n) => n,
        None => {
            assert(false);
            Node::Output
        },
    }
}

impl NodeViewer {
    /// Style of an input pin of a node of the graph.
    pub fn show_input(&mut self, pin: &InPinId, snarl: &Snarl<Node>) -> (r: PinStyle)
        requires
            snarl_nodes(*snarl).contains_key(pin.node.0),
            pin.input < input_count(snarl_nodes(*snarl)[pin.node.0]),
        ensures
            input_pin(snarl_nodes(*snarl)[pin.node.0], pin.input as int) == Some(
                (r.value_type, r.label@),
            ),
    {
        let n = present(snarl, pin.node);
        self.input_style(&n, pin.input)
    }

    /// Style of an output pin of a node of the graph.
    pub fn show_output(&mut self, pin: &OutPinId, snarl: &Snarl<Node>) -> (r: PinStyle)
        requires
            snarl_nodes(*snarl).contains_key(pin.node.0),
            pin.output < output_count(snarl_nodes(*snarl)[pin.node.0]),
        ensures
            output_pin(snarl_nodes(*snarl)[pin.node.0], pin.output as int) == Some(r.value_type),
            r.label@ == ""@,
    {
        let n = present(snarl, pin.node);
        self.output_style(&n)
    }

    /// Runs entry `choice` of the graph menu: inserts its node at `pos`.
    pub fn show_graph_menu(&mut self, pos: Pos2, choice: usize, snarl: &mut Snarl<Node>) -> (r: NodeId)
        requires
            graph_wf(*old(snarl)),
            choice < graph_menu_items().len(),
        ensures
            graph_wf(*final(snarl)),
            !snarl_nodes(*old(snarl)).contains_key(r.0),
            snarl_nodes(*final(snarl)) == snarl_nodes(*old(snarl)).insert(
                r.0,
                graph_menu_items()[choice as int],
            ),
            snarl_wires(*final(snarl)) == snarl_wires(*old(snarl)),
    {
        let items = self.graph_menu();
        insert(snarl, pos, items[choice])
    }

    /// Whether the node menu of node `id` offers to remove it.
    pub fn show_node_menu(&mut self, id: NodeId, snarl: &Snarl<Node>) -> (r: bool)
        requires
            snarl_nodes(*snarl).contains_key(id.0),
        ensures
            r == removable(snarl_nodes(*snarl)[id.0]),
    {
        let n = present(snarl, id);
        self.offers_remove(&n)
    }

    /// The node menu's removal: removes node `id` with its wires unless it is an
    /// output node or absent, and says whether it did.
    pub fn remove_node(&mut self, id: NodeId, snarl: &mut Snarl<Node>) -> (r: bool)
        requires
            graph_wf(*old(snarl)),
        ensures
            graph_wf(*final(snarl)),
            r == (snarl_nodes(*old(snarl)).contains_key(id.0) && removable(
                snarl_nodes(*old(snarl))[id.0],
            )),
            r ==> snarl_nodes(*final(snarl)) == snarl_nodes(*old(snarl)).remove(id.0)
                && snarl_wires(*final(snarl)) == without_node(snarl_wires(*old(snarl)), id.0),
            !r ==> *final(snarl) == *old(snarl),
    {
        match node(snarl, id) {
            Some(n) => {
                if self.offers_remove(&n) {
                    remove(snarl, id);
                    true
                } else {
                    false
                }
            },
            None => false,
        }
    }

    /// The body editor: stores `value`, the bit pattern of a single-precision
    /// number, in constant node `id`, exactly as given.
    pub fn show_body(&mut self, id: NodeId, value: u32, snarl: &mut Snarl<Node>)
        requires
            graph_wf(*old(snarl)),
            snarl_nodes(*old(snarl)).contains_key(id.0),
            has_body_of(snarl_nodes(*old(snarl))[id.0]),
        ensures
            graph_wf(*final(snarl)),
            snarl_nodes(*final(snarl)) == snarl_nodes(*old(snarl)).insert(id.0, Node::Constant(value)),
            snarl_wires(*final(snarl)) == snarl_wires(*old(snarl)),
    {
        snarl_set(snarl, id, Node::Constant(value));
    }

    /// Header colour of node `id`.
    pub fn header_frame(&mut self, id: NodeId, snarl: &Snarl<Node>) -> (r: Rgb)
        requires
            snarl_nodes(*snarl).contains_key(id.0),
        ensures
            r == header_of(snarl_nodes(*snarl)[id.0]),
    {
        let n = present(snarl, id);
        self.header_color(&n)
    }
}

} // verus!
