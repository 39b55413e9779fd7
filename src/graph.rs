//! The node-graph store: an arena of nodes with stable identities and a set of
//! wires from output pins to input pins, kept in an `egui_snarl::Snarl`.
use crate::nodes::Node;
use egui_snarl::{InPinId, NodeId, OutPinId, Snarl};
use tufa::export::egui::Pos2;
use vstd::prelude::*;

verus! {

#[verifier::external_type_specification]
#[verifier::external_body]
#[verifier::reject_recursive_types(T)]
pub struct ExSnarl<T>(Snarl<T>);

#[verifier::external_type_specification]
#[verifier::external_body]
pub struct ExPos2(Pos2);

#[verifier::external_type_specification]
pub struct ExNodeId(NodeId);

#[verifier::external_type_specification]
pub struct ExOutPinId(OutPinId);

#[verifier::external_type_specification]
pub struct ExInPinId(InPinId);

/// A wire as plain values: (source node, output index, destination node, input index).
pub type Wire = (usize, usize, usize, usize);

/// The nodes held by a graph, by identity.
pub uninterp spec fn snarl_nodes(s: Snarl<Node>) -> Map<usize, Node>;

/// The wires held by a graph.
pub uninterp spec fn snarl_wires(s: Snarl<Node>) -> Set<Wire>;

pub open spec fn wire_of(from: OutPinId, to: InPinId) -> Wire {
    (from.node.0, from.output, to.node.0, to.input)
}

pub open spec fn ends_at(w: Wire, to: InPinId) -> bool {
    w.2 == to.node.0 && w.3 == to.input
}

pub open spec fn touches(w: Wire, id: usize) -> bool {
    w.0 == id || w.2 == id
}

/// The wires left after every wire into `to` is dropped.
pub open spec fn without_input(ws: Set<Wire>, to: InPinId) -> Set<Wire> {
    ws.filter(|w: Wire| !ends_at(w, to))
}

/// The wires left after every wire touching node `id` is dropped.
pub open spec fn without_node(ws: Set<Wire>, id: usize) -> Set<Wire> {
    ws.filter(|w: Wire| !touches(w, id))
}

/// The wires after `from` is connected to `to`, replacing what fed `to` before.
pub open spec fn connected(ws: Set<Wire>, from: OutPinId, to: InPinId) -> Set<Wire> {
    without_input(ws, to).insert(wire_of(from, to))
}

/// The output pins, as (node, index), that feed input pin (`node`, `input`).
pub open spec fn sources(ws: Set<Wire>, node: usize, input: usize) -> Set<(usize, usize)> {
    Set::new(|p: (usize, usize)| ws.contains((p.0, p.1, node, input)))
}

/// A well-formed graph: finitely many nodes and wires, every wire between
/// present nodes, and at most one wire into each input pin.
pub open spec fn graph_wf(s: Snarl<Node>) -> bool {
    let nodes = snarl_nodes(s);
    let ws = snarl_wires(s);
    &&& nodes.dom().finite()
    &&& ws.finite()
    &&& forall|w: Wire| #[trigger] ws.contains(w) ==> nodes.contains_key(w.0) && nodes.contains_key(w.2)
    &&& forall|a: Wire, b: Wire|
        #[trigger] ws.contains(a) && #[trigger] ws.contains(b) && a.2 == b.2 && a.3 == b.3 ==> a == b
}

/// Relies on Snarl::new: a graph with no nodes and no wires.
#[verifier::external_body]
fn snarl_new() -> (r: Snarl<Node>)
    ensures
        snarl_nodes(r).dom() == Set::<usize>::empty(),
        snarl_wires(r) == Set::<Wire>::empty(),
{
    Snarl::new()
}

/// Relies on Snarl::insert_node: the node is stored under a key of the slab that
/// was vacant, and the wires are untouched.
#[verifier::external_body]
fn snarl_insert(s: &mut Snarl<Node>, pos: Pos2, node: Node) -> (r: NodeId)
    ensures
        !snarl_nodes(*old(s)).contains_key(r.0),
        snarl_nodes(*final(s)) == snarl_nodes(*old(s)).insert(r.0, node),
        snarl_wires(*final(s)) == snarl_wires(*old(s)),
{
    s.insert_node(pos, node)
}

/// Relies on Snarl::remove_node: the node leaves the slab and every wire that
/// touches it is dropped; it panics on an absent node.
#[verifier::external_body]
fn snarl_remove(s: &mut Snarl<Node>, id: NodeId) -> (r: Node)
    requires
        snarl_nodes(*old(s)).contains_key(id.0),
    ensures
        r == snarl_nodes(*old(s))[id.0],
        snarl_nodes(*final(s)) == snarl_nodes(*old(s)).remove(id.0),
        snarl_wires(*final(s)) == without_node(snarl_wires(*old(s)), id.0),
{
    s.remove_node(id)
}

/// Relies on Snarl::connect: the wire joins the set; it panics unless both
/// nodes are present.
#[verifier::external_body]
fn snarl_connect(s: &mut Snarl<Node>, from: OutPinId, to: InPinId) -> (r: bool)
    requires
        snarl_nodes(*old(s)).contains_key(from.node.0),
        snarl_nodes(*old(s)).contains_key(to.node.0),
    ensures
        r == !snarl_wires(*old(s)).contains(wire_of(from, to)),
        snarl_nodes(*final(s)) == snarl_nodes(*old(s)),
        snarl_wires(*final(s)) == snarl_wires(*old(s)).insert(wire_of(from, to)),
{
    s.connect(from, to)
}

/// Relies on Snarl::drop_inputs: every wire into the pin is dropped; it panics
/// on an absent node.
#[verifier::external_body]
fn snarl_drop_inputs(s: &mut Snarl<Node>, to: InPinId) -> (r: usize)
    requires
        snarl_nodes(*old(s)).contains_key(to.node.0),
    ensures
        snarl_nodes(*final(s)) == snarl_nodes(*old(s)),
        snarl_wires(*final(s)) == without_input(snarl_wires(*old(s)), to),
{
    s.drop_inputs(to)
}

/// Relies on Snarl::get_node: the node stored under the identity, if any.
#[verifier::external_body]
fn snarl_get(s: &Snarl<Node>, id: NodeId) -> (r: Option<Node>)
    ensures
        r == (if snarl_nodes(*s).contains_key(id.0) {
            Some(snarl_nodes(*s)[id.0])
        } else {
            None
        }),
{
    s.get_node(id).copied()
}

/// Relies on Snarl's `IndexMut`: replaces the stored node; it panics on an
/// absent node.
#[verifier::external_body]
pub(crate) fn snarl_set(s: &mut Snarl<Node>, id: NodeId, node: Node)
    requires
        snarl_nodes(*old(s)).contains_key(id.0),
    ensures
        snarl_nodes(*final(s)) == snarl_nodes(*old(s)).insert(id.0, node),
        snarl_wires(*final(s)) == snarl_wires(*old(s)),
{
    s[id] = node;
}

/// Relies on Snarl::node_ids: it yields each stored node once.
#[verifier::external_body]
fn snarl_node_count(s: &Snarl<Node>) -> (r: usize)
    ensures
        r == snarl_nodes(*s).dom().len(),
{
    s.node_ids().count()
}

/// Relies on Snarl::wires: it yields each wire of the set once.
#[verifier::external_body]
fn snarl_wire_count(s: &Snarl<Node>) -> (r: usize)
    ensures
        r == snarl_wires(*s).len(),
{
    s.wires().count()
}

/// Relies on Snarl::in_pin: `remotes` lists the output pins wired into the pin,
/// each once.
#[verifier::external_body]
fn snarl_in_remotes(s: &Snarl<Node>, to: InPinId) -> (r: Vec<OutPinId>)
    ensures
        forall|o: OutPinId| r@.contains(o) <==> snarl_wires(*s).contains(wire_of(o, to)),
{
    s.in_pin(to).remotes
}

/// Inserting a node under a fresh identity and then removing that identity
/// gives back the nodes and wires the graph had before.
pub proof fn lemma_insert_then_remove(s: Snarl<Node>, id: usize, node: Node)
    requires
        graph_wf(s),
        !snarl_nodes(s).contains_key(id),
    ensures
        snarl_nodes(s).insert(id, node).remove(id) == snarl_nodes(s),
        without_node(snarl_wires(s), id) == snarl_wires(s),
{
    assert(snarl_nodes(s).insert(id, node).remove(id) =~= snarl_nodes(s));
    assert(without_node(snarl_wires(s), id) =~= snarl_wires(s));
}

/// Connecting two sources in turn to one input pin leaves exactly one wire
/// into it, from the second source, and the rest as one connection would.
pub proof fn lemma_connect_twice(ws: Set<Wire>, first: OutPinId, second: OutPinId, to: InPinId)
    ensures
        sources(connected(connected(ws, first, to), second, to), to.node.0, to.input) == set![
            (second.node.0, second.output)],
        connected(connected(ws, first, to), second, to) == connected(ws, second, to),
{
    let twice = connected(connected(ws, first, to), second, to);
    assert(sources(twice, to.node.0, to.input) =~= set![(second.node.0, second.output)]);
    assert(twice =~= connected(ws, second, to));
}

/// Removing a node drops exactly the wires that touch it, and keeps every
/// other wire: the count drops by the number of wires touching it.
pub proof fn lemma_remove_drops_touching(ws: Set<Wire>, id: usize)
    requires
        ws.finite(),
    ensures
        forall|w: Wire| #[trigger] without_node(ws, id).contains(w) <==> ws.contains(w) && !touches(w, id),
        ws.len() == without_node(ws, id).len() + ws.filter(|w: Wire| touches(w, id)).len(),
{
    let kept = without_node(ws, id);
    let gone = ws.filter(|w: Wire| touches(w, id));
    assert(kept.disjoint(gone));
    assert(kept + gone =~= ws);
    vstd::set_lib::lemma_set_disjoint_lens(kept, gone);
}

/// An empty graph.
pub fn new_graph() -> (r: Snarl<Node>)
    ensures
        graph_wf(r),
        snarl_nodes(r).dom() == Set::<usize>::empty(),
        snarl_wires(r) == Set::<Wire>::empty(),
{
    snarl_new()
}

/// Stores `node` at canvas position `pos` under a fresh identity. Identities of
/// the nodes already present are unaffected.
pub fn insert(s: &mut Snarl<Node>, pos: Pos2, node: Node) -> (r: NodeId)
    requires
        graph_wf(*old(s)),
    ensures
        graph_wf(*final(s)),
        !snarl_nodes(*old(s)).contains_key(r.0),
        snarl_nodes(*final(s)) == snarl_nodes(*old(s)).insert(r.0, node),
        snarl_wires(*final(s)) == snarl_wires(*old(s)),
{
    snarl_insert(s, pos, node)
}

/// Removes a node and every wire touching it, whatever its kind, and returns it.
pub fn remove(s: &mut Snarl<Node>, id: NodeId) -> (r: Node)
    requires
        graph_wf(*old(s)),
        snarl_nodes(*old(s)).contains_key(id.0),
    ensures
        graph_wf(*final(s)),
        r == snarl_nodes(*old(s))[id.0],
        snarl_nodes(*final(s)) == snarl_nodes(*old(s)).remove(id.0),
        snarl_wires(*final(s)) == without_node(snarl_wires(*old(s)), id.0),
{
    snarl_remove(s, id)
}

/// Wires output pin `from` into input pin `to`, replacing the wire that fed
/// `to` before, if any. Pin value types are not checked.
pub fn connect(s: &mut Snarl<Node>, from: OutPinId, to: InPinId)
    requires
        graph_wf(*old(s)),
        snarl_nodes(*old(s)).contains_key(from.node.0),
        snarl_nodes(*old(s)).contains_key(to.node.0),
    ensures
        graph_wf(*final(s)),
        snarl_nodes(*final(s)) == snarl_nodes(*old(s)),
        snarl_wires(*final(s)) == connected(snarl_wires(*old(s)), from, to),
{
    snarl_drop_inputs(s, to);
    snarl_connect(s, from, to);
}

/// Drops the wire into input pin `to`, if there is one.
pub fn disconnect(s: &mut Snarl<Node>, to: InPinId)
    requires
        graph_wf(*old(s)),
    ensures
        graph_wf(*final(s)),
        snarl_nodes(*final(s)) == snarl_nodes(*old(s)),
        snarl_wires(*final(s)) == without_input(snarl_wires(*old(s)), to),
{
    match snarl_get(s, to.node) {
        Some(_) => {
            snarl_drop_inputs(s, to);
        },
        None => {
            assert(without_input(snarl_wires(*s), to) =~= snarl_wires(*s));
        },
    }
}

/// The node stored under `id`, if any.
pub fn node(s: &Snarl<Node>, id: NodeId) -> (r: Option<Node>)
    ensures
        r == (if snarl_nodes(*s).contains_key(id.0) {
            Some(snarl_nodes(*s)[id.0])
        } else {
            None
        }),
{
    snarl_get(s, id)
}

/// Number of nodes in the graph.
pub fn node_count(s: &Snarl<Node>) -> (r: usize)
    ensures
        r == snarl_nodes(*s).dom().len(),
{
    snarl_node_count(s)
}

/// Number of wires in the graph.
pub fn wire_count(s: &Snarl<Node>) -> (r: usize)
    ensures
        r == snarl_wires(*s).len(),
{
    snarl_wire_count(s)
}

/// The output pin wired into input pin `to`, if any.
pub fn source_of(s: &Snarl<Node>, to: InPinId) -> (r: Option<OutPinId>)
    requires
        graph_wf(*s),
    ensures
        match r {
            Some(o) => snarl_wires(*s).contains(wire_of(o, to)),
            None => forall|o: OutPinId| !snarl_wires(*s).contains(#[trigger] wire_of(o, to)),
        },
{
    let remotes = snarl_in_remotes(s, to);
    if remotes.len() == 0 {
        proof {
            assert forall|o: OutPinId| !snarl_wires(*s).contains(#[trigger] wire_of(o, to)) by {
                if snarl_wires(*s).contains(wire_of(o, to)) {
                    assert(remotes@.contains(o));
                }
            }
        }
        None
    } else {
        let o = remotes[0];
        assert(remotes@.contains(o));
        Some(o)
    }
}

} // verus!
