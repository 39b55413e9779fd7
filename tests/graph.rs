use egui_snarl::{InPinId, NodeId, OutPinId, Snarl};
use sdf_nodes::{
    connect, disconnect, insert, new_graph, node, node_count, remove, source_of, toggle_capture,
    wire_count, Node, NodeViewer, PinShape, PrimitiveType, Rgb, ValueType,
};
use tufa::export::egui::pos2;

fn out_pin(node: NodeId, output: usize) -> OutPinId {
    OutPinId { node, output }
}

fn in_pin(node: NodeId, input: usize) -> InPinId {
    InPinId { node, input }
}

fn all_kinds() -> Vec<Node> {
    vec![
        Node::Primitive { ty: PrimitiveType::Sphere },
        Node::Primitive { ty: PrimitiveType::Square },
        Node::Mix,
        Node::Output,
        Node::Constant(0),
        Node::Time,
    ]
}

#[test]
fn primitive_names() {
    assert_eq!(PrimitiveType::Sphere.name(), "Sphere");
    assert_eq!(PrimitiveType::Square.name(), "Square");
}

#[test]
fn titles_of_every_kind() {
    let mut v = NodeViewer;
    let titles: Vec<String> = all_kinds().iter().map(|n| v.title(n)).collect();
    assert_eq!(titles, vec!["Sphere", "Square", "Mix", "Output", "Constant", "Time"]);
}

#[test]
fn arity_matches_kind_table() {
    let mut v = NodeViewer;
    let counts: Vec<(usize, usize)> =
        all_kinds().iter().map(|n| (v.inputs(n), v.outputs(n))).collect();
    assert_eq!(counts, vec![(0, 1), (0, 1), (3, 1), (1, 0), (0, 1), (0, 1)]);
}

#[test]
fn every_in_range_pin_has_a_style() {
    let mut v = NodeViewer;
    for n in all_kinds() {
        for i in 0..v.inputs(&n) {
            let _ = v.input_style(&n, i);
        }
        if v.outputs(&n) > 0 {
            let _ = v.output_style(&n);
        }
    }
    let a = v.input_style(&Node::Mix, 0);
    let b = v.input_style(&Node::Mix, 1);
    let t = v.input_style(&Node::Mix, 2);
    assert_eq!((a.value_type, a.label), (ValueType::Sdf, "a"));
    assert_eq!((b.value_type, b.label), (ValueType::Sdf, "b"));
    assert_eq!((t.value_type, t.label), (ValueType::Scalar, "t"));
    let o = v.input_style(&Node::Output, 0);
    assert_eq!((o.value_type, o.label), (ValueType::Sdf, ""));
    assert_eq!(v.output_style(&Node::Mix).value_type, ValueType::Sdf);
    assert_eq!(v.output_style(&Node::Primitive { ty: PrimitiveType::Square }).value_type, ValueType::Sdf);
    assert_eq!(v.output_style(&Node::Constant(7)).value_type, ValueType::Scalar);
    assert_eq!(v.output_style(&Node::Time).value_type, ValueType::Scalar);
}

#[test]
fn pin_shapes_and_colors_follow_value_type() {
    assert_eq!(ValueType::Sdf.shape(), PinShape::Circle);
    assert_eq!(ValueType::Scalar.shape(), PinShape::Square);
    assert_eq!(ValueType::Sdf.connector_color(), Rgb { r: 0, g: 214, b: 163 });
    assert_eq!(ValueType::Scalar.connector_color(), Rgb { r: 99, g: 99, b: 199 });
}

#[test]
fn header_colors_split_shapes_from_math() {
    let mut v = NodeViewer;
    let sdf = Rgb { r: 29, g: 114, b: 94 };
    let math = Rgb { r: 36, g: 98, b: 131 };
    let colors: Vec<Rgb> = all_kinds().iter().map(|n| v.header_color(n)).collect();
    assert_eq!(colors, vec![sdf, sdf, math, sdf, math, math]);

    let mut g = new_graph();
    let mix = insert(&mut g, pos2(0.0, 0.0), Node::Mix);
    let out = insert(&mut g, pos2(1.0, 0.0), Node::Output);
    assert_eq!(v.header_frame(mix, &g), math);
    assert_eq!(v.header_frame(out, &g), sdf);
}

#[test]
fn only_constants_have_a_body() {
    let mut v = NodeViewer;
    let bodies: Vec<bool> = all_kinds().iter().map(|n| v.has_body(n)).collect();
    assert_eq!(bodies, vec![false, false, false, false, true, false]);
}

#[test]
fn graph_menu_inserts_each_kind_at_the_click() {
    let mut v = NodeViewer;
    assert!(v.has_graph_menu());
    assert_eq!(
        v.graph_menu(),
        vec![
            Node::Output,
            Node::Primitive { ty: PrimitiveType::Sphere },
            Node::Primitive { ty: PrimitiveType::Square },
            Node::Mix,
            Node::Constant(0),
            Node::Time,
        ]
    );
    let mut g = new_graph();
    let id = v.show_graph_menu(pos2(10.0, 20.0), 2, &mut g);
    assert_eq!(node(&g, id), Some(Node::Primitive { ty: PrimitiveType::Square }));
    let c = v.show_graph_menu(pos2(10.0, 20.0), 4, &mut g);
    assert_eq!(node(&g, c), Some(Node::Constant(0)));
    assert_eq!(node_count(&g), 2);
}

#[test]
fn insert_then_remove_restores_graph() {
    let mut g = new_graph();
    let a = insert(&mut g, pos2(0.0, 0.0), Node::Time);
    let b = insert(&mut g, pos2(0.0, 0.0), Node::Output);
    connect(&mut g, out_pin(a, 0), in_pin(b, 0));
    let x = insert(&mut g, pos2(5.0, 5.0), Node::Mix);
    assert_eq!(node_count(&g), 3);
    assert_eq!(remove(&mut g, x), Node::Mix);
    assert_eq!(node_count(&g), 2);
    assert_eq!(wire_count(&g), 1);
    assert_eq!(node(&g, x), None);
    assert_eq!(node(&g, a), Some(Node::Time));
    assert_eq!(node(&g, b), Some(Node::Output));
    assert_eq!(source_of(&g, in_pin(b, 0)), Some(out_pin(a, 0)));
}

#[test]
fn second_connection_replaces_first() {
    let mut g = new_graph();
    let s1 = insert(&mut g, pos2(0.0, 0.0), Node::Primitive { ty: PrimitiveType::Sphere });
    let s2 = insert(&mut g, pos2(0.0, 0.0), Node::Primitive { ty: PrimitiveType::Square });
    let mix = insert(&mut g, pos2(0.0, 0.0), Node::Mix);
    connect(&mut g, out_pin(s1, 0), in_pin(mix, 0));
    connect(&mut g, out_pin(s2, 0), in_pin(mix, 0));
    assert_eq!(wire_count(&g), 1);
    assert_eq!(source_of(&g, in_pin(mix, 0)), Some(out_pin(s2, 0)));
    assert_eq!(source_of(&g, in_pin(mix, 1)), None);
}

#[test]
fn output_fans_out_to_many_inputs() {
    let mut g = new_graph();
    let s = insert(&mut g, pos2(0.0, 0.0), Node::Primitive { ty: PrimitiveType::Sphere });
    let mix = insert(&mut g, pos2(0.0, 0.0), Node::Mix);
    connect(&mut g, out_pin(s, 0), in_pin(mix, 0));
    connect(&mut g, out_pin(s, 0), in_pin(mix, 1));
    assert_eq!(wire_count(&g), 2);
    assert_eq!(source_of(&g, in_pin(mix, 1)), Some(out_pin(s, 0)));
}

#[test]
fn removing_a_node_drops_exactly_its_wires() {
    let mut g = new_graph();
    let s1 = insert(&mut g, pos2(0.0, 0.0), Node::Primitive { ty: PrimitiveType::Sphere });
    let s2 = insert(&mut g, pos2(0.0, 0.0), Node::Primitive { ty: PrimitiveType::Square });
    let t = insert(&mut g, pos2(0.0, 0.0), Node::Time);
    let mix = insert(&mut g, pos2(0.0, 0.0), Node::Mix);
    let out = insert(&mut g, pos2(0.0, 0.0), Node::Output);
    let out2 = insert(&mut g, pos2(0.0, 0.0), Node::Output);
    connect(&mut g, out_pin(s1, 0), in_pin(mix, 0));
    connect(&mut g, out_pin(s2, 0), in_pin(mix, 1));
    connect(&mut g, out_pin(t, 0), in_pin(mix, 2));
    connect(&mut g, out_pin(mix, 0), in_pin(out, 0));
    connect(&mut g, out_pin(s1, 0), in_pin(out2, 0));
    assert_eq!(wire_count(&g), 5);
    remove(&mut g, mix);
    assert_eq!(wire_count(&g), 1);
    assert_eq!(source_of(&g, in_pin(out, 0)), None);
    assert_eq!(source_of(&g, in_pin(out2, 0)), Some(out_pin(s1, 0)));
    assert_eq!(node_count(&g), 5);
}

#[test]
fn identities_survive_other_removals() {
    let mut g = new_graph();
    let a = insert(&mut g, pos2(0.0, 0.0), Node::Constant(1));
    let b = insert(&mut g, pos2(0.0, 0.0), Node::Constant(2));
    let c = insert(&mut g, pos2(0.0, 0.0), Node::Constant(3));
    remove(&mut g, b);
    let d = insert(&mut g, pos2(0.0, 0.0), Node::Constant(4));
    assert_eq!(node(&g, a), Some(Node::Constant(1)));
    assert_eq!(node(&g, c), Some(Node::Constant(3)));
    assert_eq!(node(&g, d), Some(Node::Constant(4)));
    assert_ne!(d, a);
    assert_ne!(d, c);
}

#[test]
fn output_node_is_kept_by_node_menu() {
    let mut v = NodeViewer;
    let mut g = new_graph();
    let s = insert(&mut g, pos2(0.0, 0.0), Node::Primitive { ty: PrimitiveType::Sphere });
    let out = insert(&mut g, pos2(200.0, 0.0), Node::Output);
    connect(&mut g, out_pin(s, 0), in_pin(out, 0));
    assert!(!v.remove_node(out, &mut g));
    assert_eq!(node(&g, out), Some(Node::Output));
    assert_eq!(node_count(&g), 2);
    assert_eq!(wire_count(&g), 1);
    assert_eq!(source_of(&g, in_pin(out, 0)), Some(out_pin(s, 0)));
}

#[test]
fn node_menu_removes_other_kinds() {
    let mut v = NodeViewer;
    let mut g = new_graph();
    let s = insert(&mut g, pos2(0.0, 0.0), Node::Primitive { ty: PrimitiveType::Sphere });
    let out = insert(&mut g, pos2(200.0, 0.0), Node::Output);
    connect(&mut g, out_pin(s, 0), in_pin(out, 0));
    assert!(v.remove_node(s, &mut g));
    assert_eq!(node(&g, s), None);
    assert_eq!(wire_count(&g), 0);
    assert!(!v.remove_node(s, &mut g));
    assert_eq!(node_count(&g), 1);
}

#[test]
fn sphere_wired_to_output() {
    let mut v = NodeViewer;
    let mut g: Snarl<Node> = new_graph();
    let s = insert(&mut g, pos2(0.0, 0.0), Node::Primitive { ty: PrimitiveType::Sphere });
    let out = insert(&mut g, pos2(200.0, 0.0), Node::Output);
    connect(&mut g, out_pin(s, 0), in_pin(out, 0));
    assert_eq!(node_count(&g), 2);
    assert_eq!(wire_count(&g), 1);
    assert_eq!(source_of(&g, in_pin(out, 0)), Some(out_pin(s, 0)));
    assert!(v.has_node_menu(&Node::Output));
    assert!(!v.show_node_menu(out, &g));
    assert!(v.show_node_menu(s, &g));
    let style = v.show_input(&in_pin(out, 0), &g);
    assert_eq!(style.value_type, ValueType::Sdf);
    assert_eq!(v.show_output(&out_pin(s, 0), &g).value_type, ValueType::Sdf);
}

#[test]
fn constant_edit_reads_back_exactly() {
    let mut v = NodeViewer;
    let mut g = new_graph();
    let c = v.show_graph_menu(pos2(0.0, 0.0), 4, &mut g);
    assert_eq!(node(&g, c), Some(Node::Constant(0.0f32.to_bits())));
    v.show_body(c, 3.5f32.to_bits(), &mut g);
    match node(&g, c) {
        Some(Node::Constant(bits)) => assert_eq!(f32::from_bits(bits), 3.5),
        other => panic!("unexpected node {:?}", other),
    }
}

#[test]
fn disconnect_clears_input_and_ignores_empty_ones() {
    let mut g = new_graph();
    let t = insert(&mut g, pos2(0.0, 0.0), Node::Time);
    let mix = insert(&mut g, pos2(0.0, 0.0), Node::Mix);
    connect(&mut g, out_pin(t, 0), in_pin(mix, 2));
    disconnect(&mut g, in_pin(mix, 0));
    assert_eq!(wire_count(&g), 1);
    disconnect(&mut g, in_pin(mix, 2));
    assert_eq!(wire_count(&g), 0);
    disconnect(&mut g, in_pin(mix, 2));
    disconnect(&mut g, in_pin(NodeId(999), 0));
    assert_eq!(wire_count(&g), 0);
    assert_eq!(node_count(&g), 2);
}

#[test]
fn capture_toggle_inverts_on_press_only() {
    assert!(!toggle_capture(true, true));
    assert!(toggle_capture(false, true));
    assert!(toggle_capture(true, false));
    assert!(!toggle_capture(false, false));
    assert!(toggle_capture(toggle_capture(true, true), true));
}
