use vstd::prelude::*;

verus! {

/// The shape produced by a primitive node.
#[derive(Clone, Copy, Debug, PartialEq, Eq, Structural)]
pub enum PrimitiveType {
    Sphere,
    Square,
}

/// Display name of a primitive shape.
pub open spec fn primitive_name(ty: PrimitiveType) -> Seq<char> {
    match ty {
        PrimitiveType::Sphere => "Sphere"@,
        PrimitiveType::Square => "Square"@,
    }
}

impl PrimitiveType {
    /// The name shown for the shape, in titles and in the graph menu.
    pub fn name(&self) -> (r: &str)
        ensures
            r@ == primitive_name(*self),
    {
        match self {
            PrimitiveType::Sphere => "Sphere",
            PrimitiveType::Square => "Square",
        }
    }
}

/// A node of the scene graph.
#[derive(Clone, Copy, Debug, PartialEq, Eq, Structural)]
pub enum Node {
    Primitive { ty: PrimitiveType },
    Mix,
    Output,
    /// A scalar constant, held as the bit pattern of an IEEE-754 single-precision number.
    Constant(u32),
    Time,
}

/// What flows along a pin.
#[derive(Clone, Copy, Debug, PartialEq, Eq, Structural)]
pub enum ValueType {
    Sdf,
    Scalar,
}

/// How a pin is drawn.
#[derive(Clone, Copy, Debug, PartialEq, Eq, Structural)]
pub enum PinShape {
    Circle,
    Square,
}

/// An opaque colour, one byte per channel.
#[derive(Clone, Copy, Debug, PartialEq, Eq, Structural)]
pub struct Rgb {
    pub r: u8,
    pub g: u8,
    pub b: u8,
}

/// Header colour of nodes that produce or consume shapes.
pub open spec fn sdf_header() -> Rgb {
    Rgb { r: 29, g: 114, b: 94 }
}

/// Header colour of nodes that compute.
pub open spec fn math_header() -> Rgb {
    Rgb { r: 36, g: 98, b: 131 }
}

/// Fill of pins that carry a shape.
pub open spec fn sdf_connector() -> Rgb {
    Rgb { r: 0, g: 214, b: 163 }
}

/// Fill of pins that carry a scalar.
pub open spec fn scalar_connector() -> Rgb {
    Rgb { r: 99, g: 99, b: 199 }
}

pub open spec fn shape_of(t: ValueType) -> PinShape {
    match t {
        ValueType::Sdf => PinShape::Circle,
        ValueType::Scalar => PinShape::Square,
    }
}

pub open spec fn connector_of(t: ValueType) -> Rgb {
    match t {
        ValueType::Sdf => sdf_connector(),
        ValueType::Scalar => scalar_connector(),
    }
}

impl ValueType {
    /// The shape a pin of this type is drawn with.
    pub fn shape(&self) -> (r: PinShape)
        ensures
            r == shape_of(*self),
    {
        match self {
            ValueType::Sdf => PinShape::Circle,
            ValueType::Scalar => PinShape::Square,
        }
    }

    /// The fill a pin of this type is drawn with.
    pub fn connector_color(&self) -> (r: Rgb)
        ensures
            r == connector_of(*self),
    {
        match self {
            ValueType::Sdf => Rgb { r: 0, g: 214, b: 163 },
            ValueType::Scalar => Rgb { r: 99, g: 99, b: 199 },
        }
    }
}

/// A pin as shown: its value type and the label beside it (empty for none).
#[derive(Clone, Copy, Debug)]
pub struct PinStyle {
    pub value_type: ValueType,
    pub label: &'static str,
}

pub open spec fn title_of(n: Node) -> Seq<char> {
    match n {
        Node::Primitive { ty } => primitive_name(ty),
        Node::Mix => "Mix"@,
        Node::Output => "Output"@,
        Node::Constant(_) => "Constant"@,
        Node::Time => "Time"@,
    }
}

pub open spec fn input_count(n: Node) -> nat {
    match n {
        Node::Mix => 3,
        Node::Output => 1,
        _ => 0,
    }
}

pub open spec fn output_count(n: Node) -> nat {
    match n {
        Node::Output => 0,
        _ => 1,
    }
}

/// Value type and label of input pin `i`, where the node has one.
pub open spec fn input_pin(n: Node, i: int) -> Option<(ValueType, Seq<char>)> {
    match n {
        Node::Mix => if i == 0 {
            Some((ValueType::Sdf, "a"@))
        } else if i == 1 {
            Some((ValueType::Sdf, "b"@))
        } else if i == 2 {
            Some((ValueType::Scalar, "t"@))
        } else {
            None
        },
        Node::Output => if i == 0 {
            Some((ValueType::Sdf, ""@))
        } else {
            None
        },
        _ => None,
    }
}

/// Value type of output pin `i`, where the node has one.
pub open spec fn output_pin(n: Node, i: int) -> Option<ValueType> {
    if i != 0 {
        None
    } else {
        match n {
            Node::Primitive { .. } | Node::Mix => Some(ValueType::Sdf),
            Node::Constant(_) | Node::Time => Some(ValueType::Scalar),
            Node::Output => None,
        }
    }
}

pub open spec fn has_body_of(n: Node) -> bool {
    n is Constant
}

/// Only output nodes are kept from removal through the node menu.
pub open spec fn removable(n: Node) -> bool {
    !(n is Output)
}

pub open spec fn header_of(n: Node) -> Rgb {
    match n {
        Node::Primitive { .. } | Node::Output => sdf_header(),
        _ => math_header(),
    }
}

/// The nodes the graph menu creates, in menu order.
pub open spec fn graph_menu_items() -> Seq<Node> {
    seq![
        Node::Output,
        Node::Primitive { ty: PrimitiveType::Sphere },
        Node::Primitive { ty: PrimitiveType::Square },
        Node::Mix,
        Node::Constant(0),
        Node::Time,
    ]
}

/// Every kind has the pin counts of its kind, and an index has a pin
/// description exactly when it lies below the count for its direction.
pub proof fn lemma_pins_match_arity(n: Node)
    ensures
        input_count(n) == (match n {
            Node::Mix => 3nat,
            Node::Output => 1nat,
            _ => 0nat,
        }),
        output_count(n) == (if n is Output { 0nat } else { 1nat }),
        forall|i: int| (0 <= i < input_count(n)) <==> #[trigger] input_pin(n, i) is Some,
        forall|i: int| (0 <= i < output_count(n)) <==> #[trigger] output_pin(n, i) is Some,
{
}

/// Answers, for each kind of node, how it is titled, which pins it has and how
/// they look, whether it has a body, and what its menus offer.
pub struct NodeViewer;

impl NodeViewer {
    pub fn title(&mut self, node: &Node) -> (r: String)
        ensures
            r@ == title_of(*node),
    {
        match node {
            Node::Primitive { ty } => ty.name().to_owned(),
            Node::Mix => "Mix".to_owned(),
            Node::Output => "Output".to_owned(),
            Node::Constant(_) => "Constant".to_owned(),
            Node::Time => "Time".to_owned(),
        }
    }

    pub fn inputs(&mut self, node: &Node) -> (r: usize)
        ensures
            r == input_count(*node),
    {
        match node {
            Node::Primitive { .. } | Node::Constant(_) | Node::Time => 0,
            Node::Mix => 3,
            Node::Output => 1,
        }
    }

    pub fn outputs(&mut self, node: &Node) -> (r: usize)
        ensures
            r == output_count(*node),
    {
        match node {
            Node::Primitive { .. } | Node::Mix | Node::Constant(_) | Node::Time => 1,
            Node::Output => 0,
        }
    }

    /// Style of input pin `index` of `node`.
    pub fn input_style(&mut self, node: &Node, index: usize) -> (r: PinStyle)
        requires
            index < input_count(*node),
        ensures
            input_pin(*node, index as int) == Some((r.value_type, r.label@)),
    {
        match node {
            Node::Mix => {
                if index <= 1 {
                    let labels: [&'static str; 2] = ["a", "b"];
                    PinStyle { value_type: ValueType::Sdf, label: labels[index] }
                } else {
                    PinStyle { value_type: ValueType::Scalar, label: "t" }
                }
            },
            _ => PinStyle { value_type: ValueType::Sdf, label: "" },
        }
    }

    /// Style of the output pin of `node`.
    pub fn output_style(&mut self, node: &Node) -> (r: PinStyle)
        requires
            output_count(*node) > 0,
        ensures
            output_pin(*node, 0) == Some(r.value_type),
            r.label@ == ""@,
    {
        match node {
            Node::Constant(_) | Node::Time => PinStyle { value_type: ValueType::Scalar, label: "" },
            _ => PinStyle { value_type: ValueType::Sdf, label: "" },
        }
    }

    pub fn has_graph_menu(&mut self) -> (r: bool)
        ensures
            r,
    {
        true
    }

    /// The nodes offered by the graph menu, in menu order; each is labelled with
    /// its title.
    pub fn graph_menu(&mut self) -> (r: Vec<Node>)
        ensures
            r@ == graph_menu_items(),
    {
        let r = vec![
            Node::Output,
            Node::Primitive { ty: PrimitiveType::Sphere },
            Node::Primitive { ty: PrimitiveType::Square },
            Node::Mix,
            Node::Constant(0),
            Node::Time,
        ];
        assert(r@ =~= graph_menu_items());
        r
    }

    pub fn has_node_menu(&mut self, node: &Node) -> (r: bool)
        ensures
            r,
    {
        true
    }

    /// Whether the node menu of `node` offers to remove it.
    pub fn offers_remove(&mut self, node: &Node) -> (r: bool)
        ensures
            r == removable(*node),
    {
        !matches!(node, Node::Output)
    }

    pub fn has_body(&mut self, node: &Node) -> (r: bool)
        ensures
            r == has_body_of(*node),
    {
        matches!(node, Node::Constant(_))
    }

    /// Header colour of `node`.
    pub fn header_color(&mut self, node: &Node) -> (r: Rgb)
        ensures
            r == header_of(*node),
    {
        match node {
            Node::Primitive { .. } | Node::Output => Rgb { r: 29, g: 114, b: 94 },
            Node::Mix | Node::Constant(_) | Node::Time => Rgb { r: 36, g: 98, b: 131 },
        }
    }
}

} // verus!
