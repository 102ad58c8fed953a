use vstd::prelude::*;

verus! {

/// The shape a renderer draws for a node. `Ellipse` is the baseline and is
/// never written out as an attribute.
#[derive(Clone, Copy, Debug, PartialEq, Eq, Structural)]
pub enum NodeShape {
    Ellipse,
    Box,
    Circle,
    DoubleCircle,
    Diamond,
    Egg,
    Oval,
    Point,
    Plain,
    PlainText,
    Polygon,
    Rectangle,
    Square,
    Triangle,
    Pentagon,
    Hexagon,
    Octagon,
    Star,
    Cylinder,
    Note,
    Tab,
    Folder,
    Underline,
    Record,
    NoOutline,
}

/// The lowercase word that DOT uses for a shape.
pub open spec fn shape_token(s: NodeShape) -> Seq<char> {
    match s {
        NodeShape::Ellipse => "ellipse"@,
        NodeShape::Box => "box"@,
        NodeShape::Circle => "circle"@,
        NodeShape::DoubleCircle => "doublecircle"@,
        NodeShape::Diamond => "diamond"@,
        NodeShape::Egg => "egg"@,
        NodeShape::Oval => "oval"@,
        NodeShape::Point => "point"@,
        NodeShape::Plain => "plain"@,
        NodeShape::PlainText => "plaintext"@,
        NodeShape::Polygon => "polygon"@,
        NodeShape::Rectangle => "rectangle"@,
        NodeShape::Square => "square"@,
        NodeShape::Triangle => "triangle"@,
        NodeShape::Pentagon => "pentagon"@,
        NodeShape::Hexagon => "hexagon"@,
        NodeShape::Octagon => "octagon"@,
        NodeShape::Star => "star"@,
        NodeShape::Cylinder => "cylinder"@,
        NodeShape::Note => "note"@,
        NodeShape::Tab => "tab"@,
        NodeShape::Folder => "folder"@,
        NodeShape::Underline => "underline"@,
        NodeShape::Record => "record"@,
        NodeShape::NoOutline => "none"@,
    }
}

impl Default for NodeShape {
    fn default() -> (r: NodeShape)
        ensures
            r == NodeShape::Ellipse,
    {
        NodeShape::Ellipse
    }
}

impl NodeShape {
    /// The DOT word for this shape.
    pub fn token(&self) -> (r: &'static str)
        ensures
            r@ == shape_token(*self),
    {
        match self {
            NodeShape::Ellipse => "ellipse",
            NodeShape::Box => "box",
            NodeShape::Circle => "circle",
            NodeShape::DoubleCircle => "doublecircle",
            NodeShape::Diamond => "diamond",
            NodeShape::Egg => "egg",
            NodeShape::Oval => "oval",
            NodeShape::Point => "point",
            NodeShape::Plain => "plain",
            NodeShape::PlainText => "plaintext",
            NodeShape::Polygon => "polygon",
            NodeShape::Rectangle => "rectangle",
            NodeShape::Square => "square",
            NodeShape::Triangle => "triangle",
            NodeShape::Pentagon => "pentagon",
            NodeShape::Hexagon => "hexagon",
            NodeShape::Octagon => "octagon",
            NodeShape::Star => "star",
            NodeShape::Cylinder => "cylinder",
            NodeShape::Note => "note",
            NodeShape::Tab => "tab",
            NodeShape::Folder => "folder",
            NodeShape::Underline => "underline",
            NodeShape::Record => "record",
            NodeShape::NoOutline => "none",
        }
    }
}

} // verus!
