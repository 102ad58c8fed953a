use vstd::prelude::*;

use crate::quoting::{debug_quoted, quote};
use crate::shape::{shape_token, NodeShape};

verus! {

/// A node as plain values: its id, its label if it has one, and its shape.
pub struct NodeView {
    pub id: Seq<char>,
    pub label: Option<Seq<char>>,
    pub shape: NodeShape,
}

/// An edge as plain values: the ids of its two ends.
pub struct EdgeView {
    pub from: Seq<char>,
    pub to: Seq<char>,
}

/// A graph as plain values, nodes and edges in the order they were added.
pub struct GraphView {
    pub name: Seq<char>,
    pub is_directed: bool,
    pub nodes: Seq<NodeView>,
    pub edges: Seq<EdgeView>,
}

/// `label="..."` when there is a label, else nothing.
pub open spec fn label_attr(label: Option<Seq<char>>) -> Seq<char> {
    match label {
        Some(l) => "label="@ + debug_quoted(l),
        None => Seq::empty(),
    }
}

/// `shape=...` when the shape is not the baseline one, else nothing.
pub open spec fn shape_attr(shape: NodeShape) -> Seq<char> {
    if shape == NodeShape::Ellipse {
        Seq::empty()
    } else {
        "shape="@ + shape_token(shape)
    }
}

/// The attributes of a node, separated by a comma and a space where both
/// are present.
pub open spec fn attr_list(n: NodeView) -> Seq<char> {
    if n.label is Some && n.shape != NodeShape::Ellipse {
        label_attr(n.label) + ", "@ + shape_attr(n.shape)
    } else {
        label_attr(n.label) + shape_attr(n.shape)
    }
}

/// The line that declares a node.
pub open spec fn node_record(n: NodeView) -> Seq<char> {
    "  "@ + debug_quoted(n.id) + "["@ + attr_list(n) + "];\n"@
}

/// `->` in a directed graph, `--` in an undirected one.
pub open spec fn connector(is_directed: bool) -> Seq<char> {
    if is_directed {
        "->"@
    } else {
        "--"@
    }
}

/// The line that declares an edge.
pub open spec fn edge_record(e: EdgeView, is_directed: bool) -> Seq<char> {
    "  "@ + debug_quoted(e.from) + " "@ + connector(is_directed) + " "@ + debug_quoted(e.to)
        + ";\n"@
}

/// The records of the nodes, one after another.
pub open spec fn nodes_text(ns: Seq<NodeView>) -> Seq<char>
    decreases ns.len(),
{
    if ns.len() == 0 {
        Seq::empty()
    } else {
        nodes_text(ns.drop_last()) + node_record(ns.last())
    }
}

/// The records of the edges, one after another.
pub open spec fn edges_text(es: Seq<EdgeView>, is_directed: bool) -> Seq<char>
    decreases es.len(),
{
    if es.len() == 0 {
        Seq::empty()
    } else {
        edges_text(es.drop_last(), is_directed) + edge_record(es.last(), is_directed)
    }
}

/// `digraph` for a directed graph, `graph` for an undirected one.
pub open spec fn graph_keyword(is_directed: bool) -> Seq<char> {
    if is_directed {
        "digraph"@
    } else {
        "graph"@
    }
}

/// The first line: keyword, quoted name, opening brace.
pub open spec fn header_line(g: GraphView) -> Seq<char> {
    graph_keyword(g.is_directed) + " "@ + debug_quoted(g.name) + " {\n"@
}

/// The whole DOT text of a graph.
pub open spec fn dot_text(g: GraphView) -> Seq<char> {
    header_line(g) + nodes_text(g.nodes) + edges_text(g.edges, g.is_directed) + "}\n"@
}

/// A node: an id, an optional label and a shape.
#[derive(Debug)]
pub struct Node {
    id: String,
    label: Option<String>,
    shape: NodeShape,
}

impl View for Node {
    type V = NodeView;

    closed spec fn view(&self) -> NodeView {
        NodeView {
            id: self.id@,
            label: match self.label {
                Some(l) => Some(l@),
                None => None,
            },
            shape: self.shape,
        }
    }
}

impl Node {
    /// A node with no label and the baseline shape.
    pub fn new(id: &str) -> (r: Node)
        ensures
            r@ == (NodeView { id: id@, label: None, shape: NodeShape::Ellipse }),
    {
        Node { id: id.to_owned(), label: None, shape: NodeShape::default() }
    }

    /// The same node with `label` as its label.
    pub fn with_label(self, label: String) -> (r: Node)
        ensures
            r@ == (NodeView { label: Some(label@), ..self@ }),
    {
        let mut n = self;
        n.label = Some(label);
        n
    }

    /// The same node with `shape` as its shape.
    pub fn shape(self, shape: NodeShape) -> (r: Node)
        ensures
            r@ == (NodeView { shape: shape, ..self@ }),
    {
        let mut n = self;
        n.shape = shape;
        n
    }

    /// Sets the label in place and hands the node back for further calls.
    pub fn set_lable(&mut self, label: &str) -> (r: &mut Node)
        ensures
            r@ == (NodeView { label: Some(label@), ..old(self)@ }),
            final(self)@ == final(r)@,
    {
        self.label = Some(label.to_owned());
        self
    }

    /// Appends the node's record to `out`.
    pub fn write(&self, out: &mut String)
        ensures
            final(out)@ == old(out)@ + node_record(self@),
    {
        let id = quote(self.id.as_str());
        out.append("  ");
        out.append(id.as_str());
        out.append("[");
        let mut delim: &str = "";
        if let Some(label) = &self.label {
            let l = quote(label.as_str());
            out.append("label=");
            out.append(l.as_str());
            delim = ", ";
        }
        if NodeShape::default() != self.shape {
            out.append(delim);
            out.append("shape=");
            out.append(self.shape.token());
        }
        out.append("];\n");
        proof {
            reveal_strlit("");
        }
        assert(out@ =~= old(out)@ + node_record(self@));
    }
}

/// An edge between two nodes, named by their ids. Nothing ties the ids to
/// nodes of a graph.
#[derive(Debug)]
pub struct Edge {
    from_node_id: String,
    to_node_id: String,
}

impl View for Edge {
    type V = EdgeView;

    closed spec fn view(&self) -> EdgeView {
        EdgeView { from: self.from_node_id@, to: self.to_node_id@ }
    }
}

impl Edge {
    pub fn new(from: &str, to: &str) -> (r: Edge)
        ensures
            r@ == (EdgeView { from: from@, to: to@ }),
    {
        Edge { from_node_id: from.to_owned(), to_node_id: to.to_owned() }
    }

    /// Appends the edge's record to `out`.
    pub fn write(&self, out: &mut String, is_directed: bool)
        ensures
            final(out)@ == old(out)@ + edge_record(self@, is_directed),
    {
        let edge_type = if is_directed {
            "->"
        } else {
            "--"
        };
        let from = quote(self.from_node_id.as_str());
        let to = quote(self.to_node_id.as_str());
        out.append("  ");
        out.append(from.as_str());
        out.append(" ");
        out.append(edge_type);
        out.append(" ");
        out.append(to.as_str());
        out.append(";\n");
        assert(out@ =~= old(out)@ + edge_record(self@, is_directed));
    }
}


/// Graph-wide settings.
#[derive(Debug)]
pub struct GraphProperties {
    pub is_directed: bool,
}

impl Default for GraphProperties {
    fn default() -> (r: GraphProperties)
        ensures
            !r.is_directed,
    {
        GraphProperties { is_directed: false }
    }
}

/// A named graph: settings, then nodes and edges in the order they were added.
#[derive(Debug)]
pub struct Graph {
    name: String,
    properties: GraphProperties,
    nodes: Vec<Node>,
    edges: Vec<Edge>,
}

impl View for Graph {
    type V = GraphView;

    closed spec fn view(&self) -> GraphView {
        GraphView {
            name: self.name@,
            is_directed: self.properties.is_directed,
            nodes: self.nodes@.map_values(|n: Node| n@),
            edges: self.edges@.map_values(|e: Edge| e@),
        }
    }
}

impl Graph {
    /// An undirected graph with no nodes and no edges.
    pub fn new(name: &str) -> (r: Graph)
        ensures
            r@ == (GraphView {
                name: name@,
                is_directed: false,
                nodes: Seq::empty(),
                edges: Seq::empty(),
            }),
    {
        let r = Graph {
            name: name.to_owned(),
            properties: GraphProperties::default(),
            nodes: Vec::new(),
            edges: Vec::new(),
        };
        assert(r@.nodes =~= Seq::empty());
        assert(r@.edges =~= Seq::empty());
        r
    }

    /// Appends `node` after the nodes already there.
    pub fn add_node(&mut self, node: Node)
        ensures
            final(self)@ == (GraphView { nodes: old(self)@.nodes.push(node@), ..old(self)@ }),
    {
        self.nodes.push(node);
        assert(self@.nodes =~= old(self)@.nodes.push(node@));
    }

    /// Appends `edge` after the edges already there.
    pub fn add_edge(&mut self, edge: Edge)
        ensures
            final(self)@ == (GraphView { edges: old(self)@.edges.push(edge@), ..old(self)@ }),
    {
        self.edges.push(edge);
        assert(self@.edges =~= old(self)@.edges.push(edge@));
    }

    /// The graph's settings, to change in place.
    pub fn properties_mut(&mut self) -> (r: &mut GraphProperties)
        ensures
            r.is_directed == old(self)@.is_directed,
            final(self)@ == (GraphView { is_directed: final(r).is_directed, ..old(self)@ }),
    {
        &mut self.properties
    }

    /// Appends the graph's DOT text to `out`: the header, each node's record,
    /// each edge's record, then the closing brace.
    pub fn write_as_dot(&self, out: &mut String)
        ensures
            final(out)@ == old(out)@ + dot_text(self@),
    {
        let is_directed = self.properties.is_directed;
        let graph_type = if is_directed {
            "digraph"
        } else {
            "graph"
        };
        let name = quote(self.name.as_str());
        out.append(graph_type);
        out.append(" ");
        out.append(name.as_str());
        out.append(" {\n");
        assert(out@ =~= old(out)@ + header_line(self@));
        let ghost g = self@;
        let mut i: usize = 0;
        while i < self.nodes.len()
            invariant
                g == self@,
                i <= self.nodes.len(),
                out@ == old(out)@ + header_line(g) + nodes_text(g.nodes.take(i as int)),
            decreases self.nodes.len() - i,
        {
            self.nodes[i].write(out);
            assert(g.nodes.take(i + 1).drop_last() =~= g.nodes.take(i as int));
            i += 1;
        }
        assert(g.nodes.take(i as int) =~= g.nodes);
        let mut j: usize = 0;
        while j < self.edges.len()
            invariant
                g == self@,
                is_directed == g.is_directed,
                j <= self.edges.len(),
                out@ == old(out)@ + header_line(g) + nodes_text(g.nodes) + edges_text(
                    g.edges.take(j as int),
                    is_directed,
                ),
            decreases self.edges.len() - j,
        {
            self.edges[j].write(out, is_directed);
            assert(g.edges.take(j + 1).drop_last() =~= g.edges.take(j as int));
            j += 1;
        }
        assert(g.edges.take(j as int) =~= g.edges);
        out.append("}\n");
        assert(out@ =~= old(out)@ + dot_text(g));
    }
}

} // verus!
