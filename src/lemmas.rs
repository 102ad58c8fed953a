use vstd::prelude::*;

use crate::graph::{
    attr_list, connector, dot_text, edge_record, edges_text, graph_keyword, header_line,
    node_record, nodes_text, EdgeView, GraphView, NodeView,
};
use crate::quoting::debug_quoted;
use crate::shape::{shape_token, NodeShape};

verus! {

/// A fresh graph, written out, is its header line followed at once by the
/// closing line: `graph "<name>" {` and `}`.
pub proof fn lemma_new_graph_text(name: Seq<char>)
    ensures
        dot_text(
            GraphView { name, is_directed: false, nodes: Seq::empty(), edges: Seq::empty() },
        ) == "graph "@ + debug_quoted(name) + " {\n"@ + "}\n"@,
{
    let g = GraphView { name, is_directed: false, nodes: Seq::empty(), edges: Seq::empty() };
    assert(nodes_text(g.nodes) == Seq::<char>::empty());
    assert(edges_text(g.edges, false) == Seq::<char>::empty());
    reveal_strlit("graph ");
    reveal_strlit("graph");
    reveal_strlit(" ");
    assert(dot_text(g) =~= "graph "@ + debug_quoted(name) + " {\n"@ + "}\n"@);
}

/// The text of a directed graph opens with `digraph`, of an undirected one
/// with `graph`; every edge record joins its ends with `->` in the first case
/// and `--` in the second.
pub proof fn lemma_direction_tokens(g: GraphView)
    ensures
        dot_text(g).subrange(0, graph_keyword(g.is_directed).len() as int) == (if g.is_directed {
            "digraph"@
        } else {
            "graph"@
        }),
        forall|i: int|
            0 <= i < g.edges.len() ==> #[trigger] edge_record(g.edges[i], g.is_directed) == "  "@
                + debug_quoted(g.edges[i].from) + (if g.is_directed {
                " -> "@
            } else {
                " -- "@
            }) + debug_quoted(g.edges[i].to) + ";\n"@,
{
    let k = graph_keyword(g.is_directed);
    assert(dot_text(g).subrange(0, k.len() as int) =~= k);
    assert forall|i: int| 0 <= i < g.edges.len() implies #[trigger] edge_record(
        g.edges[i],
        g.is_directed,
    ) == "  "@ + debug_quoted(g.edges[i].from) + (if g.is_directed {
        " -> "@
    } else {
        " -- "@
    }) + debug_quoted(g.edges[i].to) + ";\n"@ by {
        reveal_strlit(" -> ");
        reveal_strlit(" -- ");
        reveal_strlit(" ");
        reveal_strlit("->");
        reveal_strlit("--");
        assert(edge_record(g.edges[i], g.is_directed) =~= "  "@ + debug_quoted(g.edges[i].from)
            + (if g.is_directed {
            " -> "@
        } else {
            " -- "@
        }) + debug_quoted(g.edges[i].to) + ";\n"@);
    }
}

/// The records of two runs of nodes, one after the other, are the records of
/// the first run followed by those of the second.
pub proof fn lemma_nodes_text_concat(a: Seq<NodeView>, b: Seq<NodeView>)
    ensures
        nodes_text(a + b) == nodes_text(a) + nodes_text(b),
    decreases b.len(),
{
    if b.len() == 0 {
        assert(a + b =~= a);
        assert(nodes_text(a) + nodes_text(b) =~= nodes_text(a));
    } else {
        lemma_nodes_text_concat(a, b.drop_last());
        assert((a + b).drop_last() =~= a + b.drop_last());
        assert(nodes_text(a + b) =~= nodes_text(a) + nodes_text(b));
    }
}

/// The same for edges.
pub proof fn lemma_edges_text_concat(a: Seq<EdgeView>, b: Seq<EdgeView>, is_directed: bool)
    ensures
        edges_text(a + b, is_directed) == edges_text(a, is_directed) + edges_text(b, is_directed),
    decreases b.len(),
{
    if b.len() == 0 {
        assert(a + b =~= a);
        assert(edges_text(a, is_directed) + edges_text(b, is_directed) =~= edges_text(
            a,
            is_directed,
        ));
    } else {
        lemma_edges_text_concat(a, b.drop_last(), is_directed);
        assert((a + b).drop_last() =~= a + b.drop_last());
        assert(edges_text(a + b, is_directed) =~= edges_text(a, is_directed) + edges_text(
            b,
            is_directed,
        ));
    }
}

/// Nodes come out in the order they went in, whatever their ids: the
/// records of nodes added one after another follow each other in that order,
/// right after the records of the nodes already there.
pub proof fn lemma_nodes_in_insertion_order(g: GraphView, added: Seq<NodeView>)
    ensures
        dot_text(GraphView { nodes: g.nodes + added, ..g }) == header_line(g) + nodes_text(g.nodes)
            + nodes_text(added) + edges_text(g.edges, g.is_directed) + "}\n"@,
        added.len() == 3 ==> nodes_text(added) == node_record(added[0]) + node_record(added[1])
            + node_record(added[2]),
{
    lemma_nodes_text_concat(g.nodes, added);
    let h = GraphView { nodes: g.nodes + added, ..g };
    assert(header_line(h) == header_line(g));
    assert(dot_text(h) =~= header_line(g) + nodes_text(g.nodes) + nodes_text(added) + edges_text(
        g.edges,
        g.is_directed,
    ) + "}\n"@);
    if added.len() == 3 {
        let s = added;
        assert(s.drop_last().drop_last().drop_last() =~= Seq::<NodeView>::empty());
        assert(s.drop_last().drop_last().last() == s[0]);
        assert(s.drop_last().last() == s[1]);
        assert(nodes_text(s.drop_last().drop_last().drop_last()) == Seq::<char>::empty());
        assert(nodes_text(s.drop_last().drop_last()) =~= node_record(s[0]));
        assert(nodes_text(s.drop_last()) == nodes_text(s.drop_last().drop_last()) + node_record(
            s[1],
        ));
        assert(nodes_text(s) == nodes_text(s.drop_last()) + node_record(s[2]));
        assert(nodes_text(s) =~= node_record(s[0]) + node_record(s[1]) + node_record(s[2]));
    }
}

/// An edge is written after the edges already there, whether or not any node
/// carries its ids: nothing checks its ends against the nodes.
pub proof fn lemma_edge_written_without_node_check(g: GraphView, e: EdgeView)
    ensures
        dot_text(GraphView { edges: g.edges.push(e), ..g }) == header_line(g) + nodes_text(g.nodes)
            + edges_text(g.edges, g.is_directed) + edge_record(e, g.is_directed) + "}\n"@,
{
    let h = GraphView { edges: g.edges.push(e), ..g };
    assert(h.edges.drop_last() =~= g.edges);
    assert(header_line(h) == header_line(g));
    assert(dot_text(h) =~= header_line(g) + nodes_text(g.nodes) + edges_text(g.edges, g.is_directed)
        + edge_record(e, g.is_directed) + "}\n"@);
}

/// The three forms of a node record: empty brackets with neither a label
/// nor a shape other than the baseline, the label alone with no trailing
/// comma, and label then shape with one comma and space between them.
pub proof fn lemma_node_record_forms(n: NodeView)
    ensures
        n.label is None && n.shape == NodeShape::Ellipse ==> node_record(n) == "  "@ + debug_quoted(
            n.id,
        ) + "[];\n"@,
        n.label is Some && n.shape == NodeShape::Ellipse ==> node_record(n) == "  "@
            + debug_quoted(n.id) + "[label="@ + debug_quoted(n.label.unwrap()) + "];\n"@,
        n.label is Some && n.shape != NodeShape::Ellipse ==> node_record(n) == "  "@
            + debug_quoted(n.id) + "[label="@ + debug_quoted(n.label.unwrap()) + ", shape="@
            + shape_token(n.shape) + "];\n"@,
{
    reveal_strlit("[");
    reveal_strlit("];\n");
    reveal_strlit("[];\n");
    reveal_strlit("label=");
    reveal_strlit("[label=");
    reveal_strlit(", ");
    reveal_strlit("shape=");
    reveal_strlit(", shape=");
    let q = debug_quoted(n.id);
    if n.label is None && n.shape == NodeShape::Ellipse {
        assert(attr_list(n) =~= Seq::<char>::empty());
        assert(node_record(n) =~= "  "@ + q + "[];\n"@);
    } else if n.label is Some && n.shape == NodeShape::Ellipse {
        assert(node_record(n) =~= "  "@ + q + "[label="@ + debug_quoted(n.label.unwrap())
            + "];\n"@);
    } else if n.label is Some {
        assert(node_record(n) =~= "  "@ + q + "[label="@ + debug_quoted(n.label.unwrap())
            + ", shape="@ + shape_token(n.shape) + "];\n"@);
    }
}

/// Writing a graph depends on the graph alone: two writes of one unchanged
/// graph give the same text.
pub proof fn lemma_write_repeatable(g: GraphView, first: Seq<char>, second: Seq<char>)
    requires
        first == dot_text(g),
        second == dot_text(g),
    ensures
        first == second,
{
}

} // verus!
