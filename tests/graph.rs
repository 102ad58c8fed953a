use dot_graph::graph::{Edge, Graph, GraphProperties, Node};
use dot_graph::quoting::quote;
use dot_graph::shape::NodeShape;

fn dot(graph: &Graph) -> String {
    let mut buf = String::new();
    graph.write_as_dot(&mut buf);
    buf
}

#[test]
fn empty_graph() {
    let graph = Graph::new("foo");
    let mut buf = String::new();
    graph.write_as_dot(&mut buf);

    let expected = r#"graph "foo" {
}
"#;
    assert_eq!(std::str::from_utf8(buf.as_bytes()).unwrap(), expected);
}

#[test]
fn empty_graph_other_name() {
    assert_eq!(dot(&Graph::new("my graph")), "graph \"my graph\" {\n}\n");
    assert_eq!(dot(&Graph::new("")), "graph \"\" {\n}\n");
}

#[test]
fn directed_graph_uses_digraph_and_arrows() {
    let mut graph = Graph::new("g");
    graph.properties_mut().is_directed = true;
    graph.add_node(Node::new("a"));
    graph.add_edge(Edge::new("a", "b"));
    graph.add_edge(Edge::new("b", "c"));
    assert_eq!(
        dot(&graph),
        "digraph \"g\" {\n  \"a\"[];\n  \"a\" -> \"b\";\n  \"b\" -> \"c\";\n}\n"
    );
}

#[test]
fn undirected_graph_uses_graph_and_double_dashes() {
    let mut graph = Graph::new("g");
    graph.add_edge(Edge::new("a", "b"));
    assert_eq!(dot(&graph), "graph \"g\" {\n  \"a\" -- \"b\";\n}\n");
}

#[test]
fn direction_can_be_switched_back() {
    let mut graph = Graph::new("g");
    graph.properties_mut().is_directed = true;
    graph.properties_mut().is_directed = false;
    graph.add_edge(Edge::new("x", "y"));
    assert_eq!(dot(&graph), "graph \"g\" {\n  \"x\" -- \"y\";\n}\n");
}

#[test]
fn nodes_keep_insertion_order() {
    let mut graph = Graph::new("g");
    graph.add_node(Node::new("C"));
    graph.add_node(Node::new("A"));
    graph.add_node(Node::new("B"));
    assert_eq!(
        dot(&graph),
        "graph \"g\" {\n  \"C\"[];\n  \"A\"[];\n  \"B\"[];\n}\n"
    );
}

#[test]
fn nodes_come_before_edges() {
    let mut graph = Graph::new("g");
    graph.add_edge(Edge::new("b", "a"));
    graph.add_node(Node::new("a"));
    graph.add_edge(Edge::new("a", "b"));
    graph.add_node(Node::new("b"));
    assert_eq!(
        dot(&graph),
        "graph \"g\" {\n  \"a\"[];\n  \"b\"[];\n  \"b\" -- \"a\";\n  \"a\" -- \"b\";\n}\n"
    );
}

#[test]
fn duplicate_node_ids_are_both_written() {
    let mut graph = Graph::new("g");
    graph.add_node(Node::new("a"));
    graph.add_node(Node::new("a").with_label("again".to_string()));
    assert_eq!(
        dot(&graph),
        "graph \"g\" {\n  \"a\"[];\n  \"a\"[label=\"again\"];\n}\n"
    );
}

#[test]
fn node_without_attributes_has_empty_brackets() {
    let mut out = String::new();
    Node::new("id").write(&mut out);
    assert_eq!(out, "  \"id\"[];\n");
}

#[test]
fn node_with_label_only() {
    let mut out = String::new();
    Node::new("id").with_label("L".to_string()).write(&mut out);
    assert_eq!(out, "  \"id\"[label=\"L\"];\n");
}

#[test]
fn node_with_label_and_shape() {
    let mut out = String::new();
    Node::new("id")
        .with_label("L".to_string())
        .shape(NodeShape::Box)
        .write(&mut out);
    assert_eq!(out, "  \"id\"[label=\"L\", shape=box];\n");
}

#[test]
fn node_with_shape_only() {
    let mut out = String::new();
    Node::new("id").shape(NodeShape::Circle).write(&mut out);
    assert_eq!(out, "  \"id\"[shape=circle];\n");
}

#[test]
fn baseline_shape_is_not_written() {
    let mut out = String::new();
    Node::new("id")
        .shape(NodeShape::Box)
        .shape(NodeShape::Ellipse)
        .write(&mut out);
    assert_eq!(out, "  \"id\"[];\n");
}

#[test]
fn set_lable_overwrites_and_chains() {
    let mut node = Node::new("n").with_label("old".to_string());
    node.set_lable("mid").set_lable("new");
    let mut out = String::new();
    node.write(&mut out);
    assert_eq!(out, "  \"n\"[label=\"new\"];\n");
}

#[test]
fn set_lable_on_node_without_label() {
    let mut node = Node::new("n").shape(NodeShape::Diamond);
    node.set_lable("x");
    let mut out = String::new();
    node.write(&mut out);
    assert_eq!(out, "  \"n\"[label=\"x\", shape=diamond];\n");
}

#[test]
fn edge_write_directed_and_not() {
    let edge = Edge::new("from", "to");
    let mut out = String::new();
    edge.write(&mut out, true);
    edge.write(&mut out, false);
    assert_eq!(out, "  \"from\" -> \"to\";\n  \"from\" -- \"to\";\n");
}

#[test]
fn edge_to_unknown_nodes_is_written() {
    let mut graph = Graph::new("g");
    graph.add_node(Node::new("a"));
    graph.add_edge(Edge::new("missing", "also missing"));
    assert_eq!(
        dot(&graph),
        "graph \"g\" {\n  \"a\"[];\n  \"missing\" -- \"also missing\";\n}\n"
    );
}

#[test]
fn writing_twice_gives_same_text() {
    let mut graph = Graph::new("g");
    graph.add_node(Node::new("a").with_label("A".to_string()));
    graph.add_edge(Edge::new("a", "b"));
    let first = dot(&graph);
    let second = dot(&graph);
    assert_eq!(first, second);
}

#[test]
fn write_appends_to_existing_text() {
    let graph = Graph::new("g");
    let mut out = String::from("before\n");
    graph.write_as_dot(&mut out);
    assert_eq!(out, "before\ngraph \"g\" {\n}\n");
}

#[test]
fn quotes_and_backslashes_are_escaped() {
    assert_eq!(quote("a\"b\\c"), "\"a\\\"b\\\\c\"");
    let mut graph = Graph::new("say \"hi\"");
    graph.add_node(Node::new("x\\y").with_label("\"".to_string()));
    assert_eq!(
        dot(&graph),
        "graph \"say \\\"hi\\\"\" {\n  \"x\\\\y\"[label=\"\\\"\"];\n}\n"
    );
}

#[test]
fn quoting_reads_back() {
    for s in ["plain", "a\"b", "back\\slash", "\\\"", ""] {
        let q = quote(s);
        assert!(q.starts_with('"') && q.ends_with('"') && q.len() >= 2);
        let inner: Vec<char> = q[1..q.len() - 1].chars().collect();
        let mut back = String::new();
        let mut i = 0;
        while i < inner.len() {
            if inner[i] == '\\' {
                back.push(inner[i + 1]);
                i += 2;
            } else {
                assert_ne!(inner[i], '"');
                back.push(inner[i]);
                i += 1;
            }
        }
        assert_eq!(back, s);
    }
}

#[test]
fn control_characters_are_escaped() {
    assert_eq!(quote("a\nb\tc"), "\"a\\nb\\tc\"");
}

#[test]
fn shape_tokens() {
    assert_eq!(NodeShape::default(), NodeShape::Ellipse);
    assert_eq!(NodeShape::Box.token(), "box");
    assert_eq!(NodeShape::DoubleCircle.token(), "doublecircle");
    assert_eq!(NodeShape::PlainText.token(), "plaintext");
    assert_eq!(NodeShape::NoOutline.token(), "none");
}

#[test]
fn properties_default_to_undirected() {
    let props = GraphProperties::default();
    assert!(!props.is_directed);
}
