use dotwalk::render::{
    edge_statement, node_statement, subgraph_statement, write_prologue, EdgeEntry, NodeEntry,
    SubgraphEntry,
};
use dotwalk::{
    Arrow, ArrowVertex, CompassPoint, GraphKind, Id, RankDir, RenderOption, Side, Style, Text,
};

fn id(s: &str) -> Id {
    Id::new(s).unwrap()
}

fn pair(a: &str, b: &str) -> (String, String) {
    (a.to_string(), b.to_string())
}

fn plain_edge() -> EdgeEntry {
    EdgeEntry {
        source: id("a"),
        target: id("b"),
        label: Text::label(""),
        style: Style::NoStyle,
        color: None,
        start_arrow: Arrow::default(),
        end_arrow: Arrow::default(),
        start_port: None,
        end_port: None,
        start_point: None,
        end_point: None,
        attrs: vec![],
    }
}

#[test]
fn node_statement_full() {
    let n = NodeEntry {
        id: id("n1"),
        label: Text::label("one"),
        style: Style::Filled,
        color: Some(Text::label("red")),
        shape: Some(Text::label("box")),
        attrs: vec![pair("width", "2"), pair("peripheries", "3")],
    };
    assert_eq!(
        node_statement(&n, &[]),
        "    n1[label=\"one\"][style=\"filled\"][color=\"red\"][shape=\"box\"][width=2][peripheries=3];\n"
    );
    assert_eq!(
        node_statement(
            &n,
            &[RenderOption::NoNodeLabels, RenderOption::NoNodeStyles, RenderOption::NoNodeColors]
        ),
        "    n1[shape=\"box\"][width=2][peripheries=3];\n"
    );
}

#[test]
fn node_statement_no_style_writes_no_style() {
    let n = NodeEntry {
        id: id("n"),
        label: Text::html("<b>n</b>"),
        style: Style::NoStyle,
        color: None,
        shape: None,
        attrs: vec![],
    };
    assert_eq!(node_statement(&n, &[]), "    n[label=<<b>n</b>>];\n");
}

#[test]
fn edge_statement_ports_compass_and_unbracketed_attrs() {
    let mut e = plain_edge();
    e.start_port = Some(id("p1"));
    e.end_port = Some(id("p2"));
    e.start_point = Some(CompassPoint::North);
    e.end_point = Some(CompassPoint::SouthWest);
    e.label = Text::label("x");
    e.attrs = vec![pair("weight", "2"), pair("minlen", "1")];
    assert_eq!(
        edge_statement(&e, GraphKind::Directed, &[]),
        "    a:p1:n -> b:p2:sw[label=\"x\"]weight=2minlen=1;\n"
    );
    assert_eq!(
        edge_statement(&e, GraphKind::Undirected, &[RenderOption::NoEdgeLabels]),
        "    a:p1:n -- b:p2:swweight=2minlen=1;\n"
    );
}

#[test]
fn edge_statement_arrow_brackets() {
    let mut e = plain_edge();
    assert_eq!(edge_statement(&e, GraphKind::Directed, &[]), "    a -> b[label=\"\"];\n");
    e.end_arrow = Arrow::from(ArrowVertex::Crow(Side::Left));
    assert_eq!(
        edge_statement(&e, GraphKind::Directed, &[]),
        "    a -> b[label=\"\"][arrowhead=\"lcrow\"];\n"
    );
    e.start_arrow = Arrow::from([ArrowVertex::tee(), ArrowVertex::dot()]);
    assert_eq!(
        edge_statement(&e, GraphKind::Directed, &[]),
        "    a -> b[label=\"\"][arrowhead=\"lcrow\" dir=\"both\" arrowtail=\"teedot\"];\n"
    );
    assert_eq!(
        edge_statement(&e, GraphKind::Directed, &[RenderOption::NoArrows]),
        "    a -> b[label=\"\"];\n"
    );
}

#[test]
fn edge_statement_style_and_color() {
    let mut e = plain_edge();
    e.style = Style::Dashed;
    e.color = Some(Text::label("blue"));
    assert_eq!(
        edge_statement(&e, GraphKind::Directed, &[]),
        "    a -> b[label=\"\"][style=\"dashed\"][color=\"blue\"];\n"
    );
    assert_eq!(
        edge_statement(&e, GraphKind::Directed, &[RenderOption::NoEdgeStyles, RenderOption::NoEdgeColors]),
        "    a -> b[label=\"\"];\n"
    );
}

#[test]
fn subgraph_statement_full_and_anonymous() {
    let s = SubgraphEntry {
        id: Some(id("cluster_x")),
        label: Text::label("X"),
        style: Style::Rounded,
        color: Some(Text::label("grey")),
        shape: Some(Text::label("box")),
        attrs: vec![pair("rank", "same")],
        members: vec![id("a"), id("b")],
    };
    assert_eq!(
        subgraph_statement(&s, &[]),
        "subgraph cluster_x {\n    label=\"X\";\n    style=\"rounded\";\n    color=\"grey\";\n    shape=\"box\";\n    rank=same;\n    a;\n    b;\n}\n"
    );
    let anon = SubgraphEntry {
        id: None,
        label: Text::label(""),
        style: Style::NoStyle,
        color: None,
        shape: None,
        attrs: vec![],
        members: vec![],
    };
    assert_eq!(subgraph_statement(&anon, &[]), "subgraph {\n    label=\"\";\n}\n");
    assert_eq!(subgraph_statement(&anon, &[RenderOption::NoNodeLabels]), "subgraph {\n}\n");
}

#[test]
fn prologue_with_rank_attrs_and_style_block() {
    let mut w = String::from("");
    write_prologue(
        &mut w,
        GraphKind::Directed,
        &id("g"),
        Some(RankDir::RightLeft),
        &vec![pair("splines", "ortho"), pair("nodesep", "1")],
        &[RenderOption::DarkTheme],
    );
    assert_eq!(
        w,
        "digraph g {\n    rankdir=\"RL\";\n    splines=ortho\n    nodesep=1\n    graph[bgcolor=\"black\" fontcolor=\"white\"];\n    node[color=\"white\" fontcolor=\"white\"];\n    edge[color=\"white\" fontcolor=\"white\"];\n"
    );
}

#[test]
fn prologue_of_undirected_graph_has_no_rank_direction() {
    let mut w = String::from("x");
    write_prologue(&mut w, GraphKind::Undirected, &id("u"), Some(RankDir::LeftRight), &vec![], &[]);
    assert_eq!(w, "xgraph u {\n");
}
