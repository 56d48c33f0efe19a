use dotwalk::{
    escape_html, Arrow, ArrowVertex, CompassPoint, GraphKind, RankDir, ShapeFill, Side, Style, Text,
};

#[test]
fn graph_kind_tokens() {
    assert_eq!(GraphKind::Directed.as_keyword(), "digraph");
    assert_eq!(GraphKind::Undirected.as_keyword(), "graph");
    assert_eq!(GraphKind::Directed.as_edge_op(), "->");
    assert_eq!(GraphKind::Undirected.as_edge_op(), "--");
}

#[test]
fn rank_dir_tokens() {
    assert_eq!(RankDir::TopBottom.as_static_str(), "TB");
    assert_eq!(RankDir::LeftRight.as_static_str(), "LR");
    assert_eq!(RankDir::BottomTop.as_static_str(), "BT");
    assert_eq!(RankDir::RightLeft.as_static_str(), "RL");
}

#[test]
fn style_tokens() {
    assert_eq!(Style::NoStyle.as_static_str(), "");
    assert_eq!(Style::Solid.as_static_str(), "solid");
    assert_eq!(Style::Dashed.as_static_str(), "dashed");
    assert_eq!(Style::Dotted.as_static_str(), "dotted");
    assert_eq!(Style::Bold.as_static_str(), "bold");
    assert_eq!(Style::Rounded.as_static_str(), "rounded");
    assert_eq!(Style::Diagonals.as_static_str(), "diagonals");
    assert_eq!(Style::Filled.as_static_str(), "filled");
    assert_eq!(Style::Striped.as_static_str(), "striped");
    assert_eq!(Style::Wedged.as_static_str(), "wedged");
}

#[test]
fn fill_and_side_tokens() {
    assert_eq!(ShapeFill::Open.as_static_str(), "o");
    assert_eq!(ShapeFill::Filled.as_static_str(), "");
    assert_eq!(Side::Left.as_static_str(), "l");
    assert_eq!(Side::Right.as_static_str(), "r");
    assert_eq!(Side::Both.as_static_str(), "");
}

#[test]
fn compass_tokens() {
    assert_eq!(CompassPoint::North.as_static_str(), ":n");
    assert_eq!(CompassPoint::NorthEast.as_static_str(), ":ne");
    assert_eq!(CompassPoint::East.as_static_str(), ":e");
    assert_eq!(CompassPoint::SouthEast.as_static_str(), ":se");
    assert_eq!(CompassPoint::South.as_static_str(), ":s");
    assert_eq!(CompassPoint::SouthWest.as_static_str(), ":sw");
    assert_eq!(CompassPoint::West.as_static_str(), ":w");
    assert_eq!(CompassPoint::NorthWest.as_static_str(), ":nw");
    assert_eq!(CompassPoint::Center.as_static_str(), ":c");
}

#[test]
fn vertex_constructors_render_plain_keywords() {
    assert_eq!(ArrowVertex::none().to_dot_string(), "none");
    assert_eq!(ArrowVertex::normal().to_dot_string(), "normal");
    assert_eq!(ArrowVertex::boxed().to_dot_string(), "box");
    assert_eq!(ArrowVertex::crow().to_dot_string(), "crow");
    assert_eq!(ArrowVertex::curve().to_dot_string(), "curve");
    assert_eq!(ArrowVertex::icurve().to_dot_string(), "icurve");
    assert_eq!(ArrowVertex::diamond().to_dot_string(), "diamond");
    assert_eq!(ArrowVertex::dot().to_dot_string(), "dot");
    assert_eq!(ArrowVertex::inv().to_dot_string(), "inv");
    assert_eq!(ArrowVertex::tee().to_dot_string(), "tee");
    assert_eq!(ArrowVertex::vee().to_dot_string(), "vee");
}

#[test]
fn vertex_fill_then_side_then_keyword() {
    assert_eq!(ArrowVertex::Normal(ShapeFill::Open, Side::Left).to_dot_string(), "olnormal");
    assert_eq!(ArrowVertex::Box(ShapeFill::Open, Side::Right).to_dot_string(), "orbox");
    assert_eq!(ArrowVertex::Diamond(ShapeFill::Filled, Side::Right).to_dot_string(), "rdiamond");
    assert_eq!(ArrowVertex::ICurve(ShapeFill::Open, Side::Both).to_dot_string(), "oicurve");
    assert_eq!(ArrowVertex::Inv(ShapeFill::Open, Side::Left).to_dot_string(), "olinv");
    assert_eq!(ArrowVertex::Dot(ShapeFill::Open).to_dot_string(), "odot");
    assert_eq!(ArrowVertex::Crow(Side::Left).to_dot_string(), "lcrow");
    assert_eq!(ArrowVertex::Curve(Side::Right).to_dot_string(), "rcurve");
    assert_eq!(ArrowVertex::Tee(Side::Both).to_dot_string(), "tee");
    assert_eq!(ArrowVertex::Vee(Side::Left).to_dot_string(), "lvee");
}

#[test]
fn composite_arrow_concatenates_vertices() {
    let a = Arrow::from([ArrowVertex::Crow(Side::Left), ArrowVertex::tee()]);
    assert_eq!(a.to_dot_string(), "lcrowtee");
    let b = Arrow::from([
        ArrowVertex::Dot(ShapeFill::Open),
        ArrowVertex::normal(),
        ArrowVertex::Vee(Side::Right),
        ArrowVertex::none(),
    ]);
    assert_eq!(b.to_dot_string(), "odotnormalrveenone");
    let c = Arrow::from([ArrowVertex::inv(), ArrowVertex::boxed(), ArrowVertex::diamond()]);
    assert_eq!(c.to_dot_string(), "invboxdiamond");
    assert_eq!(Arrow::from([ArrowVertex::curve()]).to_dot_string(), "curve");
}

#[test]
fn arrow_default_iff_empty() {
    assert!(Arrow::default().is_default());
    assert_eq!(Arrow::default().to_dot_string(), "");
    assert!(!Arrow::none().is_default());
    assert_eq!(Arrow::none().to_dot_string(), "none");
    assert!(!Arrow::normal().is_default());
    assert_eq!(Arrow::normal().to_dot_string(), "normal");
    assert!(!Arrow::from(ArrowVertex::tee()).is_default());
}

#[test]
fn plain_label_doubles_backslash_and_escapes_quotes() {
    assert_eq!(Text::label("a\\b").to_escaped_string(), "\"a\\\\b\"");
    assert_eq!(Text::label("say \"hi\"").to_escaped_string(), "\"say \\\"hi\\\"\"");
    assert_eq!(Text::label("it's").to_escaped_string(), "\"it\\'s\"");
    assert_eq!(Text::label("").to_escaped_string(), "\"\"");
}

#[test]
fn plain_label_escapes_control_and_non_ascii() {
    assert_eq!(Text::label("a\tb\nc\r").to_escaped_string(), "\"a\\tb\\nc\\r\"");
    assert_eq!(Text::label("caf\u{e9}").to_escaped_string(), "\"caf\\u{e9}\"");
}

#[test]
fn esc_label_keeps_backslash_sequences() {
    assert_eq!(Text::esc("left\\lright\\r").to_escaped_string(), "\"left\\lright\\r\"");
    assert_eq!(Text::esc("q\"").to_escaped_string(), "\"q\\\"\"");
    assert_eq!(Text::esc("a\nb").to_escaped_string(), "\"a\\nb\"");
}

#[test]
fn html_label_is_verbatim() {
    assert_eq!(Text::html("<b>x</b> & \"y\"").to_escaped_string(), "<<b>x</b> & \"y\">");
}

#[test]
fn into_inner_returns_text() {
    assert_eq!(Text::label("x").into_inner(), "x");
    assert_eq!(Text::esc("\\l").into_inner(), "\\l");
    assert_eq!(Text::html("<i>").into_inner(), "<i>");
}

#[test]
fn escape_html_replaces_specials() {
    assert_eq!(
        escape_html("a & b \"c\" <d>\ne"),
        "a &amp; b &quot;c&quot; &lt;d&gt;<br align=\"left\"/>e"
    );
    assert_eq!(escape_html(""), "");
    assert_eq!(escape_html("plain"), "plain");
}
