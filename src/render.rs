use vstd::prelude::*;

use crate::id::Id;
use crate::{GraphWalk, Labeller};
use crate::strings::push_char;
use crate::text::{text_dot, Text};
use crate::types::{
    is_lowercase_word, lemma_arrow_str_lowercase, arrow_str, compass_str, edge_op_of, keyword_of, rank_dir_str, style_str, Arrow, ArrowVertex,
    CompassPoint, GraphKind, RankDir, Style,
};

verus! {

/// A setting that changes what `render_opts` writes.
#[derive(Clone, PartialEq, Eq, Debug)]
pub enum RenderOption {
    NoEdgeLabels,
    NoNodeLabels,
    NoEdgeStyles,
    NoEdgeColors,
    NoNodeStyles,
    NoNodeColors,
    Fontname(String),
    DarkTheme,
    NoArrows,
}

/// Everything that the labeller says of one node.
pub struct NodeEntry {
    pub id: Id,
    pub label: Text,
    pub style: Style,
    pub color: Option<Text>,
    pub shape: Option<Text>,
    pub attrs: Vec<(String, String)>,
}

/// Everything that the walk and the labeller say of one edge.
pub struct EdgeEntry {
    pub source: Id,
    pub target: Id,
    pub label: Text,
    pub style: Style,
    pub color: Option<Text>,
    pub start_arrow: Arrow,
    pub end_arrow: Arrow,
    pub start_port: Option<Id>,
    pub end_port: Option<Id>,
    pub start_point: Option<CompassPoint>,
    pub end_point: Option<CompassPoint>,
    pub attrs: Vec<(String, String)>,
}

/// Everything that the walk and the labeller say of one subgraph.
pub struct SubgraphEntry {
    pub id: Option<Id>,
    pub label: Text,
    pub style: Style,
    pub color: Option<Text>,
    pub shape: Option<Text>,
    pub attrs: Vec<(String, String)>,
    pub members: Vec<Id>,
}

// ---------------------------------------------------------------------
// Options

/// The font name of the first `Fontname` option, if any.
pub open spec fn first_fontname(opts: Seq<RenderOption>) -> Option<Seq<char>>
    decreases opts.len(),
{
    if opts.len() == 0 {
        None
    } else {
        match opts[0] {
            RenderOption::Fontname(f) => Some(f@),
            _ => first_fontname(opts.drop_first()),
        }
    }
}

fn same_flag(a: &RenderOption, flag: &RenderOption) -> (r: bool)
    requires
        !(flag is Fontname),
    ensures
        r == (*a == *flag),
{
    match flag {
        RenderOption::NoEdgeLabels => matches!(a, RenderOption::NoEdgeLabels),
        RenderOption::NoNodeLabels => matches!(a, RenderOption::NoNodeLabels),
        RenderOption::NoEdgeStyles => matches!(a, RenderOption::NoEdgeStyles),
        RenderOption::NoEdgeColors => matches!(a, RenderOption::NoEdgeColors),
        RenderOption::NoNodeStyles => matches!(a, RenderOption::NoNodeStyles),
        RenderOption::NoNodeColors => matches!(a, RenderOption::NoNodeColors),
        RenderOption::Fontname(_) => false,
        RenderOption::DarkTheme => matches!(a, RenderOption::DarkTheme),
        RenderOption::NoArrows => matches!(a, RenderOption::NoArrows),
    }
}

/// Whether the flag `flag` is among `options`.
fn has_option(options: &[RenderOption], flag: RenderOption) -> (r: bool)
    requires
        !(flag is Fontname),
    ensures
        r == options@.contains(flag),
{
    let mut i: usize = 0;
    while i < options.len()
        invariant
            i <= options@.len(),
            !(flag is Fontname),
            forall|j: int| 0 <= j < i ==> options@[j] != flag,
        decreases options@.len() - i,
    {
        if same_flag(&options[i], &flag) {
            return true;
        }
        i = i + 1;
    }
    false
}

/// The font name of the first `Fontname` option, if any.
fn find_fontname(options: &[RenderOption]) -> (r: Option<&String>)
    ensures
        match r {
            Some(f) => first_fontname(options@) == Some(f@),
            None => first_fontname(options@) is None,
        },
{
    let mut i: usize = 0;
    proof {
        assert(options@.subrange(0, options@.len() as int) =~= options@);
    }
    while i < options.len()
        invariant
            i <= options@.len(),
            first_fontname(options@) == first_fontname(
                options@.subrange(i as int, options@.len() as int),
            ),
        decreases options@.len() - i,
    {
        let ghost rest = options@.subrange(i as int, options@.len() as int);
        assert(rest[0] == options@[i as int]);
        match &options[i] {
            RenderOption::Fontname(f) => {
                return Some(f);
            },
            _ => {},
        }
        assert(rest.drop_first() =~= options@.subrange(i + 1, options@.len() as int));
        i = i + 1;
    }
    None
}

// ---------------------------------------------------------------------
// The text of each part

/// `"    name=value"` and a line feed for each attribute, in order.
pub open spec fn attr_lines(attrs: Seq<(String, String)>) -> Seq<char>
    decreases attrs.len(),
{
    if attrs.len() == 0 {
        Seq::empty()
    } else {
        attr_lines(attrs.drop_last()) + "    "@ + attrs.last().0@ + "="@ + attrs.last().1@ + "\n"@
    }
}

/// `"    name=value;"` and a line feed for each attribute, in order.
pub open spec fn attr_statements(attrs: Seq<(String, String)>) -> Seq<char>
    decreases attrs.len(),
{
    if attrs.len() == 0 {
        Seq::empty()
    } else {
        attr_statements(attrs.drop_last()) + "    "@ + attrs.last().0@ + "="@ + attrs.last().1@
            + ";\n"@
    }
}

/// `"[name=value]"` for each attribute, in order.
pub open spec fn attr_brackets(attrs: Seq<(String, String)>) -> Seq<char>
    decreases attrs.len(),
{
    if attrs.len() == 0 {
        Seq::empty()
    } else {
        attr_brackets(attrs.drop_last()) + "["@ + attrs.last().0@ + "="@ + attrs.last().1@ + "]"@
    }
}

/// `"name=value"` for each attribute, in order, with nothing between them.
pub open spec fn attr_inline(attrs: Seq<(String, String)>) -> Seq<char>
    decreases attrs.len(),
{
    if attrs.len() == 0 {
        Seq::empty()
    } else {
        attr_inline(attrs.drop_last()) + attrs.last().0@ + "="@ + attrs.last().1@
    }
}

/// `"    id;"` and a line feed for each member node, in order.
pub open spec fn member_lines(members: Seq<Id>) -> Seq<char>
    decreases members.len(),
{
    if members.len() == 0 {
        Seq::empty()
    } else {
        member_lines(members.drop_last()) + "    "@ + members.last()@ + ";\n"@
    }
}

/// The tokens of the `graph[...]` line.
pub open spec fn graph_style_attrs(font: Option<Seq<char>>, dark: bool) -> Seq<char> {
    match font {
        Some(f) => if dark {
            "fontname=\""@ + f + "\""@ + " "@ + "bgcolor=\"black\" fontcolor=\"white\""@
        } else {
            "fontname=\""@ + f + "\""@
        },
        None => if dark {
            "bgcolor=\"black\" fontcolor=\"white\""@
        } else {
            Seq::empty()
        },
    }
}

/// The tokens of the `node[...]` and `edge[...]` lines.
pub open spec fn content_style_attrs(font: Option<Seq<char>>, dark: bool) -> Seq<char> {
    match font {
        Some(f) => if dark {
            "fontname=\""@ + f + "\""@ + " "@ + "color=\"white\" fontcolor=\"white\""@
        } else {
            "fontname=\""@ + f + "\""@
        },
        None => if dark {
            "color=\"white\" fontcolor=\"white\""@
        } else {
            Seq::empty()
        },
    }
}

/// The global style block: present only where a font name or the dark
/// theme is asked for.
pub open spec fn style_block(opts: Seq<RenderOption>) -> Seq<char> {
    let font = first_fontname(opts);
    let dark = opts.contains(RenderOption::DarkTheme);
    if font is None && !dark {
        Seq::empty()
    } else {
        let content = content_style_attrs(font, dark);
        "    graph["@ + graph_style_attrs(font, dark) + "];\n"@ + "    node["@ + content + "];\n"@
            + "    edge["@ + content + "];\n"@
    }
}

/// `"    rankdir=\"..\";"` and a line feed, for a directed graph with a
/// rank direction.
pub open spec fn rank_line(kind: GraphKind, rank: Option<RankDir>) -> Seq<char> {
    if kind == GraphKind::Directed && rank is Some {
        "    rankdir=\""@ + rank_dir_str(rank->0) + "\";\n"@
    } else {
        Seq::empty()
    }
}

/// Everything before the subgraphs: the header line, the rank direction of
/// a directed graph, the graph attributes and the global style block.
pub open spec fn prologue_text(
    kind: GraphKind,
    id: Seq<char>,
    rank: Option<RankDir>,
    attrs: Seq<(String, String)>,
    opts: Seq<RenderOption>,
) -> Seq<char> {
    (keyword_of(kind) + " "@ + id + " {\n"@) + rank_line(kind, rank) + attr_lines(attrs)
        + style_block(opts)
}

/// `"[style=\"...\"]"` unless the style is `NoStyle` or styles are suppressed.
pub open spec fn style_bracket(style: Style, suppressed: bool) -> Seq<char> {
    if !suppressed && style != Style::NoStyle {
        "[style=\""@ + style_str(style) + "\"]"@
    } else {
        Seq::empty()
    }
}

/// `"[color=...]"` for a color unless colors are suppressed.
pub open spec fn color_bracket(color: Option<Text>, suppressed: bool) -> Seq<char> {
    if !suppressed && color is Some {
        "[color="@ + text_dot(color->0) + "]"@
    } else {
        Seq::empty()
    }
}

/// `"[label=...]"` unless labels are suppressed.
pub open spec fn label_bracket(label: Text, suppressed: bool) -> Seq<char> {
    if !suppressed {
        "[label="@ + text_dot(label) + "]"@
    } else {
        Seq::empty()
    }
}

/// `"[shape=...]"` for a shape.
pub open spec fn shape_bracket(shape: Option<Text>) -> Seq<char> {
    match shape {
        Some(s) => "[shape="@ + text_dot(s) + "]"@,
        None => Seq::empty(),
    }
}

/// The statement of one node.
pub open spec fn node_text(e: NodeEntry, opts: Seq<RenderOption>) -> Seq<char> {
    "    "@ + e.id@ + label_bracket(e.label, opts.contains(RenderOption::NoNodeLabels))
        + style_bracket(e.style, opts.contains(RenderOption::NoNodeStyles)) + color_bracket(
        e.color,
        opts.contains(RenderOption::NoNodeColors),
    ) + shape_bracket(e.shape) + attr_brackets(e.attrs@) + ";\n"@
}

/// `" id"`, for a named subgraph.
pub open spec fn subgraph_name_text(id: Option<Id>) -> Seq<char> {
    match id {
        Some(id) => " "@ + id@,
        None => Seq::empty(),
    }
}

/// `"    label=...;"` and a line feed, unless labels are suppressed.
pub open spec fn label_line(label: Text, suppressed: bool) -> Seq<char> {
    if !suppressed {
        "    label="@ + text_dot(label) + ";\n"@
    } else {
        Seq::empty()
    }
}

/// `"    style=\"...\";"` and a line feed, unless the style is `NoStyle` or
/// styles are suppressed.
pub open spec fn style_line(style: Style, suppressed: bool) -> Seq<char> {
    if !suppressed && style != Style::NoStyle {
        "    style=\""@ + style_str(style) + "\";\n"@
    } else {
        Seq::empty()
    }
}

/// `"    color=...;"` and a line feed for a color, unless colors are
/// suppressed.
pub open spec fn color_line(color: Option<Text>, suppressed: bool) -> Seq<char> {
    if !suppressed && color is Some {
        "    color="@ + text_dot(color->0) + ";\n"@
    } else {
        Seq::empty()
    }
}

/// `"    shape=...;"` and a line feed for a shape.
pub open spec fn shape_line(shape: Option<Text>) -> Seq<char> {
    match shape {
        Some(s) => "    shape="@ + text_dot(s) + ";\n"@,
        None => Seq::empty(),
    }
}

/// The block of one subgraph.
pub open spec fn subgraph_text(e: SubgraphEntry, opts: Seq<RenderOption>) -> Seq<char> {
    "subgraph"@ + subgraph_name_text(e.id) + " {\n"@ + label_line(
        e.label,
        opts.contains(RenderOption::NoNodeLabels),
    ) + style_line(e.style, opts.contains(RenderOption::NoNodeStyles)) + color_line(
        e.color,
        opts.contains(RenderOption::NoNodeColors),
    ) + shape_line(e.shape) + attr_statements(e.attrs@) + member_lines(e.members@) + "}\n"@
}

/// `":port"`, if there is a port.
pub open spec fn port_text(p: Option<Id>) -> Seq<char> {
    match p {
        Some(id) => ":"@ + id@,
        None => Seq::empty(),
    }
}

/// The compass suffix, if there is a compass point.
pub open spec fn compass_text(c: Option<CompassPoint>) -> Seq<char> {
    match c {
        Some(c) => compass_str(c),
        None => Seq::empty(),
    }
}

/// The arrow bracket of an edge: written only where arrows are not
/// suppressed and at least one of the two arrows is not the default. The
/// end arrow comes first, as `arrowhead`; the start arrow makes the edge
/// two-way, as `arrowtail`.
pub open spec fn arrow_bracket(
    start: Seq<ArrowVertex>,
    end: Seq<ArrowVertex>,
    suppressed: bool,
) -> Seq<char> {
    if suppressed || (start.len() == 0 && end.len() == 0) {
        Seq::empty()
    } else {
        "["@ + (if end.len() > 0 {
            "arrowhead=\""@ + arrow_str(end) + "\""@
        } else {
            Seq::empty()
        }) + (if start.len() > 0 {
            (if end.len() > 0 {
                " "@
            } else {
                Seq::empty()
            }) + "dir=\"both\" arrowtail=\""@ + arrow_str(start) + "\""@
        } else {
            Seq::empty()
        }) + "]"@
    }
}

/// The statement of one edge in a graph of kind `kind`.
pub open spec fn edge_text(e: EdgeEntry, kind: GraphKind, opts: Seq<RenderOption>) -> Seq<char> {
    "    "@ + e.source@ + port_text(e.start_port) + compass_text(e.start_point) + " "@ + edge_op_of(
        kind,
    ) + " "@ + e.target@ + port_text(e.end_port) + compass_text(e.end_point) + label_bracket(
        e.label,
        opts.contains(RenderOption::NoEdgeLabels),
    ) + style_bracket(e.style, opts.contains(RenderOption::NoEdgeStyles)) + color_bracket(
        e.color,
        opts.contains(RenderOption::NoEdgeColors),
    ) + arrow_bracket(
        e.start_arrow.arrows@,
        e.end_arrow.arrows@,
        opts.contains(RenderOption::NoArrows),
    ) + attr_inline(e.attrs@) + ";\n"@
}

pub open spec fn nodes_text(es: Seq<NodeEntry>, opts: Seq<RenderOption>) -> Seq<char>
    decreases es.len(),
{
    if es.len() == 0 {
        Seq::empty()
    } else {
        nodes_text(es.drop_last(), opts) + node_text(es.last(), opts)
    }
}

pub open spec fn subgraphs_text(es: Seq<SubgraphEntry>, opts: Seq<RenderOption>) -> Seq<char>
    decreases es.len(),
{
    if es.len() == 0 {
        Seq::empty()
    } else {
        subgraphs_text(es.drop_last(), opts) + subgraph_text(es.last(), opts)
    }
}

pub open spec fn edges_text(es: Seq<EdgeEntry>, kind: GraphKind, opts: Seq<RenderOption>) -> Seq<
    char,
>
    decreases es.len(),
{
    if es.len() == 0 {
        Seq::empty()
    } else {
        edges_text(es.drop_last(), kind, opts) + edge_text(es.last(), kind, opts)
    }
}

/// A whole DOT document.
pub open spec fn document_text(
    kind: GraphKind,
    id: Seq<char>,
    rank: Option<RankDir>,
    attrs: Seq<(String, String)>,
    subgraphs: Seq<SubgraphEntry>,
    nodes: Seq<NodeEntry>,
    edges: Seq<EdgeEntry>,
    opts: Seq<RenderOption>,
) -> Seq<char> {
    prologue_text(kind, id, rank, attrs, opts) + subgraphs_text(subgraphs, opts) + nodes_text(
        nodes,
        opts,
    ) + edges_text(edges, kind, opts) + "}\n"@
}

// ---------------------------------------------------------------------
// Writing each part

fn push_attr_lines(out: &mut String, attrs: &Vec<(String, String)>)
    ensures
        final(out)@ == old(out)@ + attr_lines(attrs@),
{
    let ghost start = out@;
    let mut i: usize = 0;
    while i < attrs.len()
        invariant
            i <= attrs@.len(),
            out@ == start + attr_lines(attrs@.subrange(0, i as int)),
        decreases attrs@.len() - i,
    {
        out.append("    ");
        out.append(attrs[i].0.as_str());
        out.append("=");
        out.append(attrs[i].1.as_str());
        out.append("\n");
        proof {
            assert(attrs@.subrange(0, i + 1).drop_last() =~= attrs@.subrange(0, i as int));
            assert(out@ =~= start + attr_lines(attrs@.subrange(0, i + 1)));
        }
        i = i + 1;
    }
    proof {
        assert(attrs@.subrange(0, i as int) =~= attrs@);
    }
}

fn push_attr_statements(out: &mut String, attrs: &Vec<(String, String)>)
    ensures
        final(out)@ == old(out)@ + attr_statements(attrs@),
{
    let ghost start = out@;
    let mut i: usize = 0;
    while i < attrs.len()
        invariant
            i <= attrs@.len(),
            out@ == start + attr_statements(attrs@.subrange(0, i as int)),
        decreases attrs@.len() - i,
    {
        out.append("    ");
        out.append(attrs[i].0.as_str());
        out.append("=");
        out.append(attrs[i].1.as_str());
        out.append(";\n");
        proof {
            assert(attrs@.subrange(0, i + 1).drop_last() =~= attrs@.subrange(0, i as int));
            assert(out@ =~= start + attr_statements(attrs@.subrange(0, i + 1)));
        }
        i = i + 1;
    }
    proof {
        assert(attrs@.subrange(0, i as int) =~= attrs@);
    }
}

fn push_attr_brackets(out: &mut String, attrs: &Vec<(String, String)>)
    ensures
        final(out)@ == old(out)@ + attr_brackets(attrs@),
{
    let ghost start = out@;
    let mut i: usize = 0;
    while i < attrs.len()
        invariant
            i <= attrs@.len(),
            out@ == start + attr_brackets(attrs@.subrange(0, i as int)),
        decreases attrs@.len() - i,
    {
        out.append("[");
        out.append(attrs[i].0.as_str());
        out.append("=");
        out.append(attrs[i].1.as_str());
        out.append("]");
        proof {
            assert(attrs@.subrange(0, i + 1).drop_last() =~= attrs@.subrange(0, i as int));
            assert(out@ =~= start + attr_brackets(attrs@.subrange(0, i + 1)));
        }
        i = i + 1;
    }
    proof {
        assert(attrs@.subrange(0, i as int) =~= attrs@);
    }
}

fn push_attr_inline(out: &mut String, attrs: &Vec<(String, String)>)
    ensures
        final(out)@ == old(out)@ + attr_inline(attrs@),
{
    let ghost start = out@;
    let mut i: usize = 0;
    while i < attrs.len()
        invariant
            i <= attrs@.len(),
            out@ == start + attr_inline(attrs@.subrange(0, i as int)),
        decreases attrs@.len() - i,
    {
        out.append(attrs[i].0.as_str());
        out.append("=");
        out.append(attrs[i].1.as_str());
        proof {
            assert(attrs@.subrange(0, i + 1).drop_last() =~= attrs@.subrange(0, i as int));
            assert(out@ =~= start + attr_inline(attrs@.subrange(0, i + 1)));
        }
        i = i + 1;
    }
    proof {
        assert(attrs@.subrange(0, i as int) =~= attrs@);
    }
}

fn push_member_lines(out: &mut String, members: &Vec<Id>)
    ensures
        final(out)@ == old(out)@ + member_lines(members@),
{
    let ghost start = out@;
    let mut i: usize = 0;
    while i < members.len()
        invariant
            i <= members@.len(),
            out@ == start + member_lines(members@.subrange(0, i as int)),
        decreases members@.len() - i,
    {
        out.append("    ");
        out.append(members[i].as_str());
        out.append(";\n");
        proof {
            assert(members@.subrange(0, i + 1).drop_last() =~= members@.subrange(0, i as int));
            assert(out@ =~= start + member_lines(members@.subrange(0, i + 1)));
        }
        i = i + 1;
    }
    proof {
        assert(members@.subrange(0, i as int) =~= members@);
    }
}

fn push_style_bracket(out: &mut String, style: Style, suppressed: bool)
    ensures
        final(out)@ == old(out)@ + style_bracket(style, suppressed),
{
    let ghost start = out@;
    if !suppressed && style != Style::NoStyle {
        out.append("[style=\"");
        out.append(style.as_static_str());
        out.append("\"]");
    }
    proof {
        assert(out@ =~= start + style_bracket(style, suppressed));
    }
}

fn push_color_bracket(out: &mut String, color: &Option<Text>, suppressed: bool)
    ensures
        final(out)@ == old(out)@ + color_bracket(*color, suppressed),
{
    let ghost start = out@;
    if !suppressed {
        if let Some(c) = color {
            out.append("[color=");
            let t = c.to_escaped_string();
            out.append(t.as_str());
            out.append("]");
        }
    }
    proof {
        assert(out@ =~= start + color_bracket(*color, suppressed));
    }
}

fn push_label_bracket(out: &mut String, label: &Text, suppressed: bool)
    ensures
        final(out)@ == old(out)@ + label_bracket(*label, suppressed),
{
    let ghost start = out@;
    if !suppressed {
        out.append("[label=");
        let t = label.to_escaped_string();
        out.append(t.as_str());
        out.append("]");
    }
    proof {
        assert(out@ =~= start + label_bracket(*label, suppressed));
    }
}

fn push_shape_bracket(out: &mut String, shape: &Option<Text>)
    ensures
        final(out)@ == old(out)@ + shape_bracket(*shape),
{
    let ghost start = out@;
    if let Some(s) = shape {
        out.append("[shape=");
        let t = s.to_escaped_string();
        out.append(t.as_str());
        out.append("]");
    }
    proof {
        assert(out@ =~= start + shape_bracket(*shape));
    }
}

/// The statement that declares one node, with its attributes as the
/// options allow.
pub fn node_statement(entry: &NodeEntry, options: &[RenderOption]) -> (r: String)
    ensures
        r@ == node_text(*entry, options@),
{
    let no_labels = has_option(options, RenderOption::NoNodeLabels);
    let no_styles = has_option(options, RenderOption::NoNodeStyles);
    let no_colors = has_option(options, RenderOption::NoNodeColors);
    let mut text = String::new();
    text.append("    ");
    text.append(entry.id.as_str());
    push_label_bracket(&mut text, &entry.label, no_labels);
    push_style_bracket(&mut text, entry.style, no_styles);
    push_color_bracket(&mut text, &entry.color, no_colors);
    push_shape_bracket(&mut text, &entry.shape);
    push_attr_brackets(&mut text, &entry.attrs);
    text.append(";\n");
    proof {
        reveal_strlit("");
        assert(Seq::<char>::empty() + "    "@ =~= "    "@);
    }
    text
}

fn push_subgraph_name(out: &mut String, id: &Option<Id>)
    ensures
        final(out)@ == old(out)@ + subgraph_name_text(*id),
{
    let ghost start = out@;
    if let Some(id) = id {
        out.append(" ");
        out.append(id.as_str());
    }
    proof {
        assert(out@ =~= start + subgraph_name_text(*id));
    }
}

fn push_label_line(out: &mut String, label: &Text, suppressed: bool)
    ensures
        final(out)@ == old(out)@ + label_line(*label, suppressed),
{
    let ghost start = out@;
    if !suppressed {
        out.append("    label=");
        let t = label.to_escaped_string();
        out.append(t.as_str());
        out.append(";\n");
    }
    proof {
        assert(out@ =~= start + label_line(*label, suppressed));
    }
}

fn push_style_line(out: &mut String, style: Style, suppressed: bool)
    ensures
        final(out)@ == old(out)@ + style_line(style, suppressed),
{
    let ghost start = out@;
    if !suppressed && style != Style::NoStyle {
        out.append("    style=\"");
        out.append(style.as_static_str());
        out.append("\";\n");
    }
    proof {
        assert(out@ =~= start + style_line(style, suppressed));
    }
}

fn push_color_line(out: &mut String, color: &Option<Text>, suppressed: bool)
    ensures
        final(out)@ == old(out)@ + color_line(*color, suppressed),
{
    let ghost start = out@;
    if !suppressed {
        if let Some(c) = color {
            out.append("    color=");
            let t = c.to_escaped_string();
            out.append(t.as_str());
            out.append(";\n");
        }
    }
    proof {
        assert(out@ =~= start + color_line(*color, suppressed));
    }
}

fn push_shape_line(out: &mut String, shape: &Option<Text>)
    ensures
        final(out)@ == old(out)@ + shape_line(*shape),
{
    let ghost start = out@;
    if let Some(s) = shape {
        out.append("    shape=");
        let t = s.to_escaped_string();
        out.append(t.as_str());
        out.append(";\n");
    }
    proof {
        assert(out@ =~= start + shape_line(*shape));
    }
}

/// The block that declares one subgraph and its member nodes, with its
/// attributes as the options allow.
pub fn subgraph_statement(entry: &SubgraphEntry, options: &[RenderOption]) -> (r: String)
    ensures
        r@ == subgraph_text(*entry, options@),
{
    let no_labels = has_option(options, RenderOption::NoNodeLabels);
    let no_styles = has_option(options, RenderOption::NoNodeStyles);
    let no_colors = has_option(options, RenderOption::NoNodeColors);
    let mut text = String::new();
    text.append("subgraph");
    push_subgraph_name(&mut text, &entry.id);
    text.append(" {\n");
    push_label_line(&mut text, &entry.label, no_labels);
    push_style_line(&mut text, entry.style, no_styles);
    push_color_line(&mut text, &entry.color, no_colors);
    push_shape_line(&mut text, &entry.shape);
    push_attr_statements(&mut text, &entry.attrs);
    push_member_lines(&mut text, &entry.members);
    text.append("}\n");
    proof {
        reveal_strlit("");
        assert(Seq::<char>::empty() + "subgraph"@ =~= "subgraph"@);
    }
    text
}

fn push_port(out: &mut String, port: &Option<Id>)
    ensures
        final(out)@ == old(out)@ + port_text(*port),
{
    let ghost start = out@;
    if let Some(p) = port {
        out.append(":");
        out.append(p.as_str());
    }
    proof {
        assert(out@ =~= start + port_text(*port));
    }
}

fn push_compass(out: &mut String, point: Option<CompassPoint>)
    ensures
        final(out)@ == old(out)@ + compass_text(point),
{
    let ghost start = out@;
    if let Some(p) = point {
        out.append(p.as_static_str());
    }
    proof {
        assert(out@ =~= start + compass_text(point));
    }
}

fn push_arrow_bracket(out: &mut String, start_arrow: &Arrow, end_arrow: &Arrow, suppressed: bool)
    ensures
        final(out)@ == old(out)@ + arrow_bracket(
            start_arrow.arrows@,
            end_arrow.arrows@,
            suppressed,
        ),
{
    let ghost start = out@;
    let start_default = start_arrow.is_default();
    let end_default = end_arrow.is_default();
    if !suppressed && (!start_default || !end_default) {
        out.append("[");
        let ghost open = out@;
        if !end_default {
            out.append("arrowhead=\"");
            let h = end_arrow.to_dot_string();
            out.append(h.as_str());
            out.append("\"");
        }
        let ghost head = out@;
        if !start_default {
            if !end_default {
                out.append(" ");
            }
            out.append("dir=\"both\" arrowtail=\"");
            let t = start_arrow.to_dot_string();
            out.append(t.as_str());
            out.append("\"");
        }
        let ghost tail = out@;
        out.append("]");
        proof {
            let sa = start_arrow.arrows@;
            let ea = end_arrow.arrows@;
            let hp = if ea.len() > 0 {
                "arrowhead=\""@ + arrow_str(ea) + "\""@
            } else {
                Seq::empty()
            };
            let tp = if sa.len() > 0 {
                (if ea.len() > 0 {
                    " "@
                } else {
                    Seq::empty()
                }) + "dir=\"both\" arrowtail=\""@ + arrow_str(sa) + "\""@
            } else {
                Seq::empty()
            };
            assert(open == start + "["@);
            assert(head =~= open + hp);
            assert(tail =~= head + tp);
            assert(out@ =~= start + ("["@ + hp + tp + "]"@));
        }
    }
    proof {
        assert(out@ =~= start + arrow_bracket(start_arrow.arrows@, end_arrow.arrows@, suppressed));
    }
}

/// The statement that draws one edge of a graph of kind `kind`, with its
/// attributes as the options allow.
pub fn edge_statement(entry: &EdgeEntry, kind: GraphKind, options: &[RenderOption]) -> (r: String)
    ensures
        r@ == edge_text(*entry, kind, options@),
{
    let no_labels = has_option(options, RenderOption::NoEdgeLabels);
    let no_styles = has_option(options, RenderOption::NoEdgeStyles);
    let no_colors = has_option(options, RenderOption::NoEdgeColors);
    let no_arrows = has_option(options, RenderOption::NoArrows);
    let mut text = String::new();
    text.append("    ");
    text.append(entry.source.as_str());
    push_port(&mut text, &entry.start_port);
    push_compass(&mut text, entry.start_point);
    text.append(" ");
    text.append(kind.as_edge_op());
    text.append(" ");
    text.append(entry.target.as_str());
    push_port(&mut text, &entry.end_port);
    push_compass(&mut text, entry.end_point);
    push_label_bracket(&mut text, &entry.label, no_labels);
    push_style_bracket(&mut text, entry.style, no_styles);
    push_color_bracket(&mut text, &entry.color, no_colors);
    push_arrow_bracket(&mut text, &entry.start_arrow, &entry.end_arrow, no_arrows);
    push_attr_inline(&mut text, &entry.attrs);
    text.append(";\n");
    proof {
        reveal_strlit("");
        assert(Seq::<char>::empty() + "    "@ =~= "    "@);
    }
    text
}

fn push_style_attrs(out: &mut String, font: Option<&String>, dark: bool, graph_level: bool)
    ensures
        final(out)@ == old(out)@ + (if graph_level {
            graph_style_attrs(
                match font {
                    Some(f) => Some(f@),
                    None => None,
                },
                dark,
            )
        } else {
            content_style_attrs(
                match font {
                    Some(f) => Some(f@),
                    None => None,
                },
                dark,
            )
        }),
{
    let ghost start = out@;
    if let Some(f) = font {
        out.append("fontname=\"");
        out.append(f.as_str());
        out.append("\"");
        if dark {
            out.append(" ");
        }
    }
    if dark {
        if graph_level {
            out.append("bgcolor=\"black\" fontcolor=\"white\"");
        } else {
            out.append("color=\"white\" fontcolor=\"white\"");
        }
    }
    proof {
        reveal_strlit("");
        let fv: Option<Seq<char>> = match font {
            Some(f) => Some(f@),
            None => None,
        };
        if graph_level {
            assert(out@ =~= start + graph_style_attrs(fv, dark));
        } else {
            assert(out@ =~= start + content_style_attrs(fv, dark));
        }
    }
}

fn push_style_block(out: &mut String, options: &[RenderOption])
    ensures
        final(out)@ == old(out)@ + style_block(options@),
{
    let ghost start = out@;
    let font = find_fontname(options);
    let dark = has_option(options, RenderOption::DarkTheme);
    if font.is_some() || dark {
        out.append("    graph[");
        push_style_attrs(out, font, dark, true);
        out.append("];\n");
        out.append("    node[");
        push_style_attrs(out, font, dark, false);
        out.append("];\n");
        out.append("    edge[");
        push_style_attrs(out, font, dark, false);
        out.append("];\n");
    }
    proof {
        reveal_strlit("");
        assert(out@ =~= start + style_block(options@));
    }
}

/// Appends everything that comes before the subgraphs: the header line,
/// the rank direction (only for a directed graph), one line per graph
/// attribute, and the global style block that the options ask for.
pub fn write_prologue(
    w: &mut String,
    kind: GraphKind,
    id: &Id,
    rank: Option<RankDir>,
    attrs: &Vec<(String, String)>,
    options: &[RenderOption],
)
    ensures
        final(w)@ == old(w)@ + prologue_text(kind, id@, rank, attrs@, options@),
{
    let ghost start = w@;
    w.append(kind.as_keyword());
    w.append(" ");
    w.append(id.as_str());
    w.append(" {\n");
    let ghost header = w@;
    if kind == GraphKind::Directed {
        if let Some(r) = rank {
            w.append("    rankdir=\"");
            w.append(r.as_static_str());
            w.append("\";\n");
        }
    }
    let ghost ranked = w@;
    proof {
        reveal_strlit("");
        assert(ranked =~= header + rank_line(kind, rank));
    }
    push_attr_lines(w, attrs);
    push_style_block(w, options);
    proof {
        assert(header =~= start + (keyword_of(kind) + " "@ + id@ + " {\n"@));
    }
}

/// Writes the statement of each node of `nodes`, in order, as the
/// labeller describes it.
pub fn render_nodes<N, E, S, G>(w: &mut String, graph: &G, nodes: &Vec<N>, options: &[RenderOption])
    where
        G: Labeller<Node = N, Edge = E, Subgraph = S> + GraphWalk<Node = N, Edge = E, Subgraph = S>,
    ensures
        exists|es: Seq<NodeEntry>|
            es.len() == nodes@.len() && final(w)@ == old(w)@ + #[trigger] nodes_text(es, options@),
{
    let ghost start = w@;
    let ghost mut es: Seq<NodeEntry> = Seq::empty();
    let mut i: usize = 0;
    while i < nodes.len()
        invariant
            i <= nodes@.len(),
            es.len() == i,
            w@ == start + nodes_text(es, options@),
        decreases nodes@.len() - i,
    {
        let n = &nodes[i];
        let entry = NodeEntry {
            id: graph.node_id(n),
            label: graph.node_label(n),
            style: graph.node_style(n),
            color: graph.node_color(n),
            shape: graph.node_shape(n),
            attrs: graph.node_attrs(n),
        };
        let line = node_statement(&entry, options);
        w.append(line.as_str());
        proof {
            let prev = es;
            es = es.push(entry);
            assert(es.drop_last() =~= prev);
        }
        i = i + 1;
    }
    proof {
        assert(w@ == start + nodes_text(es, options@));
    }
}

/// Writes the block of each subgraph of `subgraphs`, in order, as the walk
/// and the labeller describe it.
pub fn render_subgraphs<N, E, S, G>(
    w: &mut String,
    graph: &G,
    subgraphs: &Vec<S>,
    options: &[RenderOption],
)
    where
        G: Labeller<Node = N, Edge = E, Subgraph = S> + GraphWalk<Node = N, Edge = E, Subgraph = S>,
    ensures
        exists|es: Seq<SubgraphEntry>|
            es.len() == subgraphs@.len() && final(w)@ == old(w)@ + #[trigger] subgraphs_text(
                es,
                options@,
            ),
{
    let ghost start = w@;
    let ghost mut es: Seq<SubgraphEntry> = Seq::empty();
    let mut i: usize = 0;
    while i < subgraphs.len()
        invariant
            i <= subgraphs@.len(),
            es.len() == i,
            w@ == start + subgraphs_text(es, options@),
        decreases subgraphs@.len() - i,
    {
        let s = &subgraphs[i];
        let nodes = graph.subgraph_nodes(s);
        let mut members: Vec<Id> = Vec::new();
        let mut j: usize = 0;
        while j < nodes.len()
            invariant
                j <= nodes@.len(),
            decreases nodes@.len() - j,
        {
            members.push(graph.node_id(&nodes[j]));
            j = j + 1;
        }
        let entry = SubgraphEntry {
            id: graph.subgraph_id(s),
            label: graph.subgraph_label(s),
            style: graph.subgraph_style(s),
            color: graph.subgraph_color(s),
            shape: graph.subgraph_shape(s),
            attrs: graph.subgraph_attrs(s),
            members,
        };
        let block = subgraph_statement(&entry, options);
        w.append(block.as_str());
        proof {
            let prev = es;
            es = es.push(entry);
            assert(es.drop_last() =~= prev);
        }
        i = i + 1;
    }
    proof {
        assert(w@ == start + subgraphs_text(es, options@));
    }
}

/// Writes the statement of each edge of `edges`, in order, as the walk and
/// the labeller describe it.
pub fn render_edges<N, E, S, G>(w: &mut String, graph: &G, edges: &Vec<E>, options: &[RenderOption])
    where
        G: Labeller<Node = N, Edge = E, Subgraph = S> + GraphWalk<Node = N, Edge = E, Subgraph = S>,
    ensures
        exists|kind: GraphKind, es: Seq<EdgeEntry>|
            es.len() == edges@.len() && final(w)@ == old(w)@ + #[trigger] edges_text(
                es,
                kind,
                options@,
            ),
{
    let kind = graph.kind();
    write_edges(w, graph, edges, kind, options);
}

fn write_edges<N, E, S, G>(
    w: &mut String,
    graph: &G,
    edges: &Vec<E>,
    kind: GraphKind,
    options: &[RenderOption],
)
    where
        G: Labeller<Node = N, Edge = E, Subgraph = S> + GraphWalk<Node = N, Edge = E, Subgraph = S>,
    ensures
        exists|es: Seq<EdgeEntry>|
            es.len() == edges@.len() && final(w)@ == old(w)@ + #[trigger] edges_text(
                es,
                kind,
                options@,
            ),
{
    let ghost start = w@;
    let ghost mut es: Seq<EdgeEntry> = Seq::empty();
    let mut i: usize = 0;
    while i < edges.len()
        invariant
            i <= edges@.len(),
            es.len() == i,
            w@ == start + edges_text(es, kind, options@),
        decreases edges@.len() - i,
    {
        let e = &edges[i];
        let source = graph.source(e);
        let target = graph.target(e);
        let entry = EdgeEntry {
            source: graph.node_id(&source),
            target: graph.node_id(&target),
            label: graph.edge_label(e),
            style: graph.edge_style(e),
            color: graph.edge_color(e),
            start_arrow: graph.edge_start_arrow(e),
            end_arrow: graph.edge_end_arrow(e),
            start_port: graph.edge_start_port(e),
            end_port: graph.edge_end_port(e),
            start_point: graph.edge_start_point(e),
            end_point: graph.edge_end_point(e),
            attrs: graph.edge_attrs(e),
        };
        let line = edge_statement(&entry, kind, options);
        w.append(line.as_str());
        proof {
            let prev = es;
            es = es.push(entry);
            assert(es.drop_last() =~= prev);
        }
        i = i + 1;
    }
    proof {
        assert(w@ == start + edges_text(es, kind, options@));
    }
}

/// Appends to `w` the DOT text of `graph`: the header, the rank direction
/// of a directed graph, the graph attributes, the global style block, the
/// subgraphs, the nodes, the edges and the closing brace, in that order.
pub fn render_opts<N, E, S, G>(graph: &G, w: &mut String, options: &[RenderOption])
    where
        G: Labeller<Node = N, Edge = E, Subgraph = S> + GraphWalk<Node = N, Edge = E, Subgraph = S>,
    ensures
        exists|
            kind: GraphKind,
            id: Seq<char>,
            rank: Option<RankDir>,
            attrs: Seq<(String, String)>,
            ss: Seq<SubgraphEntry>,
            ns: Seq<NodeEntry>,
            es: Seq<EdgeEntry>,
        |
            final(w)@ == old(w)@ + #[trigger] document_text(
                kind,
                id,
                rank,
                attrs,
                ss,
                ns,
                es,
                options@,
            ),
{
    let ghost start = w@;
    let kind = graph.kind();
    let id = graph.graph_id();
    let rank = if kind == GraphKind::Directed {
        graph.rank_dir()
    } else {
        None
    };
    let attrs = graph.graph_attrs();
    write_prologue(w, kind, &id, rank, &attrs, options);
    let ghost prologue = w@;
    let subgraphs = graph.subgraphs();
    render_subgraphs(w, graph, &subgraphs, options);
    let ghost after_subgraphs = w@;
    let nodes = graph.nodes();
    render_nodes(w, graph, &nodes, options);
    let ghost after_nodes = w@;
    write_edges(w, graph, &graph.edges(), kind, options);
    let ghost after_edges = w@;
    w.append("}\n");
    proof {
        let ss = choose|ss: Seq<SubgraphEntry>|
            ss.len() == subgraphs@.len() && after_subgraphs == prologue + #[trigger] subgraphs_text(
                ss,
                options@,
            );
        let ns = choose|ns: Seq<NodeEntry>|
            ns.len() == nodes@.len() && after_nodes == after_subgraphs + #[trigger] nodes_text(
                ns,
                options@,
            );
        let es = choose|es: Seq<EdgeEntry>|
            after_edges == after_nodes + #[trigger] edges_text(es, kind, options@);
        assert(w@ == start + document_text(kind, id@, rank, attrs@, ss, ns, es, options@));
    }
}

/// Appends to `w` the DOT text of `graph`, with no option.
pub fn render<N, E, S, G>(graph: &G, w: &mut String)
    where
        G: Labeller<Node = N, Edge = E, Subgraph = S> + GraphWalk<Node = N, Edge = E, Subgraph = S>,
    ensures
        exists|
            kind: GraphKind,
            id: Seq<char>,
            rank: Option<RankDir>,
            attrs: Seq<(String, String)>,
            ss: Seq<SubgraphEntry>,
            ns: Seq<NodeEntry>,
            es: Seq<EdgeEntry>,
        |
            final(w)@ == old(w)@ + #[trigger] document_text(
                kind,
                id,
                rank,
                attrs,
                ss,
                ns,
                es,
                Seq::empty(),
            ),
{
    let options: Vec<RenderOption> = Vec::new();
    render_opts(graph, w, options.as_slice());
}

// ---------------------------------------------------------------------
// What the output is bound to

/// Adding an option `o` changes which options are present only in `o`.
proof fn lemma_push_contains(opts: Seq<RenderOption>, o: RenderOption, x: RenderOption)
    ensures
        opts.push(o).contains(x) <==> (opts.contains(x) || o == x),
{
    if opts.contains(x) {
        let i = choose|i: int| 0 <= i < opts.len() && opts[i] == x;
        assert(opts.push(o)[i] == x);
    }
    if o == x {
        assert(opts.push(o)[opts.len() as int] == x);
    }
    if opts.push(o).contains(x) {
        let i = choose|i: int| 0 <= i < opts.push(o).len() && opts.push(o)[i] == x;
        if i < opts.len() {
            assert(opts[i] == x);
        }
    }
}

/// With arrows not suppressed, an edge gets an arrow bracket exactly when
/// one of its two arrows is not the default; an edge whose arrows are both
/// the default is written as if arrows were suppressed.
pub proof fn lemma_arrow_bracket_iff_not_default(e: EdgeEntry, kind: GraphKind, opts: Seq<RenderOption>)
    requires
        !opts.contains(RenderOption::NoArrows),
    ensures
        arrow_bracket(e.start_arrow.arrows@, e.end_arrow.arrows@, false).len() == 0 <==> (
        e.start_arrow.arrows@.len() == 0 && e.end_arrow.arrows@.len() == 0),
        e.start_arrow.arrows@.len() == 0 && e.end_arrow.arrows@.len() == 0 ==> edge_text(
            e,
            kind,
            opts,
        ) == edge_text(e, kind, opts.push(RenderOption::NoArrows)),
{
    reveal_strlit("[");
    reveal_strlit("]");
    lemma_push_contains(opts, RenderOption::NoArrows, RenderOption::NoEdgeLabels);
    lemma_push_contains(opts, RenderOption::NoArrows, RenderOption::NoEdgeStyles);
    lemma_push_contains(opts, RenderOption::NoArrows, RenderOption::NoEdgeColors);
    lemma_push_contains(opts, RenderOption::NoArrows, RenderOption::NoArrows);
}

/// `Style::NoStyle` writes no style attribute: a node, edge or subgraph
/// with that style is written exactly as it would be with styles
/// suppressed.
pub proof fn lemma_no_style_writes_nothing(
    n: NodeEntry,
    e: EdgeEntry,
    s: SubgraphEntry,
    kind: GraphKind,
    opts: Seq<RenderOption>,
)
    requires
        n.style == Style::NoStyle,
        e.style == Style::NoStyle,
        s.style == Style::NoStyle,
    ensures
        style_bracket(Style::NoStyle, false) == Seq::<char>::empty(),
        style_line(Style::NoStyle, false) == Seq::<char>::empty(),
        node_text(n, opts) == node_text(n, opts.push(RenderOption::NoNodeStyles)),
        edge_text(e, kind, opts) == edge_text(e, kind, opts.push(RenderOption::NoEdgeStyles)),
        subgraph_text(s, opts) == subgraph_text(s, opts.push(RenderOption::NoNodeStyles)),
{
    let on = opts.push(RenderOption::NoNodeStyles);
    let oe = opts.push(RenderOption::NoEdgeStyles);
    lemma_push_contains(opts, RenderOption::NoNodeStyles, RenderOption::NoNodeLabels);
    lemma_push_contains(opts, RenderOption::NoNodeStyles, RenderOption::NoNodeStyles);
    lemma_push_contains(opts, RenderOption::NoNodeStyles, RenderOption::NoNodeColors);
    lemma_push_contains(opts, RenderOption::NoEdgeStyles, RenderOption::NoEdgeLabels);
    lemma_push_contains(opts, RenderOption::NoEdgeStyles, RenderOption::NoEdgeStyles);
    lemma_push_contains(opts, RenderOption::NoEdgeStyles, RenderOption::NoEdgeColors);
    lemma_push_contains(opts, RenderOption::NoEdgeStyles, RenderOption::NoArrows);
}

/// `t` stands in `s` at position `i`.
pub open spec fn occurs_at(s: Seq<char>, t: Seq<char>, i: int) -> bool {
    0 <= i && i + t.len() <= s.len() && s.subrange(i, i + t.len()) == t
}

/// `t` stands somewhere in `s`.
pub open spec fn occurs_in(s: Seq<char>, t: Seq<char>) -> bool {
    exists|i: int| occurs_at(s, t, i)
}

/// In the arrow bracket of an edge whose arrows are not suppressed, an
/// `arrowhead=` attribute stands exactly when the end arrow is not the
/// default, and an `arrowtail=` attribute exactly when the start arrow is
/// not the default.
pub proof fn lemma_arrow_attribute_names(start: Seq<ArrowVertex>, end: Seq<ArrowVertex>)
    ensures
        occurs_in(arrow_bracket(start, end, false), "arrowhead="@) <==> end.len() > 0,
        occurs_in(arrow_bracket(start, end, false), "arrowtail="@) <==> start.len() > 0,
{
    let b = arrow_bracket(start, end, false);
    let head = "arrowhead="@;
    let tail = "arrowtail="@;
    reveal_strlit("arrowhead=");
    reveal_strlit("arrowtail=");
    reveal_strlit("[");
    reveal_strlit("]");
    reveal_strlit("\"");
    reveal_strlit(" ");
    reveal_strlit("arrowhead=\"");
    reveal_strlit("dir=\"both\" arrowtail=\"");
    assert(head =~= seq!['a', 'r', 'r', 'o', 'w', 'h', 'e', 'a', 'd', '=']);
    assert(tail =~= seq!['a', 'r', 'r', 'o', 'w', 't', 'a', 'i', 'l', '=']);
    let hp = "arrowhead=\""@;
    let dp = "dir=\"both\" arrowtail=\""@;
    assert(hp =~= seq!['a', 'r', 'r', 'o', 'w', 'h', 'e', 'a', 'd', '=', '"']);
    assert(dp =~= seq![
        'd', 'i', 'r', '=', '"', 'b', 'o', 't', 'h', '"', ' ',
        'a', 'r', 'r', 'o', 'w', 't', 'a', 'i', 'l', '=', '"',
    ]);
    lemma_arrow_str_lowercase(start);
    lemma_arrow_str_lowercase(end);
    let a_end = arrow_str(end);
    let a_start = arrow_str(start);
    if end.len() > 0 {
        assert(b.subrange(1, 11) =~= head);
        assert(occurs_at(b, head, 1));
    }
    if start.len() > 0 {
        reveal_strlit("arrowtail=\"");
        reveal_strlit("\"]");
        let k = b.len() - a_start.len() - 13;
        let hpart = if end.len() > 0 {
            hp + a_end + "\""@
        } else {
            Seq::<char>::empty()
        };
        let sep = if end.len() > 0 {
            " "@
        } else {
            Seq::<char>::empty()
        };
        assert(b =~= "["@ + hpart + (sep + dp + a_start + "\""@) + "]"@);
        assert(b.subrange(k, b.len() as int) =~= "arrowtail=\""@ + a_start + "\"]"@);
        assert(b.subrange(k, k + 10) =~= tail);
        assert(occurs_at(b, tail, k));
    }
    if end.len() == 0 {
        if start.len() == 0 {
            assert(b.len() == 0);
        } else {
            let bb = "["@ + (Seq::<char>::empty() + dp + a_start + "\""@) + "]"@;
            assert(b =~= bb);
            assert forall|i: int| !occurs_at(b, head, i) by {
                if occurs_at(b, head, i) {
                    assert(b.subrange(i, i + 10)[9] == '=');
                    assert(b[i + 9] == '=');
                    if i + 9 < 23 {
                        assert(b[i + 9] == dp[i + 8]);
                        assert(i == 12);
                        assert(b.subrange(i, i + 10)[5] == b[17]);
                        assert(b[17] == 't');
                    } else if i + 9 < 23 + a_start.len() {
                        assert(b[i + 9] == a_start[i + 9 - 23]);
                    } else {
                        assert(false);
                    }
                }
            }
        }
    }
    if start.len() == 0 && end.len() > 0 {
        let bb = "["@ + (hp + a_end + "\""@) + Seq::<char>::empty() + "]"@;
        assert(b =~= bb);
        assert forall|i: int| !occurs_at(b, tail, i) by {
            if occurs_at(b, tail, i) {
                assert(b.subrange(i, i + 10)[9] == '=');
                assert(b[i + 9] == '=');
                if i + 9 < 12 {
                    assert(b[i + 9] == hp[i + 8]);
                    assert(i == 1);
                    assert(b.subrange(i, i + 10)[5] == b[6]);
                    assert(b[6] == 'h');
                } else if i + 9 < 12 + a_end.len() {
                    assert(b[i + 9] == a_end[i + 9 - 12]);
                } else {
                    assert(false);
                }
            }
        }
    }
}

} // verus!
