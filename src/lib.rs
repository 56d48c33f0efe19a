//! Writes graphs in the DOT language of Graphviz.
//!
//! The library holds no graph of its own: a caller describes its graph
//! through two traits, `GraphWalk` (which nodes, edges and subgraphs there
//! are) and `Labeller` (what each of them is called and how it looks), and
//! `render_opts` writes the DOT text of that graph.
pub mod id;
pub mod render;
mod strings;
pub mod text;
pub mod types;

pub use id::{Id, IdError};
pub use render::{render, render_edges, render_nodes, render_opts, render_subgraphs, RenderOption};
pub use text::{escape_html, Text};
pub use types::{Arrow, ArrowVertex, CompassPoint, GraphKind, RankDir, ShapeFill, Side, Style};

use vstd::prelude::*;

verus! {

/// What a graph says of itself and of its nodes, edges and subgraphs: the
/// identifiers, and the labels, styles and other attributes to draw them
/// with. Every method but `graph_id` and `node_id` has a default.
pub trait Labeller {
    type Node;
    type Edge;
    type Subgraph;

    /// Must return a DOT compatible identifier naming the graph.
    fn graph_id(&self) -> Id;

    /// Attributes of the whole graph, written one per line in this order.
    fn graph_attrs(&self) -> Vec<(String, String)> {
        Vec::new()
    }

    /// Maps `n` to an identifier that is unique in this graph.
    fn node_id(&self, n: &Self::Node) -> Id;

    /// Maps `n` to one of the graphviz `shape` names. If `None` is
    /// returned, no `shape` attribute is written.
    fn node_shape(&self, _node: &Self::Node) -> Option<Text> {
        None
    }

    /// Maps `n` to its label; the default is its identifier.
    fn node_label(&self, n: &Self::Node) -> Text {
        let id = self.node_id(n);
        Text::label(id.as_str())
    }

    /// Maps `e` to its label; the default is the empty string.
    fn edge_label(&self, _e: &Self::Edge) -> Text {
        Text::label("")
    }

    /// Maps `n` to a style; the default writes none.
    fn node_style(&self, _n: &Self::Node) -> Style {
        Style::NoStyle
    }

    /// The rank direction of a directed graph; `None` leaves it to
    /// Graphviz (top to bottom).
    fn rank_dir(&self) -> Option<RankDir> {
        None
    }

    /// Maps `n` to one of the graphviz `color` names. If `None` is
    /// returned, no `color` attribute is written.
    fn node_color(&self, _node: &Self::Node) -> Option<Text> {
        None
    }

    /// Maps `n` to arbitrary attributes, written in this order.
    fn node_attrs(&self, _n: &Self::Node) -> Vec<(String, String)> {
        Vec::new()
    }

    /// Maps `e` to the arrow at its end; the default arrow writes nothing.
    fn edge_end_arrow(&self, _e: &Self::Edge) -> Arrow {
        Arrow::default()
    }

    /// Maps `e` to the arrow at its start; the default arrow writes nothing.
    fn edge_start_arrow(&self, _e: &Self::Edge) -> Arrow {
        Arrow::default()
    }

    /// Maps `e` to a style; the default writes none.
    fn edge_style(&self, _e: &Self::Edge) -> Style {
        Style::NoStyle
    }

    /// Maps `e` to one of the graphviz `color` names. If `None` is
    /// returned, no `color` attribute is written.
    fn edge_color(&self, _e: &Self::Edge) -> Option<Text> {
        None
    }

    /// Maps `e` to arbitrary attributes, written in this order.
    fn edge_attrs(&self, _e: &Self::Edge) -> Vec<(String, String)> {
        Vec::new()
    }

    /// Maps `e` to the compass point that it starts from.
    fn edge_start_point(&self, _e: &Self::Edge) -> Option<CompassPoint> {
        None
    }

    /// Maps `e` to the compass point that it ends at.
    fn edge_end_point(&self, _e: &Self::Edge) -> Option<CompassPoint> {
        None
    }

    /// Maps `e` to the port that it starts from.
    fn edge_start_port(&self, _e: &Self::Edge) -> Option<Id> {
        None
    }

    /// Maps `e` to the port that it ends at.
    fn edge_end_port(&self, _e: &Self::Edge) -> Option<Id> {
        None
    }

    /// The kind of graph; the default is `GraphKind::Directed`.
    fn kind(&self) -> GraphKind {
        GraphKind::Directed
    }

    /// Maps `s` to an identifier; `None` leaves the subgraph anonymous.
    /// An identifier that begins with `cluster_` has Graphviz draw the
    /// subgraph in a rectangle of its own.
    fn subgraph_id(&self, _s: &Self::Subgraph) -> Option<Id> {
        None
    }

    /// Maps `s` to its label; the default is the empty string.
    fn subgraph_label(&self, _s: &Self::Subgraph) -> Text {
        Text::label("")
    }

    /// Maps `s` to a style; the default writes none.
    fn subgraph_style(&self, _s: &Self::Subgraph) -> Style {
        Style::NoStyle
    }

    /// Maps `s` to a shape. If `None` is returned, no `shape` attribute is
    /// written.
    fn subgraph_shape(&self, _s: &Self::Subgraph) -> Option<Text> {
        None
    }

    /// Maps `s` to a color. If `None` is returned, no `color` attribute is
    /// written.
    fn subgraph_color(&self, _s: &Self::Subgraph) -> Option<Text> {
        None
    }

    /// Maps `s` to arbitrary attributes, written in this order.
    fn subgraph_attrs(&self, _s: &Self::Subgraph) -> Vec<(String, String)> {
        Vec::new()
    }
}

/// A graph made up of node handles `Node` and edge handles `Edge`, where
/// each edge can be mapped to its source and target nodes, and of
/// subgraphs that group nodes.
pub trait GraphWalk {
    type Node: Clone;
    type Edge: Clone;
    type Subgraph: Clone;

    /// Returns all the nodes in this graph.
    fn nodes(&self) -> Vec<Self::Node>;

    /// Returns all of the edges in this graph.
    fn edges(&self) -> Vec<Self::Edge>;

    /// The source node for `edge`.
    fn source(&self, edge: &Self::Edge) -> Self::Node;

    /// The target node for `edge`.
    fn target(&self, edge: &Self::Edge) -> Self::Node;

    /// Returns all the subgraphs in this graph.
    fn subgraphs(&self) -> Vec<Self::Subgraph> {
        Vec::new()
    }

    /// Returns the nodes of subgraph `s`.
    fn subgraph_nodes(&self, _s: &Self::Subgraph) -> Vec<Self::Node> {
        Vec::new()
    }
}

} // verus!
