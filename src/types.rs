use vstd::prelude::*;

verus! {

/// Graph kind determines if `digraph` or `graph` is used as keyword
/// for the graph.
#[derive(Copy, Clone, PartialEq, Eq, Debug, Structural)]
pub enum GraphKind {
    Directed,
    Undirected,
}

/// The keyword that introduces a graph of kind `k`.
pub open spec fn keyword_of(k: GraphKind) -> Seq<char> {
    match k {
        GraphKind::Directed => "digraph"@,
        GraphKind::Undirected => "graph"@,
    }
}

/// The edge operator of a graph of kind `k`.
pub open spec fn edge_op_of(k: GraphKind) -> Seq<char> {
    match k {
        GraphKind::Directed => "->"@,
        GraphKind::Undirected => "--"@,
    }
}

impl GraphKind {
    /// The keyword to use to introduce the graph.
    /// Determines which edge syntax must be used, and default style.
    pub fn as_keyword(&self) -> (r: &'static str)
        ensures
            r@ == keyword_of(*self),
    {
        match *self {
            GraphKind::Directed => "digraph",
            GraphKind::Undirected => "graph",
        }
    }

    /// The edgeop syntax to use for this graph kind.
    pub fn as_edge_op(&self) -> (r: &'static str)
        ensures
            r@ == edge_op_of(*self),
    {
        match *self {
            GraphKind::Directed => "->",
            GraphKind::Undirected => "--",
        }
    }
}

/// The direction to draw directed graphs (one rank at a time).
#[derive(Copy, Clone, PartialEq, Eq, Debug, Structural)]
pub enum RankDir {
    TopBottom,
    LeftRight,
    BottomTop,
    RightLeft,
}

pub open spec fn rank_dir_str(r: RankDir) -> Seq<char> {
    match r {
        RankDir::TopBottom => "TB"@,
        RankDir::LeftRight => "LR"@,
        RankDir::BottomTop => "BT"@,
        RankDir::RightLeft => "RL"@,
    }
}

impl RankDir {
    pub fn as_static_str(self) -> (r: &'static str)
        ensures
            r@ == rank_dir_str(self),
    {
        match self {
            RankDir::TopBottom => "TB",
            RankDir::LeftRight => "LR",
            RankDir::BottomTop => "BT",
            RankDir::RightLeft => "RL",
        }
    }
}

/// The style for a node or edge. `Style::NoStyle` means that no style
/// attribute is written at all.
/// Note that some of these are not valid for edges.
#[derive(Copy, Clone, PartialEq, Eq, Debug, Structural)]
pub enum Style {
    NoStyle,
    Solid,
    Dashed,
    Dotted,
    Bold,
    Rounded,
    Diagonals,
    Filled,
    Striped,
    Wedged,
}

pub open spec fn style_str(s: Style) -> Seq<char> {
    match s {
        Style::NoStyle => ""@,
        Style::Solid => "solid"@,
        Style::Dashed => "dashed"@,
        Style::Dotted => "dotted"@,
        Style::Bold => "bold"@,
        Style::Rounded => "rounded"@,
        Style::Diagonals => "diagonals"@,
        Style::Filled => "filled"@,
        Style::Striped => "striped"@,
        Style::Wedged => "wedged"@,
    }
}

impl Style {
    pub fn as_static_str(self) -> (r: &'static str)
        ensures
            r@ == style_str(self),
    {
        match self {
            Style::NoStyle => "",
            Style::Solid => "solid",
            Style::Dashed => "dashed",
            Style::Dotted => "dotted",
            Style::Bold => "bold",
            Style::Rounded => "rounded",
            Style::Diagonals => "diagonals",
            Style::Filled => "filled",
            Style::Striped => "striped",
            Style::Wedged => "wedged",
        }
    }
}

/// Arrow modifier that determines if the shape is empty or filled.
#[derive(Clone, Copy, Hash, PartialEq, Eq, Debug, Structural)]
pub enum ShapeFill {
    Open,
    Filled,
}

pub open spec fn fill_str(f: ShapeFill) -> Seq<char> {
    match f {
        ShapeFill::Open => "o"@,
        ShapeFill::Filled => ""@,
    }
}

impl ShapeFill {
    pub fn as_static_str(self) -> (r: &'static str)
        ensures
            r@ == fill_str(self),
    {
        match self {
            ShapeFill::Open => "o",
            ShapeFill::Filled => "",
        }
    }
}

/// Arrow modifier that determines if the shape is clipped.
/// For example `Side::Left` means only left side is visible.
#[derive(Clone, Copy, Hash, PartialEq, Eq, Debug, Structural)]
pub enum Side {
    Left,
    Right,
    Both,
}

pub open spec fn side_str(s: Side) -> Seq<char> {
    match s {
        Side::Left => "l"@,
        Side::Right => "r"@,
        Side::Both => ""@,
    }
}

impl Side {
    pub fn as_static_str(self) -> (r: &'static str)
        ensures
            r@ == side_str(self),
    {
        match self {
            Side::Left => "l",
            Side::Right => "r",
            Side::Both => "",
        }
    }
}

/// One primitive shape at the end of an edge; several of them in a row
/// make up an `Arrow`.
#[derive(Clone, Copy, Hash, PartialEq, Eq, Debug, Structural)]
pub enum ArrowVertex {
    /// No arrow will be displayed
    NoArrow,
    /// Arrow that ends in a triangle. Basically a normal arrow.
    Normal(ShapeFill, Side),
    /// Arrow ending in a small square box
    Box(ShapeFill, Side),
    /// Arrow ending in a three branching lines also called crow's foot
    Crow(Side),
    /// Arrow ending in a curve
    Curve(Side),
    /// Arrow ending in an inverted curve
    ICurve(ShapeFill, Side),
    /// Arrow ending in an diamond shaped rectangular shape.
    Diamond(ShapeFill, Side),
    /// Arrow ending in a circle.
    Dot(ShapeFill),
    /// Arrow ending in an inverted triangle.
    Inv(ShapeFill, Side),
    /// Arrow ending with a T shaped arrow.
    Tee(Side),
    /// Arrow ending with a V shaped arrow.
    Vee(Side),
}

/// The DOT token of one arrow vertex: fill token, then side token (empty
/// for `Side::Both`), then the shape keyword.
pub open spec fn vertex_str(v: ArrowVertex) -> Seq<char> {
    match v {
        ArrowVertex::NoArrow => "none"@,
        ArrowVertex::Normal(f, s) => fill_str(f) + side_str(s) + "normal"@,
        ArrowVertex::Box(f, s) => fill_str(f) + side_str(s) + "box"@,
        ArrowVertex::Crow(s) => side_str(s) + "crow"@,
        ArrowVertex::Curve(s) => side_str(s) + "curve"@,
        ArrowVertex::ICurve(f, s) => fill_str(f) + side_str(s) + "icurve"@,
        ArrowVertex::Diamond(f, s) => fill_str(f) + side_str(s) + "diamond"@,
        ArrowVertex::Dot(f) => fill_str(f) + "dot"@,
        ArrowVertex::Inv(f, s) => fill_str(f) + side_str(s) + "inv"@,
        ArrowVertex::Tee(s) => side_str(s) + "tee"@,
        ArrowVertex::Vee(s) => side_str(s) + "vee"@,
    }
}

impl ArrowVertex {
    /// Constructor which returns no arrow.
    pub fn none() -> (r: ArrowVertex)
        ensures
            r == ArrowVertex::NoArrow,
    {
        ArrowVertex::NoArrow
    }

    /// Constructor which returns normal arrow.
    pub fn normal() -> (r: ArrowVertex)
        ensures
            r == ArrowVertex::Normal(ShapeFill::Filled, Side::Both),
    {
        ArrowVertex::Normal(ShapeFill::Filled, Side::Both)
    }

    /// Constructor which returns a regular box arrow.
    pub fn boxed() -> (r: ArrowVertex)
        ensures
            r == ArrowVertex::Box(ShapeFill::Filled, Side::Both),
    {
        ArrowVertex::Box(ShapeFill::Filled, Side::Both)
    }

    /// Constructor which returns a regular crow arrow.
    pub fn crow() -> (r: ArrowVertex)
        ensures
            r == ArrowVertex::Crow(Side::Both),
    {
        ArrowVertex::Crow(Side::Both)
    }

    /// Constructor which returns a regular curve arrow.
    pub fn curve() -> (r: ArrowVertex)
        ensures
            r == ArrowVertex::Curve(Side::Both),
    {
        ArrowVertex::Curve(Side::Both)
    }

    /// Constructor which returns an inverted curve arrow.
    pub fn icurve() -> (r: ArrowVertex)
        ensures
            r == ArrowVertex::ICurve(ShapeFill::Filled, Side::Both),
    {
        ArrowVertex::ICurve(ShapeFill::Filled, Side::Both)
    }

    /// Constructor which returns a diamond arrow.
    pub fn diamond() -> (r: ArrowVertex)
        ensures
            r == ArrowVertex::Diamond(ShapeFill::Filled, Side::Both),
    {
        ArrowVertex::Diamond(ShapeFill::Filled, Side::Both)
    }

    /// Constructor which returns a circle shaped arrow.
    pub fn dot() -> (r: ArrowVertex)
        ensures
            r == ArrowVertex::Dot(ShapeFill::Filled),
    {
        ArrowVertex::Dot(ShapeFill::Filled)
    }

    /// Constructor which returns an inverted triangle arrow.
    pub fn inv() -> (r: ArrowVertex)
        ensures
            r == ArrowVertex::Inv(ShapeFill::Filled, Side::Both),
    {
        ArrowVertex::Inv(ShapeFill::Filled, Side::Both)
    }

    /// Constructor which returns a T shaped arrow.
    pub fn tee() -> (r: ArrowVertex)
        ensures
            r == ArrowVertex::Tee(Side::Both),
    {
        ArrowVertex::Tee(Side::Both)
    }

    /// Constructor which returns a V shaped arrow.
    pub fn vee() -> (r: ArrowVertex)
        ensures
            r == ArrowVertex::Vee(Side::Both),
    {
        ArrowVertex::Vee(Side::Both)
    }

    /// Renders this vertex as its DOT token.
    pub fn to_dot_string(&self) -> (r: String)
        ensures
            r@ == vertex_str(*self),
    {
        let mut res = String::new();
        match *self {
            ArrowVertex::Box(fill, side)
            | ArrowVertex::ICurve(fill, side)
            | ArrowVertex::Diamond(fill, side)
            | ArrowVertex::Inv(fill, side)
            | ArrowVertex::Normal(fill, side) => {
                res.append(fill.as_static_str());
                match side {
                    Side::Left | Side::Right => res.append(side.as_static_str()),
                    Side::Both => {},
                }
            },
            ArrowVertex::Dot(fill) => res.append(fill.as_static_str()),
            ArrowVertex::Crow(side)
            | ArrowVertex::Curve(side)
            | ArrowVertex::Tee(side)
            | ArrowVertex::Vee(side) => {
                match side {
                    Side::Left | Side::Right => res.append(side.as_static_str()),
                    Side::Both => {},
                }
            },
            ArrowVertex::NoArrow => {},
        }
        match *self {
            ArrowVertex::NoArrow => res.append("none"),
            ArrowVertex::Normal(_, _) => res.append("normal"),
            ArrowVertex::Box(_, _) => res.append("box"),
            ArrowVertex::Crow(_) => res.append("crow"),
            ArrowVertex::Curve(_) => res.append("curve"),
            ArrowVertex::ICurve(_, _) => res.append("icurve"),
            ArrowVertex::Diamond(_, _) => res.append("diamond"),
            ArrowVertex::Dot(_) => res.append("dot"),
            ArrowVertex::Inv(_, _) => res.append("inv"),
            ArrowVertex::Tee(_) => res.append("tee"),
            ArrowVertex::Vee(_) => res.append("vee"),
        }
        proof {
            assert(fill_str(ShapeFill::Filled) =~= Seq::<char>::empty()) by {
                reveal_strlit("");
            }
            assert(side_str(Side::Both) =~= Seq::<char>::empty()) by {
                reveal_strlit("");
            }
            assert(res@ =~= vertex_str(*self));
        }
        res
    }
}

/// The concatenation, in order, of the tokens of a sequence of vertices.
pub open spec fn arrow_str(vs: Seq<ArrowVertex>) -> Seq<char>
    decreases vs.len(),
{
    if vs.len() == 0 {
        Seq::empty()
    } else {
        arrow_str(vs.drop_last()) + vertex_str(vs.last())
    }
}

/// All that can describe an arrow connected to either start or end of an
/// edge: zero or more vertices, drawn in order. An arrow with no vertex is
/// the default arrow, for which no attribute is written.
#[derive(Clone, Hash, PartialEq, Eq, Debug)]
pub struct Arrow {
    pub arrows: Vec<ArrowVertex>,
}

impl Arrow {
    /// Return `true` if this is a default arrow.
    pub fn is_default(&self) -> (r: bool)
        ensures
            r == (self.arrows@.len() == 0),
    {
        self.arrows.len() == 0
    }

    /// Arrow constructor which returns an empty arrow
    pub fn none() -> (r: Arrow)
        ensures
            r.arrows@ == seq![ArrowVertex::NoArrow],
    {
        Arrow { arrows: vec![ArrowVertex::NoArrow] }
    }

    /// Arrow constructor which returns a regular triangle arrow, without modifiers
    pub fn normal() -> (r: Arrow)
        ensures
            r.arrows@ == seq![ArrowVertex::Normal(ShapeFill::Filled, Side::Both)],
    {
        Arrow { arrows: vec![ArrowVertex::normal()] }
    }

    /// Converts this arrow into a renderable form.
    pub fn to_dot_string(&self) -> (r: String)
        ensures
            r@ == arrow_str(self.arrows@),
    {
        let mut out = String::new();
        let mut i: usize = 0;
        while i < self.arrows.len()
            invariant
                i <= self.arrows@.len(),
                out@ == arrow_str(self.arrows@.subrange(0, i as int)),
            decreases self.arrows@.len() - i,
        {
            let piece = self.arrows[i].to_dot_string();
            out.append(piece.as_str());
            proof {
                let next = self.arrows@.subrange(0, i + 1);
                assert(next.drop_last() =~= self.arrows@.subrange(0, i as int));
            }
            i = i + 1;
        }
        proof {
            assert(self.arrows@.subrange(0, i as int) =~= self.arrows@);
        }
        out
    }
}

impl Default for Arrow {
    /// Arrow constructor which returns a default arrow
    fn default() -> (r: Arrow)
        ensures
            r.arrows@.len() == 0,
    {
        Arrow { arrows: Vec::new() }
    }
}

impl From<ArrowVertex> for Arrow {
    fn from(vertex: ArrowVertex) -> (r: Self)
        ensures
            r.arrows@ == seq![vertex],
    {
        Arrow { arrows: vec![vertex] }
    }
}

impl vstd::std_specs::convert::FromSpecImpl<ArrowVertex> for Arrow {
    open spec fn obeys_from_spec() -> bool {
        false
    }

    open spec fn from_spec(v: ArrowVertex) -> Arrow {
        choose|a: Arrow| a.arrows@ == seq![v]
    }
}

impl From<[ArrowVertex; 1]> for Arrow {
    fn from(shape: [ArrowVertex; 1]) -> (r: Arrow)
        ensures
            r.arrows@ == shape@,
    {
        let r = Arrow { arrows: vec![shape[0]] };
        assert(r.arrows@ =~= shape@);
        r
    }
}

impl vstd::std_specs::convert::FromSpecImpl<[ArrowVertex; 1]> for Arrow {
    open spec fn obeys_from_spec() -> bool {
        false
    }

    open spec fn from_spec(v: [ArrowVertex; 1]) -> Arrow {
        choose|a: Arrow| a.arrows@ == v@
    }
}

impl From<[ArrowVertex; 2]> for Arrow {
    fn from(shape: [ArrowVertex; 2]) -> (r: Arrow)
        ensures
            r.arrows@ == shape@,
    {
        let r = Arrow { arrows: vec![shape[0], shape[1]] };
        assert(r.arrows@ =~= shape@);
        r
    }
}

impl vstd::std_specs::convert::FromSpecImpl<[ArrowVertex; 2]> for Arrow {
    open spec fn obeys_from_spec() -> bool {
        false
    }

    open spec fn from_spec(v: [ArrowVertex; 2]) -> Arrow {
        choose|a: Arrow| a.arrows@ == v@
    }
}

impl From<[ArrowVertex; 3]> for Arrow {
    fn from(shape: [ArrowVertex; 3]) -> (r: Arrow)
        ensures
            r.arrows@ == shape@,
    {
        let r = Arrow { arrows: vec![shape[0], shape[1], shape[2]] };
        assert(r.arrows@ =~= shape@);
        r
    }
}

impl vstd::std_specs::convert::FromSpecImpl<[ArrowVertex; 3]> for Arrow {
    open spec fn obeys_from_spec() -> bool {
        false
    }

    open spec fn from_spec(v: [ArrowVertex; 3]) -> Arrow {
        choose|a: Arrow| a.arrows@ == v@
    }
}

impl From<[ArrowVertex; 4]> for Arrow {
    fn from(shape: [ArrowVertex; 4]) -> (r: Arrow)
        ensures
            r.arrows@ == shape@,
    {
        let r = Arrow { arrows: vec![shape[0], shape[1], shape[2], shape[3]] };
        assert(r.arrows@ =~= shape@);
        r
    }
}

impl vstd::std_specs::convert::FromSpecImpl<[ArrowVertex; 4]> for Arrow {
    open spec fn obeys_from_spec() -> bool {
        false
    }

    open spec fn from_spec(v: [ArrowVertex; 4]) -> Arrow {
        choose|a: Arrow| a.arrows@ == v@
    }
}

/// A compass point of a node, at which an edge may start or end.
#[derive(Clone, Copy, Hash, PartialEq, Eq, Debug, Structural)]
pub enum CompassPoint {
    North,
    NorthEast,
    East,
    SouthEast,
    South,
    SouthWest,
    West,
    NorthWest,
    Center,
}

/// The port suffix of a compass point, colon included.
pub open spec fn compass_str(c: CompassPoint) -> Seq<char> {
    match c {
        CompassPoint::North => ":n"@,
        CompassPoint::NorthEast => ":ne"@,
        CompassPoint::East => ":e"@,
        CompassPoint::SouthEast => ":se"@,
        CompassPoint::South => ":s"@,
        CompassPoint::SouthWest => ":sw"@,
        CompassPoint::West => ":w"@,
        CompassPoint::NorthWest => ":nw"@,
        CompassPoint::Center => ":c"@,
    }
}

impl CompassPoint {
    pub fn as_static_str(&self) -> (r: &'static str)
        ensures
            r@ == compass_str(*self),
    {
        match self {
            CompassPoint::North => ":n",
            CompassPoint::NorthEast => ":ne",
            CompassPoint::East => ":e",
            CompassPoint::SouthEast => ":se",
            CompassPoint::South => ":s",
            CompassPoint::SouthWest => ":sw",
            CompassPoint::West => ":w",
            CompassPoint::NorthWest => ":nw",
            CompassPoint::Center => ":c",
        }
    }
}

/// Every character of `s` is a lowercase ASCII letter.
pub open spec fn is_lowercase_word(s: Seq<char>) -> bool {
    forall|k: int| 0 <= k < s.len() ==> 'a' <= #[trigger] s[k] && s[k] <= 'z'
}

proof fn lemma_lowercase_concat(a: Seq<char>, b: Seq<char>)
    requires
        is_lowercase_word(a),
        is_lowercase_word(b),
    ensures
        is_lowercase_word(a + b),
{
    assert forall|k: int| 0 <= k < (a + b).len() implies 'a' <= #[trigger] (a + b)[k] && (a
        + b)[k] <= 'z' by {
        if k < a.len() {
            assert((a + b)[k] == a[k]);
        } else {
            assert((a + b)[k] == b[k - a.len()]);
        }
    }
}

/// The token of a vertex is made of lowercase letters only.
pub proof fn lemma_vertex_str_lowercase(v: ArrowVertex)
    ensures
        is_lowercase_word(vertex_str(v)),
{
    reveal_strlit("");
    reveal_strlit("o");
    reveal_strlit("l");
    reveal_strlit("r");
    reveal_strlit("none");
    reveal_strlit("normal");
    reveal_strlit("box");
    reveal_strlit("crow");
    reveal_strlit("curve");
    reveal_strlit("icurve");
    reveal_strlit("diamond");
    reveal_strlit("dot");
    reveal_strlit("inv");
    reveal_strlit("tee");
    reveal_strlit("vee");
    assert(is_lowercase_word("none"@)) by {
        assert("none"@ =~= seq!['n', 'o', 'n', 'e']);
    }
    assert(is_lowercase_word("normal"@)) by {
        assert("normal"@ =~= seq!['n', 'o', 'r', 'm', 'a', 'l']);
    }
    assert(is_lowercase_word("box"@)) by {
        assert("box"@ =~= seq!['b', 'o', 'x']);
    }
    assert(is_lowercase_word("crow"@)) by {
        assert("crow"@ =~= seq!['c', 'r', 'o', 'w']);
    }
    assert(is_lowercase_word("curve"@)) by {
        assert("curve"@ =~= seq!['c', 'u', 'r', 'v', 'e']);
    }
    assert(is_lowercase_word("icurve"@)) by {
        assert("icurve"@ =~= seq!['i', 'c', 'u', 'r', 'v', 'e']);
    }
    assert(is_lowercase_word("diamond"@)) by {
        assert("diamond"@ =~= seq!['d', 'i', 'a', 'm', 'o', 'n', 'd']);
    }
    assert(is_lowercase_word("dot"@)) by {
        assert("dot"@ =~= seq!['d', 'o', 't']);
    }
    assert(is_lowercase_word("inv"@)) by {
        assert("inv"@ =~= seq!['i', 'n', 'v']);
    }
    assert(is_lowercase_word("tee"@)) by {
        assert("tee"@ =~= seq!['t', 'e', 'e']);
    }
    assert(is_lowercase_word("vee"@)) by {
        assert("vee"@ =~= seq!['v', 'e', 'e']);
    }
    assert(is_lowercase_word(fill_str(ShapeFill::Open)));
    assert(is_lowercase_word(fill_str(ShapeFill::Filled)));
    assert(is_lowercase_word(side_str(Side::Left)));
    assert(is_lowercase_word(side_str(Side::Right)));
    assert(is_lowercase_word(side_str(Side::Both)));
    match v {
        ArrowVertex::NoArrow => {},
        ArrowVertex::Normal(f, s) => {
            lemma_lowercase_concat(fill_str(f), side_str(s));
            lemma_lowercase_concat(fill_str(f) + side_str(s), "normal"@);
        },
        ArrowVertex::Box(f, s) => {
            lemma_lowercase_concat(fill_str(f), side_str(s));
            lemma_lowercase_concat(fill_str(f) + side_str(s), "box"@);
        },
        ArrowVertex::Crow(s) => {
            lemma_lowercase_concat(side_str(s), "crow"@);
        },
        ArrowVertex::Curve(s) => {
            lemma_lowercase_concat(side_str(s), "curve"@);
        },
        ArrowVertex::ICurve(f, s) => {
            lemma_lowercase_concat(fill_str(f), side_str(s));
            lemma_lowercase_concat(fill_str(f) + side_str(s), "icurve"@);
        },
        ArrowVertex::Diamond(f, s) => {
            lemma_lowercase_concat(fill_str(f), side_str(s));
            lemma_lowercase_concat(fill_str(f) + side_str(s), "diamond"@);
        },
        ArrowVertex::Dot(f) => {
            lemma_lowercase_concat(fill_str(f), "dot"@);
        },
        ArrowVertex::Inv(f, s) => {
            lemma_lowercase_concat(fill_str(f), side_str(s));
            lemma_lowercase_concat(fill_str(f) + side_str(s), "inv"@);
        },
        ArrowVertex::Tee(s) => {
            lemma_lowercase_concat(side_str(s), "tee"@);
        },
        ArrowVertex::Vee(s) => {
            lemma_lowercase_concat(side_str(s), "vee"@);
        },
    }
}

/// The token of an arrow is made of lowercase letters only.
pub proof fn lemma_arrow_str_lowercase(vs: Seq<ArrowVertex>)
    ensures
        is_lowercase_word(arrow_str(vs)),
    decreases vs.len(),
{
    if vs.len() > 0 {
        lemma_arrow_str_lowercase(vs.drop_last());
        lemma_vertex_str_lowercase(vs.last());
        lemma_lowercase_concat(arrow_str(vs.drop_last()), vertex_str(vs.last()));
    }
}

} // verus!
