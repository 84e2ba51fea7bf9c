//! The render tree: an ordered, depth-tagged forest of typed nodes, built
//! incrementally by the converters through `append_node` and handed to a
//! rendering backend as an immutable artifact.
//!
//! A node's parent is implicit: the nearest preceding node whose depth is
//! smaller. The tree is write-once during conversion; no node is removed.

use vstd::prelude::*;

use crate::geom::Transform;

verus! {

/// A paint descriptor produced by the paint resolver: either a plain color or
/// a reference to a paint server already registered in the render tree,
/// identified by its node index.
#[derive(Clone, Copy, PartialEq, Eq, Structural, Debug)]
pub enum Paint {
    Color { red: u8, green: u8, blue: u8 },
    Link { node: usize },
}

/// Algorithm determining a path's interior.
#[derive(Clone, Copy, PartialEq, Eq, Structural, Debug)]
pub enum FillRule {
    NonZero,
    EvenOdd,
}

/// A resolved fill descriptor.
#[derive(Clone, Copy, PartialEq, Eq, Structural, Debug)]
pub struct Fill {
    pub paint: Paint,
    pub rule: FillRule,
}

/// A resolved stroke descriptor; the width is in micro-units.
#[derive(Clone, Copy, PartialEq, Eq, Structural, Debug)]
pub struct Stroke {
    pub paint: Paint,
    pub width: i64,
}

/// Horizontal alignment of a text chunk relative to its anchor position.
#[derive(Clone, Copy, PartialEq, Eq, Structural, Debug)]
pub enum TextAnchor {
    Start,
    Middle,
    End,
}

#[derive(Clone, Copy, PartialEq, Eq, Structural, Debug)]
pub enum FontStyle {
    Normal,
    Italic,
    Oblique,
}

#[derive(Clone, Copy, PartialEq, Eq, Structural, Debug)]
pub enum FontVariant {
    Normal,
    SmallCaps,
}

#[derive(Clone, Copy, PartialEq, Eq, Structural, Debug)]
pub enum FontWeight {
    Normal,
    Bold,
    Bolder,
    Lighter,
    W100,
    W200,
    W300,
    W400,
    W500,
    W600,
    W700,
    W800,
    W900,
}

#[derive(Clone, Copy, PartialEq, Eq, Structural, Debug)]
pub enum FontStretch {
    Normal,
    Wider,
    Narrower,
    UltraCondensed,
    ExtraCondensed,
    Condensed,
    SemiCondensed,
    SemiExpanded,
    Expanded,
    ExtraExpanded,
    UltraExpanded,
}

/// A fully-populated font descriptor; the size is in micro-units and is
/// strictly positive for every descriptor the font resolver produces.
#[derive(Debug)]
pub struct Font {
    pub family: String,
    pub size: i64,
    pub style: FontStyle,
    pub variant: FontVariant,
    pub weight: FontWeight,
    pub stretch: FontStretch,
}

/// The paint of one active decoration line.
#[derive(Clone, Copy, PartialEq, Eq, Structural, Debug)]
pub struct TextDecorationStyle {
    pub fill: Option<Fill>,
    pub stroke: Option<Stroke>,
}

/// Per-kind decoration state of a text run: present only when the kind is
/// active on the run itself or on its enclosing text element.
#[derive(Clone, Copy, PartialEq, Eq, Structural, Debug)]
pub struct TextDecoration {
    pub underline: Option<TextDecorationStyle>,
    pub overline: Option<TextDecorationStyle>,
    pub line_through: Option<TextDecorationStyle>,
}

/// Payload of a text-element root node.
#[derive(Debug)]
pub struct Text {
    pub id: String,
    pub transform: Transform,
}

/// Payload of a text-chunk node: a run of text sharing one absolute anchor
/// position, in micro-units.
#[derive(Clone, Copy, PartialEq, Eq, Structural, Debug)]
pub struct TextChunk {
    pub x: i64,
    pub y: i64,
    pub anchor: TextAnchor,
}

/// Payload of a styled text-run leaf.
#[derive(Debug)]
pub struct TSpan {
    pub fill: Option<Fill>,
    pub stroke: Option<Stroke>,
    pub font: Font,
    pub decoration: TextDecoration,
    pub text: String,
}

/// An abstract path segment with absolute micro-unit coordinates.
#[derive(Clone, Copy, PartialEq, Eq, Structural, Debug)]
pub enum PathSegment {
    MoveTo { x: i64, y: i64 },
    LineTo { x: i64, y: i64 },
    CurveTo { x1: i64, y1: i64, x2: i64, y2: i64, x: i64, y: i64 },
    ClosePath,
}

/// Payload of a path node.
#[derive(Debug)]
pub struct Path {
    pub id: String,
    pub fill: Option<Fill>,
    pub stroke: Option<Stroke>,
    pub segments: Vec<PathSegment>,
}

/// Rendering mode of a group node.
#[derive(Clone, Copy, PartialEq, Eq, Structural, Debug)]
pub enum GroupMode {
    Normal,
    Clip,
}

/// Payload of a group node; its children are the following deeper nodes.
#[derive(Debug)]
pub struct Group {
    pub id: String,
    pub mode: GroupMode,
}

/// The tagged variants a render-tree node can carry.
#[derive(Debug)]
pub enum NodeKind {
    Text(Text),
    TextChunk(TextChunk),
    TSpan(TSpan),
    Path(Path),
    Group(Group),
}

/// One render-tree node: its nesting level and its payload.
#[derive(Debug)]
pub struct Node {
    pub depth: usize,
    pub kind: NodeKind,
}

/// The render tree: an arena of nodes in document order. The parent of a
/// node is the nearest preceding node with a smaller depth.
#[derive(Debug)]
pub struct RenderTree {
    pub nodes: Vec<Node>,
}

/// The parent of node `i`: the greatest `j < i` whose node is shallower than
/// node `i`, if any.
pub open spec fn parent_spec(nodes: Seq<Node>, i: int, r: Option<usize>) -> bool {
    match r {
        Some(j) => {
            &&& 0 <= j < i
            &&& nodes[j as int].depth < nodes[i].depth
            &&& forall|k: int| j < k < i ==> nodes[k].depth >= nodes[i].depth
        },
        None => forall|k: int| 0 <= k < i ==> nodes[k].depth >= nodes[i].depth,
    }
}

impl RenderTree {
    /// An empty render tree.
    pub fn new() -> (t: RenderTree)
        ensures
            t.nodes@ =~= Seq::<Node>::empty(),
    {
        RenderTree { nodes: Vec::new() }
    }

    /// Appends one node at the given nesting level; nodes are only ever
    /// appended, in document order.
    pub fn append_node(&mut self, depth: usize, kind: NodeKind)
        ensures
            final(self).nodes@ == old(self).nodes@.push(Node { depth, kind }),
    {
        self.nodes.push(Node { depth, kind });
    }

    /// Reconstructs the implicit parent edge of node `i` by scanning backward
    /// for the nearest shallower node.
    pub fn parent_of(&self, i: usize) -> (r: Option<usize>)
        requires
            i < self.nodes@.len(),
        ensures
            parent_spec(self.nodes@, i as int, r),
    {
        let depth = self.nodes[i].depth;
        let mut j: usize = i;
        while j > 0
            invariant
                i < self.nodes@.len(),
                j <= i,
                depth == self.nodes@[i as int].depth,
                forall|k: int| j <= k < i ==> self.nodes@[k].depth >= depth,
            decreases j,
        {
            j = j - 1;
            if self.nodes[j].depth < depth {
                return Some(j);
            }
        }
        None
    }
}

} // verus!
