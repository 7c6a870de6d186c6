//! The render tree: the immutable output of normalization, with its
//! resolved paints, defs registry, traversal and bounding-box queries, and
//! the one post-construction mutation entry point.

use vstd::prelude::*;

use crate::color::Color;
use crate::geom::Rect;
use crate::geom::Transform;
use crate::model::FillRule;
use crate::model::LineCap;
use crate::model::LineJoin;
use crate::path::PathSegment;
use crate::path::spec_segs_bbox;
use crate::path::segs_bbox;

verus! {

/// A resolved paint. Gradient and pattern paints hold the index of their
/// resolved definition in the tree's defs registry, never a raw reference.
#[derive(Clone, Copy, Debug, PartialEq, Eq, Structural)]
pub enum Paint {
    NoPaint,
    Color(Color),
    LinearGradientRef(usize),
    RadialGradientRef(usize),
    PatternRef(usize),
}

/// A resolved fill.
#[derive(Clone, Copy, Debug, PartialEq, Eq, Structural)]
pub struct Fill {
    pub paint: Paint,
    pub opacity: u8,
    pub rule: FillRule,
}

/// A resolved stroke.
#[derive(Debug, PartialEq)]
pub struct Stroke {
    pub paint: Paint,
    pub opacity: u8,
    pub width: i64,
    pub linecap: LineCap,
    pub linejoin: LineJoin,
    pub miterlimit: i64,
    pub dasharray: Vec<i64>,
    pub dashoffset: i64,
}

/// One gradient stop. Offsets are percentages along the gradient axis.
#[derive(Clone, Copy, Debug, PartialEq, Eq, Structural)]
pub struct GradientStop {
    pub offset: u16,
    pub color: Color,
    pub opacity: u8,
}

/// A render-tree node. Transforms are absolute: normalization folds every
/// accumulated transform into the coordinates it emits, so built nodes
/// carry the identity; a node appended afterwards may carry its own.
#[derive(Debug, PartialEq)]
pub struct Node {
    pub id: Option<u64>,
    pub transform: Transform,
    pub visible: bool,
    pub fill: Option<Fill>,
    pub stroke: Option<Stroke>,
    pub kind: NodeKind,
}

#[derive(Debug, PartialEq)]
pub enum NodeKind {
    Group(GroupData),
    Path(PathData),
    Text(TextData),
    Image(ImageData),
}

/// A retained group: a compositing boundary or a kept named group.
#[derive(Debug, PartialEq)]
pub struct GroupData {
    pub opacity: u8,
    pub clip: Option<usize>,
    pub mask: Option<usize>,
    pub filter: Option<u64>,
    pub children: Vec<Node>,
}

#[derive(Debug, PartialEq)]
pub struct PathData {
    pub segments: Vec<PathSegment>,
}

#[derive(Debug, PartialEq)]
pub struct TextData {
    pub x: i64,
    pub y: i64,
    pub font_size: i64,
    pub content: Vec<u8>,
}

#[derive(Debug, PartialEq)]
pub struct ImageData {
    pub x: i64,
    pub y: i64,
    pub w: i64,
    pub h: i64,
    pub data: Vec<u8>,
}

/// A resolved definition in the defs registry. Its identifier is its index
/// in the registry; coordinates are already absolute.
#[derive(Debug, PartialEq)]
pub enum Def {
    LinearGradient(LinearGradientDef),
    RadialGradient(RadialGradientDef),
    Pattern(PatternDef),
    ClipPath(ClipPathDef),
    Mask(MaskDef),
}

#[derive(Debug, PartialEq)]
pub struct LinearGradientDef {
    pub x1: i64,
    pub y1: i64,
    pub x2: i64,
    pub y2: i64,
    pub stops: Vec<GradientStop>,
}

#[derive(Debug, PartialEq)]
pub struct RadialGradientDef {
    pub cx: i64,
    pub cy: i64,
    pub r: i64,
    pub stops: Vec<GradientStop>,
}

#[derive(Debug, PartialEq)]
pub struct PatternDef {
    pub rect: Rect,
    pub content: Vec<Node>,
}

#[derive(Debug, PartialEq)]
pub struct ClipPathDef {
    /// A clip applied to this clip path itself (a clip chain).
    pub clip: Option<usize>,
    pub content: Vec<Node>,
}

#[derive(Debug, PartialEq)]
pub struct MaskDef {
    pub content: Vec<Node>,
}

/// The normalized output: the renderable children of the root and the defs
/// registry. The serializer always emits the registry as a defs container
/// that is the root's first child, present even when empty.
#[derive(Debug, PartialEq)]
pub struct RenderTree {
    pub defs: Vec<Def>,
    pub children: Vec<Node>,
}

// ------------------------------------------------------------------
// Spec-level views: the same shapes over `Seq`, so that specification
// functions can build and compare whole trees.
// ------------------------------------------------------------------

pub ghost struct StrokeV {
    pub paint: Paint,
    pub opacity: u8,
    pub width: i64,
    pub linecap: LineCap,
    pub linejoin: LineJoin,
    pub miterlimit: i64,
    pub dasharray: Seq<i64>,
    pub dashoffset: i64,
}

pub ghost struct NodeV {
    pub id: Option<u64>,
    pub transform: Transform,
    pub visible: bool,
    pub fill: Option<Fill>,
    pub stroke: Option<StrokeV>,
    pub kind: NodeKindV,
}

pub ghost enum NodeKindV {
    Group(GroupV),
    Path(Seq<PathSegment>),
    Text(TextV),
    Image(ImageV),
}

pub ghost struct GroupV {
    pub opacity: u8,
    pub clip: Option<usize>,
    pub mask: Option<usize>,
    pub filter: Option<u64>,
    pub children: Seq<NodeV>,
}

pub ghost struct TextV {
    pub x: i64,
    pub y: i64,
    pub font_size: i64,
    pub content: Seq<u8>,
}

pub ghost struct ImageV {
    pub x: i64,
    pub y: i64,
    pub w: i64,
    pub h: i64,
    pub data: Seq<u8>,
}

pub ghost enum DefV {
    LinearGradient(LinearGradientDefV),
    RadialGradient(RadialGradientDefV),
    Pattern(PatternV),
    ClipPath(ClipPathV),
    Mask(MaskV),
}

pub ghost struct LinearGradientDefV {
    pub x1: i64,
    pub y1: i64,
    pub x2: i64,
    pub y2: i64,
    pub stops: Seq<GradientStop>,
}

pub ghost struct RadialGradientDefV {
    pub cx: i64,
    pub cy: i64,
    pub r: i64,
    pub stops: Seq<GradientStop>,
}

pub ghost struct PatternV {
    pub rect: Rect,
    pub content: Seq<NodeV>,
}

pub ghost struct ClipPathV {
    pub clip: Option<usize>,
    pub content: Seq<NodeV>,
}

pub ghost struct MaskV {
    pub content: Seq<NodeV>,
}

pub ghost struct RenderTreeV {
    pub defs: Seq<DefV>,
    pub children: Seq<NodeV>,
}

pub open spec fn stroke_view(s: Stroke) -> StrokeV {
    StrokeV {
        paint: s.paint,
        opacity: s.opacity,
        width: s.width,
        linecap: s.linecap,
        linejoin: s.linejoin,
        miterlimit: s.miterlimit,
        dasharray: s.dasharray@,
        dashoffset: s.dashoffset,
    }
}

pub open spec fn opt_stroke_view(s: Option<Stroke>) -> Option<StrokeV> {
    match s {
        Some(st) => Some(stroke_view(st)),
        None => None,
    }
}

pub open spec fn node_view(n: Node) -> NodeV
    decreases n,
{
    NodeV {
        id: n.id,
        transform: n.transform,
        visible: n.visible,
        fill: n.fill,
        stroke: opt_stroke_view(n.stroke),
        kind: match n.kind {
            NodeKind::Group(g) => NodeKindV::Group(
                GroupV {
                    opacity: g.opacity,
                    clip: g.clip,
                    mask: g.mask,
                    filter: g.filter,
                    children: nodes_view(g.children@),
                },
            ),
            NodeKind::Path(p) => NodeKindV::Path(p.segments@),
            NodeKind::Text(t) => NodeKindV::Text(
                TextV { x: t.x, y: t.y, font_size: t.font_size, content: t.content@ },
            ),
            NodeKind::Image(im) => NodeKindV::Image(
                ImageV { x: im.x, y: im.y, w: im.w, h: im.h, data: im.data@ },
            ),
        },
    }
}

pub open spec fn nodes_view(s: Seq<Node>) -> Seq<NodeV>
    decreases s,
{
    if s.len() == 0 {
        Seq::empty()
    } else {
        nodes_view(s.drop_last()).push(node_view(s.last()))
    }
}

pub open spec fn def_view(d: Def) -> DefV {
    match d {
        Def::LinearGradient(g) => DefV::LinearGradient(
            LinearGradientDefV { x1: g.x1, y1: g.y1, x2: g.x2, y2: g.y2, stops: g.stops@ },
        ),
        Def::RadialGradient(g) => DefV::RadialGradient(
            RadialGradientDefV { cx: g.cx, cy: g.cy, r: g.r, stops: g.stops@ },
        ),
        Def::Pattern(p) => DefV::Pattern(PatternV { rect: p.rect, content: nodes_view(p.content@) }),
        Def::ClipPath(c) => DefV::ClipPath(
            ClipPathV { clip: c.clip, content: nodes_view(c.content@) },
        ),
        Def::Mask(m) => DefV::Mask(MaskV { content: nodes_view(m.content@) }),
    }
}

pub open spec fn defs_view(s: Seq<Def>) -> Seq<DefV>
    decreases s,
{
    if s.len() == 0 {
        Seq::empty()
    } else {
        defs_view(s.drop_last()).push(def_view(s.last()))
    }
}

pub open spec fn tree_view(t: RenderTree) -> RenderTreeV {
    RenderTreeV { defs: defs_view(t.defs@), children: nodes_view(t.children@) }
}

/// `nodes_view` is index-wise `node_view`.
pub proof fn lemma_nodes_view_index(s: Seq<Node>)
    ensures
        nodes_view(s).len() == s.len(),
        forall|i: int| 0 <= i < s.len() ==> nodes_view(s)[i] == node_view(s[i]),
    decreases s,
{
    if s.len() > 0 {
        lemma_nodes_view_index(s.drop_last());
    }
}

/// Viewing one element more extends the view by one.
pub proof fn lemma_nodes_view_step(s: Seq<Node>, i: int)
    requires
        0 <= i < s.len(),
    ensures
        nodes_view(s.take(i + 1)) == nodes_view(s.take(i)).push(node_view(s[i])),
        nodes_view(s.take(i + 1)).drop_last() == nodes_view(s.take(i)),
        nodes_view(s.take(i + 1)).last() == node_view(s[i]),
        nodes_view(s.take(i + 1)).len() == i + 1,
{
    let t = s.take(i + 1);
    assert(t.drop_last() =~= s.take(i));
    assert(t.last() == s[i]);
    lemma_nodes_view_index(s.take(i));
    assert(nodes_view(t).drop_last() =~= nodes_view(s.take(i)));
}

/// Viewing one def more extends the view by one.
pub proof fn lemma_defs_view_step(s: Seq<Def>, i: int)
    requires
        0 <= i < s.len(),
    ensures
        defs_view(s.take(i + 1)) == defs_view(s.take(i)).push(def_view(s[i])),
        defs_view(s.take(i + 1)).drop_last() == defs_view(s.take(i)),
        defs_view(s.take(i + 1)).last() == def_view(s[i]),
{
    let t = s.take(i + 1);
    assert(t.drop_last() =~= s.take(i));
    assert(t.last() == s[i]);
    lemma_defs_view_index(s.take(i));
    assert(defs_view(t).drop_last() =~= defs_view(s.take(i)));
}

/// `defs_view` is index-wise `def_view`.
pub proof fn lemma_defs_view_index(s: Seq<Def>)
    ensures
        defs_view(s).len() == s.len(),
        forall|i: int| 0 <= i < s.len() ==> defs_view(s)[i] == def_view(s[i]),
    decreases s,
{
    if s.len() > 0 {
        lemma_defs_view_index(s.drop_last());
    }
}

/// Viewing after a push appends one node view.
pub proof fn lemma_nodes_view_push(s: Seq<Node>, n: Node)
    ensures
        nodes_view(s.push(n)) == nodes_view(s).push(node_view(n)),
{
    let t = s.push(n);
    assert(t.drop_last() =~= s);
    assert(t.last() == n);
}

/// Viewing after a push appends one def view.
pub proof fn lemma_defs_view_push(s: Seq<Def>, d: Def)
    ensures
        defs_view(s.push(d)) == defs_view(s).push(def_view(d)),
{
    let t = s.push(d);
    assert(t.drop_last() =~= s);
    assert(t.last() == d);
}

/// The view of a one-node sequence.
pub proof fn lemma_nodes_view_singleton(n: Node)
    ensures
        nodes_view(seq![n]) == seq![node_view(n)],
{
    assert(seq![n] =~= Seq::<Node>::empty().push(n));
    lemma_nodes_view_push(Seq::empty(), n);
    assert(seq![node_view(n)] =~= nodes_view(Seq::<Node>::empty()).push(node_view(n)));
}

/// Viewing a concatenation is concatenating the views.
pub proof fn lemma_nodes_view_concat(a: Seq<Node>, b: Seq<Node>)
    ensures
        nodes_view(a + b) == nodes_view(a) + nodes_view(b),
    decreases b,
{
    if b.len() == 0 {
        assert(a + b =~= a);
        assert(nodes_view(a) + nodes_view(b) =~= nodes_view(a));
    } else {
        lemma_nodes_view_concat(a, b.drop_last());
        assert((a + b).drop_last() =~= a + b.drop_last());
        assert((a + b).last() == b.last());
        assert(nodes_view(a) + nodes_view(b) =~= (nodes_view(a) + nodes_view(b.drop_last())).push(
            node_view(b.last()),
        ));
    }
}

// ------------------------------------------------------------------
// Queries
// ------------------------------------------------------------------

/// Where an id lives in a render tree.
#[derive(Clone, Copy, Debug, PartialEq, Eq, Structural)]
pub enum IdPlace {
    /// On a node under the renderable root.
    Renderable,
    /// On a node inside the defs registry's content.
    InDefs,
    /// Nowhere in the tree.
    Absent,
}

/// Whether a node or any of its descendants carries the id.
pub open spec fn spec_node_has_id(n: NodeV, id: u64) -> bool
    decreases n,
{
    n.id == Some(id) || match n.kind {
        NodeKindV::Group(g) => spec_list_has_id(g.children, id),
        _ => false,
    }
}

pub open spec fn spec_list_has_id(s: Seq<NodeV>, id: u64) -> bool
    decreases s,
{
    if s.len() == 0 {
        false
    } else {
        spec_list_has_id(s.drop_last(), id) || spec_node_has_id(s.last(), id)
    }
}

pub open spec fn spec_def_has_id(d: DefV, id: u64) -> bool {
    match d {
        DefV::Pattern(p) => spec_list_has_id(p.content, id),
        DefV::ClipPath(c) => spec_list_has_id(c.content, id),
        DefV::Mask(m) => spec_list_has_id(m.content, id),
        _ => false,
    }
}

pub open spec fn spec_defs_have_id(s: Seq<DefV>, id: u64) -> bool
    decreases s,
{
    if s.len() == 0 {
        false
    } else {
        spec_defs_have_id(s.drop_last(), id) || spec_def_has_id(s.last(), id)
    }
}

fn node_has_id(n: &Node, id: u64) -> (r: bool)
    ensures
        r == spec_node_has_id(node_view(*n), id),
    decreases *n,
{
    if n.id == Some(id) {
        return true;
    }
    match &n.kind {
        NodeKind::Group(g) => list_has_id(&g.children, id),
        _ => false,
    }
}

fn list_has_id(s: &Vec<Node>, id: u64) -> (r: bool)
    ensures
        r == spec_list_has_id(nodes_view(s@), id),
    decreases *s,
{
    let mut found: bool = false;
    let mut i: usize = 0;
    while i < s.len()
        invariant
            i <= s.len(),
            found == spec_list_has_id(nodes_view(s@.take(i as int)), id),
        decreases s.len() - i,
    {
        proof {
            lemma_nodes_view_step(s@, i as int);
        }
        let here = node_has_id(&s[i], id);
        found = found || here;
        i = i + 1;
    }
    proof {
        assert(s@.take(s.len() as int) =~= s@);
    }
    found
}

fn def_has_id(d: &Def, id: u64) -> (r: bool)
    ensures
        r == spec_def_has_id(def_view(*d), id),
{
    match d {
        Def::Pattern(p) => list_has_id(&p.content, id),
        Def::ClipPath(c) => list_has_id(&c.content, id),
        Def::Mask(m) => list_has_id(&m.content, id),
        _ => false,
    }
}

impl RenderTree {
    pub open spec fn view_of(self) -> RenderTreeV {
        tree_view(self)
    }

    /// The renderable children of the root, in order.
    pub fn root_children(&self) -> (r: &Vec<Node>)
        ensures
            r == &self.children,
    {
        &self.children
    }

    /// The defs registry. A paint's or clip's identifier is an index here.
    pub fn registry(&self) -> (r: &Vec<Def>)
        ensures
            r == &self.defs,
    {
        &self.defs
    }

    /// The membership predicate: whether an id lives under the renderable
    /// root, inside the defs registry, or nowhere.
    pub fn locate_id(&self, id: u64) -> (r: IdPlace)
        ensures
            r == IdPlace::Renderable <==> spec_list_has_id(tree_view(*self).children, id),
            r == IdPlace::InDefs <==> (!spec_list_has_id(tree_view(*self).children, id)
                && spec_defs_have_id(tree_view(*self).defs, id)),
    {
        if list_has_id(&self.children, id) {
            return IdPlace::Renderable;
        }
        let mut i: usize = 0;
        let mut found: bool = false;
        while i < self.defs.len()
            invariant
                i <= self.defs.len(),
                found == spec_defs_have_id(defs_view(self.defs@.take(i as int)), id),
            decreases self.defs.len() - i,
        {
            proof {
                lemma_defs_view_step(self.defs@, i as int);
            }
            let here = def_has_id(&self.defs[i], id);
            found = found || here;
            i = i + 1;
        }
        proof {
            assert(self.defs@.take(self.defs.len() as int) =~= self.defs@);
        }
        if found {
            IdPlace::InDefs
        } else {
            IdPlace::Absent
        }
    }

    /// The mutation entry point: append a sibling to the root's children
    /// after construction (diagnostic overlays). Not thread-safe; callers
    /// synchronize externally.
    pub fn append_root_child(&mut self, node: Node)
        ensures
            final (self).children@ == old(self).children@.push(node),
            final (self).defs@ == old(self).defs@,
    {
        self.children.push(node);
    }
}

// ------------------------------------------------------------------
// Bounding boxes
// ------------------------------------------------------------------

/// The estimated box of a text run: one `font_size` above the anchor, one
/// advance per byte, the byte count capped at a million.
pub open spec fn spec_text_rect(t: TextV) -> Rect {
    let n: int = if t.content.len() > 1000000 {
        1000000
    } else {
        t.content.len() as int
    };
    Rect {
        x1: t.x,
        y1: crate::geom::clamp64(t.y - t.font_size),
        x2: crate::geom::clamp64(t.x + crate::geom::clamp64(n * t.font_size) as int),
        y2: t.y,
    }
}

/// The geometry bounding box (stroke-excluded) of a node, under its own
/// transform.
pub open spec fn spec_node_bbox(n: NodeV) -> Option<Rect>
    decreases n,
{
    let own = match n.kind {
        NodeKindV::Group(g) => spec_list_bbox(g.children),
        NodeKindV::Path(segs) => spec_segs_bbox(segs),
        NodeKindV::Text(t) => Some(spec_text_rect(t)),
        NodeKindV::Image(im) => Some(
            Rect {
                x1: im.x,
                y1: im.y,
                x2: crate::geom::clamp64(im.x + im.w),
                y2: crate::geom::clamp64(im.y + im.h),
            },
        ),
    };
    match own {
        Some(r) => Some(r.spec_shift(n.transform)),
        None => None,
    }
}

pub open spec fn spec_list_bbox(s: Seq<NodeV>) -> Option<Rect>
    decreases s,
{
    if s.len() == 0 {
        None
    } else {
        crate::path::spec_merge_rect(spec_list_bbox(s.drop_last()), spec_node_bbox(s.last()))
    }
}

/// Compute a node's geometry bounding box.
pub fn node_bbox(n: &Node) -> (r: Option<Rect>)
    ensures
        r == spec_node_bbox(node_view(*n)),
    decreases *n,
{
    let own: Option<Rect> = match &n.kind {
        NodeKind::Group(g) => list_bbox(&g.children),
        NodeKind::Path(p) => segs_bbox(&p.segments),
        NodeKind::Text(t) => {
            let base: i64 = crate::geom::sat_sub(t.y, t.font_size);
            let n: i64 = if t.content.len() > 1000000 {
                1000000
            } else {
                t.content.len() as i64
            };
            let adv: i64 = crate::geom::sat_mul(n, t.font_size);
            Some(Rect { x1: t.x, y1: base, x2: crate::geom::sat_add(t.x, adv), y2: t.y })
        },
        NodeKind::Image(im) => Some(
            Rect {
                x1: im.x,
                y1: im.y,
                x2: crate::geom::sat_add(im.x, im.w),
                y2: crate::geom::sat_add(im.y, im.h),
            },
        ),
    };
    match own {
        Some(r) => Some(r.shift(n.transform)),
        None => None,
    }
}

fn list_bbox(s: &Vec<Node>) -> (r: Option<Rect>)
    ensures
        r == spec_list_bbox(nodes_view(s@)),
    decreases *s,
{
    let mut acc: Option<Rect> = None;
    let mut i: usize = 0;
    while i < s.len()
        invariant
            i <= s.len(),
            acc == spec_list_bbox(nodes_view(s@.take(i as int))),
        decreases s.len() - i,
    {
        proof {
            lemma_nodes_view_step(s@, i as int);
        }
        let nb = node_bbox(&s[i]);
        acc = match (acc, nb) {
            (Some(ra), Some(rb)) => Some(ra.union(rb)),
            (Some(ra), None) => Some(ra),
            (None, Some(rb)) => Some(rb),
            (None, None) => None,
        };
        i = i + 1;
    }
    proof {
        assert(s@.take(s.len() as int) =~= s@);
    }
    acc
}

/// The visual (stroke-inclusive) bounding box: the geometry box grown by
/// half the stroke width on every side — approximate and conservative.
pub open spec fn spec_node_visual_bbox(n: NodeV) -> Option<Rect> {
    match spec_node_bbox(n) {
        Some(r) => Some(
            r.spec_grow(
                match n.stroke {
                    Some(st) => if st.width > 0 {
                        st.width as int / 2
                    } else {
                        0
                    },
                    None => 0,
                } as i64,
            ),
        ),
        None => None,
    }
}

pub fn node_visual_bbox(n: &Node) -> (r: Option<Rect>)
    ensures
        r == spec_node_visual_bbox(node_view(*n)),
{
    let margin: i64 = match &n.stroke {
        Some(st) => if st.width > 0 {
            (((st.width as u64) / 2u64) as i64)
        } else {
            0
        },
        None => 0,
    };
    match node_bbox(n) {
        Some(r) => Some(r.grow(margin)),
        None => None,
    }
}

} // verus!
