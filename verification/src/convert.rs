//! The normalization pipeline: id-indexed definition resolution with
//! memoization and cycle detection, shape conversion, transform folding,
//! and redundant-group elimination, producing a render tree.
//!
//! Definitions are resolved on demand through an in-progress marker set: a
//! definition referenced while it is itself being resolved degrades to the
//! absent case of its context instead of recursing. A fuel counter bounds
//! the recursion for the termination proof; it starts above the number of
//! ids in the document, which the marker set keeps the recursion below.

use vstd::prelude::*;

use crate::geom::Rect;
use crate::geom::Transform;
use crate::geom::sat_add;
use crate::geom::sat_sub;
use crate::geom::sat_mul;
use crate::geom::pct_between;
use crate::geom::spec_pct_between;
use crate::geom::clamp64;
use crate::color::mul_alpha;
use crate::color::spec_mul_alpha;
use crate::model::ByteAttr;
use crate::model::Config;
use crate::model::Document;
use crate::model::ElemKind;
use crate::model::Element;
use crate::model::FatalError;
use crate::model::Length;
use crate::model::PaintRef;
use crate::model::Units;
use crate::model::resolve_length;
use crate::model::spec_resolve_length;
use crate::model::viewport;
use crate::model::spec_viewport;
use crate::path::PathSegment;
use crate::path::line_segments;
use crate::path::poly_segments;
use crate::path::rect_segments;
use crate::path::segs_bbox;
use crate::path::simplify_segments;
use crate::path::spec_poly_segments;
use crate::path::spec_rect_segments;
use crate::path::spec_segs_bbox;
use crate::path::spec_simplify;
use crate::path::spec_translate_segs;
use crate::path::translate_segments;
use crate::style::EffStyle;
use crate::style::resolve_style;
use crate::style::spec_resolve_style;
use crate::tree::ClipPathDef;
use crate::tree::Def;
use crate::tree::DefV;
use crate::tree::ClipPathV;
use crate::tree::Fill;
use crate::tree::GradientStop;
use crate::tree::GroupData;
use crate::tree::GroupV;
use crate::tree::ImageData;
use crate::tree::ImageV;
use crate::tree::LinearGradientDef;
use crate::tree::LinearGradientDefV;
use crate::tree::MaskDef;
use crate::tree::MaskV;
use crate::tree::Node;
use crate::tree::NodeKind;
use crate::tree::NodeKindV;
use crate::tree::NodeV;
use crate::tree::Paint;
use crate::tree::PathData;
use crate::tree::PatternDef;
use crate::tree::PatternV;
use crate::tree::RadialGradientDef;
use crate::tree::RadialGradientDefV;
use crate::tree::RenderTree;
use crate::tree::RenderTreeV;
use crate::tree::Stroke;
use crate::tree::StrokeV;
use crate::tree::TextData;
use crate::tree::TextV;
use crate::tree::def_view;
use crate::tree::defs_view;
use crate::tree::node_view;
use crate::tree::nodes_view;
use crate::tree::opt_stroke_view;
use crate::tree::lemma_nodes_view_concat;
use crate::tree::lemma_nodes_view_index;
use crate::tree::lemma_defs_view_index;

verus! {

/// How a clip-path reference resolved.
#[derive(Clone, Copy, Debug, PartialEq, Eq, Structural)]
pub enum ClipOutcome {
    /// No usable clip: the reference has no effect.
    NoClip,
    /// The clip path exists but kept no usable geometry: it clips
    /// everything, and the referencing element is omitted.
    ClipAll,
    /// A usable clip, by registry index.
    Clip(usize),
}

/// How a paint-server reference resolved.
#[derive(Clone, Copy, Debug, PartialEq, Eq, Structural)]
pub enum PaintOutcome {
    Normal(Paint),
    /// A pattern with no usable tile content: the referencing fill becomes
    /// no paint and the element is forced hidden, but stays in the tree.
    HiddenFallback,
}

/// A memoized resolution result, keyed by source id.
#[derive(Clone, Copy, Debug, PartialEq, Eq, Structural)]
pub enum MemoVal {
    MPaint(PaintOutcome),
    MClip(ClipOutcome),
    MMask(Option<usize>),
}

/// The registry under construction: resolved defs plus the memo table.
/// Only top-level, user-space resolutions are memoized; a resolution that
/// depends on a referencing bounding box or on an in-progress path is not.
#[derive(Debug, PartialEq)]
pub struct Reg {
    pub defs: Vec<Def>,
    pub memo: Vec<(u64, MemoVal)>,
}

pub ghost struct RegV {
    pub defs: Seq<DefV>,
    pub memo: Seq<(u64, MemoVal)>,
}

pub open spec fn reg_view(r: Reg) -> RegV {
    RegV { defs: defs_view(r.defs@), memo: r.memo@ }
}

// ------------------------------------------------------------------
// Small helpers
// ------------------------------------------------------------------

/// Copy a vector of plain values.
fn copy_vals<T: Copy>(v: &Vec<T>) -> (r: Vec<T>)
    ensures
        r@ == v@,
{
    let mut out: Vec<T> = Vec::new();
    let mut i: usize = 0;
    while i < v.len()
        invariant
            i <= v.len(),
            out@ == v@.take(i as int),
        decreases v.len() - i,
    {
        out.push(v[i]);
        proof {
            assert(v@.take(i + 1 as int) =~= v@.take(i as int).push(v@[i as int]));
        }
        i = i + 1;
    }
    proof {
        assert(v@.take(v.len() as int) =~= v@);
    }
    out
}

/// The in-progress set extended by one id.
fn push_id(ip: &Vec<u64>, id: u64) -> (r: Vec<u64>)
    ensures
        r@ == ip@.push(id),
{
    let mut out = copy_vals(ip);
    out.push(id);
    out
}

/// Whether the in-progress set holds an id.
fn contains_id(ip: &Vec<u64>, id: u64) -> (r: bool)
    ensures
        r == ip@.contains(id),
{
    let mut i: usize = 0;
    while i < ip.len()
        invariant
            i <= ip.len(),
            forall|k: int| 0 <= k < i ==> ip@[k] != id,
        decreases ip.len() - i,
    {
        if ip[i] == id {
            return true;
        }
        i = i + 1;
    }
    false
}

/// The memoized result for an id, if one is stored.
pub open spec fn spec_memo_find(m: Seq<(u64, MemoVal)>, id: u64) -> Option<MemoVal>
    decreases m.len(),
{
    if m.len() == 0 {
        None
    } else if m[0].0 == id {
        Some(m[0].1)
    } else {
        spec_memo_find(m.drop_first(), id)
    }
}

fn memo_find_from(m: &Vec<(u64, MemoVal)>, i: usize, id: u64) -> (r: Option<MemoVal>)
    requires
        i <= m.len(),
    ensures
        r == spec_memo_find(m@.subrange(i as int, m.len() as int), id),
    decreases m.len() - i,
{
    if i == m.len() {
        proof {
            assert(m@.subrange(i as int, m.len() as int) =~= Seq::<(u64, MemoVal)>::empty());
        }
        None
    } else {
        proof {
            assert(m@.subrange(i as int, m.len() as int)[0] == m@[i as int]);
            assert(m@.subrange(i as int, m.len() as int).drop_first() =~= m@.subrange(
                i + 1 as int,
                m.len() as int,
            ));
        }
        let (k, v) = m[i];
        if k == id {
            Some(v)
        } else {
            memo_find_from(m, i + 1, id)
        }
    }
}

fn memo_find(m: &Vec<(u64, MemoVal)>, id: u64) -> (r: Option<MemoVal>)
    ensures
        r == spec_memo_find(m@, id),
{
    let r = memo_find_from(m, 0, id);
    proof {
        assert(m@.subrange(0, m.len() as int) =~= m@);
    }
    r
}

// ------------------------------------------------------------------
// Definition lookup: preorder search by id
// ------------------------------------------------------------------

/// The first element in preorder carrying the id.
pub open spec fn spec_find_def(e: Element, id: u64) -> Option<Element>
    decreases e, 0int,
{
    if e.id == Some(id) {
        Some(e)
    } else {
        spec_find_def_list(e.children@, 0, id)
    }
}

pub open spec fn spec_find_def_list(s: Seq<Element>, i: int, id: u64) -> Option<Element>
    decreases s, s.len() - i,
{
    if i < 0 || i >= s.len() {
        None
    } else {
        match spec_find_def(s[i], id) {
            Some(f) => Some(f),
            None => spec_find_def_list(s, i + 1, id),
        }
    }
}

fn find_def<'a>(e: &'a Element, id: u64) -> (r: Option<&'a Element>)
    ensures
        match r {
            Some(f) => spec_find_def(*e, id) == Some(*f),
            None => spec_find_def(*e, id) is None,
        },
    decreases *e, 0int,
{
    if e.id == Some(id) {
        Some(e)
    } else {
        find_def_list(&e.children, 0, id)
    }
}

fn find_def_list<'a>(s: &'a Vec<Element>, i: usize, id: u64) -> (r: Option<&'a Element>)
    requires
        i <= s.len(),
    ensures
        match r {
            Some(f) => spec_find_def_list(s@, i as int, id) == Some(*f),
            None => spec_find_def_list(s@, i as int, id) is None,
        },
    decreases s@, s.len() - i,
{
    if i == s.len() {
        None
    } else {
        match find_def(&s[i], id) {
            Some(f) => Some(f),
            None => find_def_list(s, i + 1, id),
        }
    }
}

// ------------------------------------------------------------------
// Shape conversion
// ------------------------------------------------------------------

/// Whether an element kind is a shape the geometry normalizer converts.
pub open spec fn spec_is_shape(k: ElemKind) -> bool {
    k == ElemKind::Rect || k == ElemKind::Line || k == ElemKind::Polyline || k
        == ElemKind::Polygon || k == ElemKind::PathElem
}

fn is_shape(k: ElemKind) -> (r: bool)
    ensures
        r == spec_is_shape(k),
{
    matches!(
        k,
        ElemKind::Rect | ElemKind::Line | ElemKind::Polyline | ElemKind::Polygon
            | ElemKind::PathElem
    )
}

/// The local (untransformed) segment sequence of a shape element:
/// a rectangle becomes its closed clockwise outline, a line or polyline a
/// `MoveTo`+`LineTo` chain, a polygon additionally closes, raw path data is
/// taken as-is and simplified. Percentages resolve against the viewport.
pub open spec fn spec_shape_segments(e: Element, vp: Rect) -> Seq<PathSegment> {
    match e.kind {
        ElemKind::Rect => spec_rect_segments(
            spec_resolve_length(e.attrs.x, 0, vp.x1, vp.x2),
            spec_resolve_length(e.attrs.y, 0, vp.y1, vp.y2),
            spec_resolve_length(e.attrs.width, 0, vp.x1, vp.x2),
            spec_resolve_length(e.attrs.height, 0, vp.y1, vp.y2),
        ),
        ElemKind::Line => seq![
            PathSegment::MoveTo {
                x: spec_resolve_length(e.attrs.x, 0, vp.x1, vp.x2),
                y: spec_resolve_length(e.attrs.y, 0, vp.y1, vp.y2),
            },
            PathSegment::LineTo {
                x: spec_resolve_length(e.attrs.x2, 0, vp.x1, vp.x2),
                y: spec_resolve_length(e.attrs.y2, 0, vp.y1, vp.y2),
            },
        ],
        ElemKind::Polyline => spec_poly_segments(e.attrs.points@, false),
        ElemKind::Polygon => spec_poly_segments(e.attrs.points@, true),
        ElemKind::PathElem => spec_simplify(e.attrs.d@),
        _ => Seq::empty(),
    }
}

fn shape_segments(e: &Element, vp: Rect) -> (r: Vec<PathSegment>)
    requires
        vp.wf(),
    ensures
        r@ == spec_shape_segments(*e, vp),
{
    match e.kind {
        ElemKind::Rect => rect_segments(
            resolve_length(e.attrs.x, 0, vp.x1, vp.x2),
            resolve_length(e.attrs.y, 0, vp.y1, vp.y2),
            resolve_length(e.attrs.width, 0, vp.x1, vp.x2),
            resolve_length(e.attrs.height, 0, vp.y1, vp.y2),
        ),
        ElemKind::Line => line_segments(
            resolve_length(e.attrs.x, 0, vp.x1, vp.x2),
            resolve_length(e.attrs.y, 0, vp.y1, vp.y2),
            resolve_length(e.attrs.x2, 0, vp.x1, vp.x2),
            resolve_length(e.attrs.y2, 0, vp.y1, vp.y2),
        ),
        ElemKind::Polyline => poly_segments(&e.attrs.points, false),
        ElemKind::Polygon => poly_segments(&e.attrs.points, true),
        ElemKind::PathElem => simplify_segments(&e.attrs.d),
        _ => Vec::new(),
    }
}

// ------------------------------------------------------------------
// Gradient stops
// ------------------------------------------------------------------

pub open spec fn spec_stop_of(e: Element) -> GradientStop {
    GradientStop {
        offset: e.attrs.offset,
        color: e.attrs.stop_color,
        opacity: e.attrs.stop_opacity.spec_resolve(255),
    }
}

/// Only explicit stop children count; nothing is invented for a gradient
/// without stops.
pub open spec fn spec_collect_stops(s: Seq<Element>) -> Seq<GradientStop>
    decreases s,
{
    if s.len() == 0 {
        Seq::empty()
    } else {
        let rest = spec_collect_stops(s.drop_last());
        if s.last().kind == ElemKind::Stop {
            rest.push(spec_stop_of(s.last()))
        } else {
            rest
        }
    }
}

fn collect_stops(s: &Vec<Element>) -> (r: Vec<GradientStop>)
    ensures
        r@ == spec_collect_stops(s@),
{
    let mut out: Vec<GradientStop> = Vec::new();
    let mut i: usize = 0;
    while i < s.len()
        invariant
            i <= s.len(),
            out@ == spec_collect_stops(s@.take(i as int)),
        decreases s.len() - i,
    {
        proof {
            assert(s@.take(i + 1 as int).drop_last() =~= s@.take(i as int));
            assert(s@.take(i + 1 as int).last() == s@[i as int]);
        }
        if matches!(s[i].kind, ElemKind::Stop) {
            out.push(
                GradientStop {
                    offset: s[i].attrs.offset,
                    color: s[i].attrs.stop_color,
                    opacity: s[i].attrs.stop_opacity.resolve(255),
                },
            );
        }
        i = i + 1;
    }
    proof {
        assert(s@.take(s.len() as int) =~= s@);
    }
    out
}

// ------------------------------------------------------------------
// Clip-path content
// ------------------------------------------------------------------

/// The node a clip-path child contributes: shapes with non-empty geometry
/// become bare path nodes (ids kept for introspection), everything else is
/// dropped as unsupported inside a clip path.
pub open spec fn spec_clip_child(base: Transform, c: Element, vp: Rect) -> Seq<NodeV> {
    if spec_is_shape(c.kind) {
        let local = spec_shape_segments(c, vp);
        if local.len() == 0 {
            Seq::empty()
        } else {
            seq![
                NodeV {
                    id: c.id,
                    transform: Transform::spec_identity(),
                    visible: true,
                    fill: None,
                    stroke: None,
                    kind: NodeKindV::Path(
                        spec_translate_segs(local, base.spec_compose(c.attrs.transform)),
                    ),
                },
            ]
        }
    } else {
        Seq::empty()
    }
}

pub open spec fn spec_clip_content(base: Transform, s: Seq<Element>, vp: Rect) -> Seq<NodeV>
    decreases s,
{
    if s.len() == 0 {
        Seq::empty()
    } else {
        spec_clip_content(base, s.drop_last(), vp) + spec_clip_child(base, s.last(), vp)
    }
}

fn clip_content(base: Transform, s: &Vec<Element>, vp: Rect) -> (r: Vec<Node>)
    requires
        vp.wf(),
    ensures
        nodes_view(r@) == spec_clip_content(base, s@, vp),
{
    let mut out: Vec<Node> = Vec::new();
    let mut i: usize = 0;
    while i < s.len()
        invariant
            i <= s.len(),
            vp.wf(),
            nodes_view(out@) == spec_clip_content(base, s@.take(i as int), vp),
        decreases s.len() - i,
    {
        proof {
            assert(s@.take(i + 1 as int).drop_last() =~= s@.take(i as int));
            assert(s@.take(i + 1 as int).last() == s@[i as int]);
        }
        let c = &s[i];
        if is_shape(c.kind) {
            let local = shape_segments(c, vp);
            if local.len() > 0 {
                let segs = translate_segments(&local, base.compose(c.attrs.transform));
                let node = Node {
                    id: c.id,
                    transform: Transform::identity(),
                    visible: true,
                    fill: None,
                    stroke: None,
                    kind: NodeKind::Path(PathData { segments: segs }),
                };
                proof {
                    crate::tree::lemma_nodes_view_push(out@, node);
                    assert(nodes_view(out@).push(node_view(node)) =~= nodes_view(out@)
                        + spec_clip_child(base, s@[i as int], vp));
                }
                out.push(node);
            } else {
                proof {
                    assert(nodes_view(out@) + spec_clip_child(base, s@[i as int], vp) =~= nodes_view(
                        out@,
                    ));
                }
            }
        } else {
            proof {
                assert(nodes_view(out@) + spec_clip_child(base, s@[i as int], vp) =~= nodes_view(
                    out@,
                ));
            }
        }
        i = i + 1;
    }
    proof {
        assert(s@.take(s.len() as int) =~= s@);
    }
    out
}

// ------------------------------------------------------------------
// Fill and stroke assembly
// ------------------------------------------------------------------

/// A resolved fill from a paint outcome: no fill for no paint or for the
/// hidden pattern fallback; shape opacity is folded into the fill opacity.
pub open spec fn spec_assemble_fill(
    out: PaintOutcome,
    base_op: u8,
    shape_op: u8,
    rule: crate::model::FillRule,
) -> Option<Fill> {
    match out {
        PaintOutcome::Normal(p) => if p is NoPaint {
            None
        } else {
            Some(Fill { paint: p, opacity: spec_mul_alpha(base_op, shape_op), rule })
        },
        PaintOutcome::HiddenFallback => None,
    }
}

fn assemble_fill(out: PaintOutcome, base_op: u8, shape_op: u8, rule: crate::model::FillRule) -> (r:
    Option<Fill>)
    ensures
        r == spec_assemble_fill(out, base_op, shape_op, rule),
{
    match out {
        PaintOutcome::Normal(p) => if matches!(p, Paint::NoPaint) {
            None
        } else {
            Some(Fill { paint: p, opacity: mul_alpha(base_op, shape_op), rule })
        },
        PaintOutcome::HiddenFallback => None,
    }
}

pub open spec fn spec_assemble_stroke(
    out: PaintOutcome,
    sty: EffStyle,
    shape_op: u8,
    dash: Seq<i64>,
    dashoffset: i64,
) -> Option<StrokeV> {
    match out {
        PaintOutcome::Normal(p) => if p is NoPaint {
            None
        } else {
            Some(
                StrokeV {
                    paint: p,
                    opacity: spec_mul_alpha(sty.stroke_opacity, shape_op),
                    width: sty.stroke_width,
                    linecap: sty.linecap,
                    linejoin: sty.linejoin,
                    miterlimit: sty.miterlimit,
                    dasharray: dash,
                    dashoffset,
                },
            )
        },
        PaintOutcome::HiddenFallback => None,
    }
}

fn assemble_stroke(
    out: PaintOutcome,
    sty: &EffStyle,
    shape_op: u8,
    dash: &Vec<i64>,
    dashoffset: i64,
) -> (r: Option<Stroke>)
    ensures
        opt_stroke_view(r) == spec_assemble_stroke(out, *sty, shape_op, dash@, dashoffset),
{
    match out {
        PaintOutcome::Normal(p) => if matches!(p, Paint::NoPaint) {
            None
        } else {
            Some(
                Stroke {
                    paint: p,
                    opacity: mul_alpha(sty.stroke_opacity, shape_op),
                    width: sty.stroke_width,
                    linecap: sty.linecap,
                    linejoin: sty.linejoin,
                    miterlimit: sty.miterlimit,
                    dasharray: copy_vals(dash),
                    dashoffset,
                },
            )
        },
        PaintOutcome::HiddenFallback => None,
    }
}

// ------------------------------------------------------------------
// Boundary wrapping and id transfer
// ------------------------------------------------------------------

/// Wrap a node in a synthetic boundary group when it carries a clip, mask
/// or filter; otherwise the node stands alone.
pub open spec fn spec_wrap_boundary(
    n: NodeV,
    clip: ClipOutcome,
    mask: Option<usize>,
    filter: Option<u64>,
) -> Seq<NodeV> {
    if clip is Clip || mask is Some || filter is Some {
        seq![
            NodeV {
                id: None,
                transform: Transform::spec_identity(),
                visible: true,
                fill: None,
                stroke: None,
                kind: NodeKindV::Group(
                    GroupV {
                        opacity: 255,
                        clip: match clip {
                            ClipOutcome::Clip(i) => Some(i),
                            _ => None,
                        },
                        mask,
                        filter,
                        children: seq![n],
                    },
                ),
            },
        ]
    } else {
        seq![n]
    }
}

fn wrap_boundary(n: Node, clip: ClipOutcome, mask: Option<usize>, filter: Option<u64>) -> (r: Vec<
    Node,
>)
    ensures
        nodes_view(r@) == spec_wrap_boundary(node_view(n), clip, mask, filter),
{
    let ghost nv = node_view(n);
    let boundary = matches!(clip, ClipOutcome::Clip(_)) || mask.is_some() || filter.is_some();
    if boundary {
        let mut inner: Vec<Node> = Vec::new();
        inner.push(n);
        proof {
            assert(inner@ =~= seq![n]);
            crate::tree::lemma_nodes_view_singleton(n);
        }
        let g = Node {
            id: None,
            transform: Transform::identity(),
            visible: true,
            fill: None,
            stroke: None,
            kind: NodeKind::Group(
                GroupData {
                    opacity: 255,
                    clip: match clip {
                        ClipOutcome::Clip(i) => Some(i),
                        _ => None,
                    },
                    mask,
                    filter,
                    children: inner,
                },
            ),
        };
        let mut out: Vec<Node> = Vec::new();
        out.push(g);
        proof {
            assert(out@ =~= seq![g]);
            crate::tree::lemma_nodes_view_singleton(g);
        }
        out
    } else {
        let mut out: Vec<Node> = Vec::new();
        out.push(n);
        proof {
            assert(out@ =~= seq![n]);
            crate::tree::lemma_nodes_view_singleton(n);
        }
        out
    }
}

/// Unwrap a redundant group: when exactly one concrete node remains and it
/// carries no id of its own, the group's id transfers to it.
pub open spec fn spec_transfer_id(gid: Option<u64>, ks: Seq<NodeV>) -> Seq<NodeV> {
    if gid is Some && ks.len() == 1 && ks[0].id is None {
        seq![
            NodeV {
                id: gid,
                transform: ks[0].transform,
                visible: ks[0].visible,
                fill: ks[0].fill,
                stroke: ks[0].stroke,
                kind: ks[0].kind,
            },
        ]
    } else {
        ks
    }
}

fn transfer_id(gid: Option<u64>, ks: Vec<Node>) -> (r: Vec<Node>)
    ensures
        nodes_view(r@) == spec_transfer_id(gid, nodes_view(ks@)),
{
    proof {
        lemma_nodes_view_index(ks@);
    }
    if gid.is_some() && ks.len() == 1 && ks[0].id.is_none() {
        let mut ks = ks;
        let n0 = match ks.pop() {
            Some(n) => n,
            None => {
                proof {
                    assert(false);
                }
                return ks;
            },
        };
        let n1 = Node {
            id: gid,
            transform: n0.transform,
            visible: n0.visible,
            fill: n0.fill,
            stroke: n0.stroke,
            kind: n0.kind,
        };
        let mut out: Vec<Node> = Vec::new();
        out.push(n1);
        proof {
            assert(out@ =~= seq![n1]);
            crate::tree::lemma_nodes_view_singleton(n1);
            crate::tree::lemma_nodes_view_push(ks@, n0);
            assert(ks@ =~= Seq::<Node>::empty());
            assert(nodes_view(ks@.push(n0)) =~= Seq::<NodeV>::empty().push(node_view(n0)));
            assert(nodes_view(out@) =~= spec_transfer_id(gid, nodes_view(ks@.push(n0))));
        }
        out
    } else {
        ks
    }
}

// ------------------------------------------------------------------
// The resolver/converter recursion
// ------------------------------------------------------------------

/// The number of elements in a forest, counted for termination measures.
pub open spec fn esize_seq(s: Seq<Element>) -> nat
    decreases s,
{
    if s.len() == 0 {
        0
    } else {
        proof {
            assert(decreases_to!(s => s[0]));
            assert(decreases_to!(s[0] => s[0].children));
            assert(decreases_to!(s[0].children => s[0].children@));
        }
        1 + esize_seq(s[0].children@) + esize_seq(s.drop_first())
    }
}

/// The number of elements in a subtree.
pub open spec fn esize(e: Element) -> nat {
    1 + esize_seq(e.children@)
}

/// The number of elements in a forest from index `i` on.
pub open spec fn esize_from(s: Seq<Element>, i: int) -> nat {
    if 0 <= i <= s.len() {
        esize_seq(s.subrange(i, s.len() as int))
    } else {
        0
    }
}

pub proof fn lemma_esize_from_step(s: Seq<Element>, i: int)
    requires
        0 <= i < s.len(),
    ensures
        esize_from(s, i) == esize(s[i]) + esize_from(s, i + 1),
        esize(s[i]) >= 1,
        esize_from(s, i + 1) < esize_from(s, i),
{
    let t = s.subrange(i, s.len() as int);
    assert(t.len() > 0);
    assert(t[0] == s[i]);
    assert(t.drop_first() =~= s.subrange(i + 1, s.len() as int));
}

pub proof fn lemma_esize_from_full(s: Seq<Element>)
    ensures
        esize_from(s, 0) == esize_seq(s),
{
    assert(s.subrange(0, s.len() as int) =~= s);
}

/// Store a memo entry, but only for a top-level resolution: a result
/// computed under a non-empty in-progress path may depend on it.
pub open spec fn spec_memo_store(reg: RegV, ip: Seq<u64>, id: u64, v: MemoVal) -> RegV {
    if ip.len() == 0 {
        RegV { defs: reg.defs, memo: reg.memo.push((id, v)) }
    } else {
        reg
    }
}

/// Resolve a clip-path reference: a missing or foreign-kind target and a
/// cyclic link have no effect; a clip path that keeps no usable geometry
/// clips everything; otherwise the filtered content enters the registry.
pub open spec fn spec_resolve_clip(
    root: Element,
    vp: Rect,
    keep: bool,
    cid: u64,
    reg: RegV,
    ip: Seq<u64>,
    fuel: nat,
) -> (ClipOutcome, RegV)
    decreases fuel, 0nat, 0int,
{
    match spec_find_def(root, cid) {
        None => (ClipOutcome::NoClip, reg),
        Some(ce) => {
            if ce.kind != ElemKind::ClipPath {
                (ClipOutcome::NoClip, reg)
            } else if ip.contains(cid) {
                (ClipOutcome::NoClip, reg)
            } else {
                match spec_memo_find(reg.memo, cid) {
                    Some(MemoVal::MClip(o)) => (o, reg),
                    _ => {
                        let ip2 = ip.push(cid);
                        let nested_pair = match ce.attrs.clip_path {
                            Some(nid) => if fuel > 0 {
                                spec_resolve_clip(root, vp, keep, nid, reg, ip2, (fuel - 1) as nat)
                            } else {
                                (ClipOutcome::NoClip, reg)
                            },
                            None => (ClipOutcome::NoClip, reg),
                        };
                        let nested = nested_pair.0;
                        let reg1 = nested_pair.1;
                        if nested is ClipAll {
                            (
                                ClipOutcome::ClipAll,
                                spec_memo_store(reg1, ip, cid, MemoVal::MClip(ClipOutcome::ClipAll)),
                            )
                        } else {
                            let content = spec_clip_content(ce.attrs.transform, ce.children@, vp);
                            if content.len() == 0 {
                                (
                                    ClipOutcome::ClipAll,
                                    spec_memo_store(
                                        reg1,
                                        ip,
                                        cid,
                                        MemoVal::MClip(ClipOutcome::ClipAll),
                                    ),
                                )
                            } else {
                                let d = DefV::ClipPath(
                                    ClipPathV {
                                        clip: match nested {
                                            ClipOutcome::Clip(i) => Some(i),
                                            _ => None,
                                        },
                                        content,
                                    },
                                );
                                let idx = reg1.defs.len() as usize;
                                let reg2 = RegV { defs: reg1.defs.push(d), memo: reg1.memo };
                                (
                                    ClipOutcome::Clip(idx),
                                    spec_memo_store(
                                        reg2,
                                        ip,
                                        cid,
                                        MemoVal::MClip(ClipOutcome::Clip(idx)),
                                    ),
                                )
                            }
                        }
                    },
                }
            }
        },
    }
}

/// Resolve a mask reference: a missing, foreign-kind, cyclic or empty mask
/// applies no effect; otherwise the converted content enters the registry.
pub open spec fn spec_resolve_mask(
    root: Element,
    vp: Rect,
    keep: bool,
    mid: u64,
    reg: RegV,
    ip: Seq<u64>,
    fuel: nat,
) -> (Option<usize>, RegV)
    decreases fuel, 0nat, 0int,
{
    match spec_find_def(root, mid) {
        None => (None, reg),
        Some(me) => {
            if me.kind != ElemKind::Mask {
                (None, reg)
            } else if ip.contains(mid) {
                (None, reg)
            } else {
                match spec_memo_find(reg.memo, mid) {
                    Some(MemoVal::MMask(o)) => (o, reg),
                    _ => {
                        if fuel == 0 {
                            (None, reg)
                        } else {
                            let ip2 = ip.push(mid);
                            let pair = spec_conv_list(
                                root,
                                vp,
                                keep,
                                EffStyle::spec_initial(),
                                me.attrs.transform,
                                me.children@,
                                0,
                                reg,
                                ip2,
                                (fuel - 1) as nat,
                            );
                            let content = pair.0;
                            let reg1 = pair.1;
                            if content.len() == 0 {
                                (None, spec_memo_store(reg1, ip, mid, MemoVal::MMask(None)))
                            } else {
                                let idx = reg1.defs.len() as usize;
                                let reg2 = RegV {
                                    defs: reg1.defs.push(DefV::Mask(MaskV { content })),
                                    memo: reg1.memo,
                                };
                                (
                                    Some(idx),
                                    spec_memo_store(reg2, ip, mid, MemoVal::MMask(Some(idx))),
                                )
                            }
                        }
                    },
                }
            }
        },
    }
}

/// Resolve a paint-server reference against the referencing element's
/// geometry box `bb`. A gradient without stops resolves the paint to no
/// paint; a pattern without usable tile content, a degenerate tile, and a
/// cyclic pattern link force the hidden fallback; anything else is no
/// paint. Object-bounding-box definitions resolve against `bb` and are
/// never memoized.
pub open spec fn spec_resolve_paint_ref(
    root: Element,
    vp: Rect,
    keep: bool,
    pid: u64,
    bb: Rect,
    reg: RegV,
    ip: Seq<u64>,
    fuel: nat,
) -> (PaintOutcome, RegV)
    decreases fuel, 0nat, 0int,
{
    match spec_find_def(root, pid) {
        None => (PaintOutcome::Normal(Paint::NoPaint), reg),
        Some(pe) => {
            let us = pe.attrs.units == Units::UserSpace;
            let lox = if us {
                vp.x1
            } else {
                bb.x1
            };
            let hix = if us {
                vp.x2
            } else {
                bb.x2
            };
            let loy = if us {
                vp.y1
            } else {
                bb.y1
            };
            let hiy = if us {
                vp.y2
            } else {
                bb.y2
            };
            match pe.kind {
                ElemKind::LinearGradient => {
                    match (if us {
                        spec_memo_find(reg.memo, pid)
                    } else {
                        None
                    }) {
                        Some(MemoVal::MPaint(o)) => (o, reg),
                        _ => {
                            let stops = spec_collect_stops(pe.children@);
                            if stops.len() == 0 {
                                let o = PaintOutcome::Normal(Paint::NoPaint);
                                (
                                    o,
                                    if us {
                                        spec_memo_store(reg, ip, pid, MemoVal::MPaint(o))
                                    } else {
                                        reg
                                    },
                                )
                            } else {
                                let d = DefV::LinearGradient(
                                    LinearGradientDefV {
                                        x1: spec_resolve_length(pe.attrs.x, lox, lox, hix),
                                        y1: spec_resolve_length(pe.attrs.y, loy, loy, hiy),
                                        x2: spec_resolve_length(pe.attrs.x2, hix, lox, hix),
                                        y2: spec_resolve_length(pe.attrs.y2, loy, loy, hiy),
                                        stops,
                                    },
                                );
                                let idx = reg.defs.len() as usize;
                                let o = PaintOutcome::Normal(Paint::LinearGradientRef(idx));
                                let reg2 = RegV { defs: reg.defs.push(d), memo: reg.memo };
                                (
                                    o,
                                    if us {
                                        spec_memo_store(reg2, ip, pid, MemoVal::MPaint(o))
                                    } else {
                                        reg2
                                    },
                                )
                            }
                        },
                    }
                },
                ElemKind::RadialGradient => {
                    match (if us {
                        spec_memo_find(reg.memo, pid)
                    } else {
                        None
                    }) {
                        Some(MemoVal::MPaint(o)) => (o, reg),
                        _ => {
                            let stops = spec_collect_stops(pe.children@);
                            if stops.len() == 0 {
                                let o = PaintOutcome::Normal(Paint::NoPaint);
                                (
                                    o,
                                    if us {
                                        spec_memo_store(reg, ip, pid, MemoVal::MPaint(o))
                                    } else {
                                        reg
                                    },
                                )
                            } else {
                                let d = DefV::RadialGradient(
                                    RadialGradientDefV {
                                        cx: spec_resolve_length(
                                            pe.attrs.cx,
                                            spec_pct_between(50, lox, hix),
                                            lox,
                                            hix,
                                        ),
                                        cy: spec_resolve_length(
                                            pe.attrs.cy,
                                            spec_pct_between(50, loy, hiy),
                                            loy,
                                            hiy,
                                        ),
                                        r: spec_resolve_length(
                                            pe.attrs.r,
                                            spec_pct_between(50, lox, hix),
                                            lox,
                                            hix,
                                        ),
                                        stops,
                                    },
                                );
                                let idx = reg.defs.len() as usize;
                                let o = PaintOutcome::Normal(Paint::RadialGradientRef(idx));
                                let reg2 = RegV { defs: reg.defs.push(d), memo: reg.memo };
                                (
                                    o,
                                    if us {
                                        spec_memo_store(reg2, ip, pid, MemoVal::MPaint(o))
                                    } else {
                                        reg2
                                    },
                                )
                            }
                        },
                    }
                },
                ElemKind::Pattern => {
                    if ip.contains(pid) {
                        (PaintOutcome::HiddenFallback, reg)
                    } else {
                        match (if us {
                            spec_memo_find(reg.memo, pid)
                        } else {
                            None
                        }) {
                            Some(MemoVal::MPaint(o)) => (o, reg),
                            _ => {
                                let x = spec_resolve_length(pe.attrs.x, lox, lox, hix);
                                let y = spec_resolve_length(pe.attrs.y, loy, loy, hiy);
                                let w = spec_resolve_length(pe.attrs.width, 0, lox, hix);
                                let h = spec_resolve_length(pe.attrs.height, 0, loy, hiy);
                                if w <= 0 || h <= 0 {
                                    let o = PaintOutcome::HiddenFallback;
                                    (
                                        o,
                                        if us {
                                            spec_memo_store(reg, ip, pid, MemoVal::MPaint(o))
                                        } else {
                                            reg
                                        },
                                    )
                                } else if fuel == 0 {
                                    (PaintOutcome::HiddenFallback, reg)
                                } else {
                                    let ip2 = ip.push(pid);
                                    let pair = spec_conv_list(
                                        root,
                                        vp,
                                        keep,
                                        EffStyle::spec_initial(),
                                        pe.attrs.transform,
                                        pe.children@,
                                        0,
                                        reg,
                                        ip2,
                                        (fuel - 1) as nat,
                                    );
                                    let content = pair.0;
                                    let reg1 = pair.1;
                                    if content.len() == 0 {
                                        let o = PaintOutcome::HiddenFallback;
                                        (
                                            o,
                                            if us {
                                                spec_memo_store(reg1, ip, pid, MemoVal::MPaint(o))
                                            } else {
                                                reg1
                                            },
                                        )
                                    } else {
                                        let d = DefV::Pattern(
                                            PatternV {
                                                rect: Rect {
                                                    x1: x,
                                                    y1: y,
                                                    x2: clamp64(x + w),
                                                    y2: clamp64(y + h),
                                                },
                                                content,
                                            },
                                        );
                                        let idx = reg1.defs.len() as usize;
                                        let o = PaintOutcome::Normal(Paint::PatternRef(idx));
                                        let reg2 = RegV {
                                            defs: reg1.defs.push(d),
                                            memo: reg1.memo,
                                        };
                                        (
                                            o,
                                            if us {
                                                spec_memo_store(reg2, ip, pid, MemoVal::MPaint(o))
                                            } else {
                                                reg2
                                            },
                                        )
                                    }
                                }
                            },
                        }
                    }
                },
                _ => (PaintOutcome::Normal(Paint::NoPaint), reg),
            }
        },
    }
}

/// Convert one element under an inherited style and an accumulated
/// transform; the result is the list of nodes it contributes (none for
/// unsupported or definition kinds, several when a group unwraps).
pub open spec fn spec_conv_elem(
    root: Element,
    vp: Rect,
    keep: bool,
    sty: EffStyle,
    tf: Transform,
    e: Element,
    reg: RegV,
    ip: Seq<u64>,
    fuel: nat,
) -> (Seq<NodeV>, RegV)
    decreases fuel, esize(e), 0int,
{
    match e.kind {
        ElemKind::Group => {
            let sty2 = spec_resolve_style(sty, e, vp);
            let gtf = tf.spec_compose(e.attrs.transform);
            let cpair = match e.attrs.clip_path {
                Some(cid) => if fuel > 0 {
                    spec_resolve_clip(root, vp, keep, cid, reg, ip, (fuel - 1) as nat)
                } else {
                    (ClipOutcome::NoClip, reg)
                },
                None => (ClipOutcome::NoClip, reg),
            };
            let clip_out = cpair.0;
            let reg1 = cpair.1;
            if clip_out is ClipAll {
                (Seq::empty(), reg1)
            } else {
                let kpair = {
                    proof {
                        lemma_esize_from_full(e.children@);
                    }
                    spec_conv_list(root, vp, keep, sty2, gtf, e.children@, 0, reg1, ip, fuel)
                };
                let kids = kpair.0;
                let reg2 = kpair.1;
                if kids.len() == 0 {
                    (Seq::empty(), reg2)
                } else {
                    let mpair = match e.attrs.mask {
                        Some(mid) => if fuel > 0 {
                            spec_resolve_mask(root, vp, keep, mid, reg2, ip, (fuel - 1) as nat)
                        } else {
                            (None, reg2)
                        },
                        None => (None, reg2),
                    };
                    let mask_out = mpair.0;
                    let reg3 = mpair.1;
                    let opv = e.attrs.opacity.spec_resolve(255);
                    let explicit_neutral = match e.attrs.opacity {
                        ByteAttr::Val(v) => v == 255,
                        _ => false,
                    };
                    let boundary = clip_out is Clip || mask_out is Some || e.attrs.filter is Some
                        || opv != 255;
                    if boundary {
                        (
                            seq![
                                NodeV {
                                    id: e.id,
                                    transform: Transform::spec_identity(),
                                    visible: sty2.visible,
                                    fill: None,
                                    stroke: None,
                                    kind: NodeKindV::Group(
                                        GroupV {
                                            opacity: opv,
                                            clip: match clip_out {
                                                ClipOutcome::Clip(i) => Some(i),
                                                _ => None,
                                            },
                                            mask: mask_out,
                                            filter: e.attrs.filter,
                                            children: kids,
                                        },
                                    ),
                                },
                            ],
                            reg3,
                        )
                    } else if keep && e.id is Some && !explicit_neutral {
                        (
                            seq![
                                NodeV {
                                    id: e.id,
                                    transform: Transform::spec_identity(),
                                    visible: sty2.visible,
                                    fill: None,
                                    stroke: None,
                                    kind: NodeKindV::Group(
                                        GroupV {
                                            opacity: 255,
                                            clip: None,
                                            mask: None,
                                            filter: None,
                                            children: kids,
                                        },
                                    ),
                                },
                            ],
                            reg3,
                        )
                    } else {
                        (spec_transfer_id(e.id, kids), reg3)
                    }
                }
            }
        },
        ElemKind::Rect | ElemKind::Line | ElemKind::Polyline | ElemKind::Polygon
            | ElemKind::PathElem => {
            let sty2 = spec_resolve_style(sty, e, vp);
            let stf = tf.spec_compose(e.attrs.transform);
            let local = spec_shape_segments(e, vp);
            if local.len() == 0 {
                (Seq::empty(), reg)
            } else {
                let segs = spec_translate_segs(local, stf);
                let cpair = match e.attrs.clip_path {
                    Some(cid) => if fuel > 0 {
                        spec_resolve_clip(root, vp, keep, cid, reg, ip, (fuel - 1) as nat)
                    } else {
                        (ClipOutcome::NoClip, reg)
                    },
                    None => (ClipOutcome::NoClip, reg),
                };
                let clip_out = cpair.0;
                let reg1 = cpair.1;
                if clip_out is ClipAll {
                    (Seq::empty(), reg1)
                } else {
                    let mpair = match e.attrs.mask {
                        Some(mid) => if fuel > 0 {
                            spec_resolve_mask(root, vp, keep, mid, reg1, ip, (fuel - 1) as nat)
                        } else {
                            (None, reg1)
                        },
                        None => (None, reg1),
                    };
                    let mask_out = mpair.0;
                    let reg2 = mpair.1;
                    let bb = match spec_segs_bbox(segs) {
                        Some(b) => b,
                        None => vp,
                    };
                    let shape_op = e.attrs.opacity.spec_resolve(255);
                    let fpair = match sty2.fill {
                        PaintRef::NoPaint => (PaintOutcome::Normal(Paint::NoPaint), reg2),
                        PaintRef::Color(c) => (PaintOutcome::Normal(Paint::Color(c)), reg2),
                        PaintRef::Ref(pid) => if fuel > 0 {
                            spec_resolve_paint_ref(
                                root,
                                vp,
                                keep,
                                pid,
                                bb,
                                reg2,
                                ip,
                                (fuel - 1) as nat,
                            )
                        } else {
                            (PaintOutcome::Normal(Paint::NoPaint), reg2)
                        },
                    };
                    let fill_out = fpair.0;
                    let reg3 = fpair.1;
                    let spair = match sty2.stroke {
                        PaintRef::NoPaint => (PaintOutcome::Normal(Paint::NoPaint), reg3),
                        PaintRef::Color(c) => (PaintOutcome::Normal(Paint::Color(c)), reg3),
                        PaintRef::Ref(pid) => if fuel > 0 {
                            spec_resolve_paint_ref(
                                root,
                                vp,
                                keep,
                                pid,
                                bb,
                                reg3,
                                ip,
                                (fuel - 1) as nat,
                            )
                        } else {
                            (PaintOutcome::Normal(Paint::NoPaint), reg3)
                        },
                    };
                    let stroke_out = spair.0;
                    let reg4 = spair.1;
                    let hidden = fill_out is HiddenFallback;
                    let node = NodeV {
                        id: e.id,
                        transform: Transform::spec_identity(),
                        visible: sty2.visible && !hidden,
                        fill: spec_assemble_fill(fill_out, sty2.fill_opacity, shape_op, sty2.fill_rule),
                        stroke: spec_assemble_stroke(
                            stroke_out,
                            sty2,
                            shape_op,
                            e.attrs.dasharray@,
                            e.attrs.dashoffset,
                        ),
                        kind: NodeKindV::Path(segs),
                    };
                    (spec_wrap_boundary(node, clip_out, mask_out, e.attrs.filter), reg4)
                }
            }
        },
        ElemKind::Text => {
            let sty2 = spec_resolve_style(sty, e, vp);
            let stf = tf.spec_compose(e.attrs.transform);
            let x = stf.spec_apply_x(spec_resolve_length(e.attrs.x, 0, vp.x1, vp.x2));
            let y = stf.spec_apply_y(spec_resolve_length(e.attrs.y, 0, vp.y1, vp.y2));
            let fs: i64 = if sty2.font_size > 0 {
                sty2.font_size
            } else {
                0
            };
            let cpair = match e.attrs.clip_path {
                Some(cid) => if fuel > 0 {
                    spec_resolve_clip(root, vp, keep, cid, reg, ip, (fuel - 1) as nat)
                } else {
                    (ClipOutcome::NoClip, reg)
                },
                None => (ClipOutcome::NoClip, reg),
            };
            let clip_out = cpair.0;
            let reg1 = cpair.1;
            if clip_out is ClipAll {
                (Seq::empty(), reg1)
            } else {
                let mpair = match e.attrs.mask {
                    Some(mid) => if fuel > 0 {
                        spec_resolve_mask(root, vp, keep, mid, reg1, ip, (fuel - 1) as nat)
                    } else {
                        (None, reg1)
                    },
                    None => (None, reg1),
                };
                let mask_out = mpair.0;
                let reg2 = mpair.1;
                let bb = crate::tree::spec_text_rect(
                    TextV { x, y, font_size: fs, content: e.attrs.text@ },
                );
                let shape_op = e.attrs.opacity.spec_resolve(255);
                let fpair = match sty2.fill {
                    PaintRef::NoPaint => (PaintOutcome::Normal(Paint::NoPaint), reg2),
                    PaintRef::Color(c) => (PaintOutcome::Normal(Paint::Color(c)), reg2),
                    PaintRef::Ref(pid) => if fuel > 0 {
                        spec_resolve_paint_ref(root, vp, keep, pid, bb, reg2, ip, (fuel - 1) as nat)
                    } else {
                        (PaintOutcome::Normal(Paint::NoPaint), reg2)
                    },
                };
                let fill_out = fpair.0;
                let reg3 = fpair.1;
                let spair = match sty2.stroke {
                    PaintRef::NoPaint => (PaintOutcome::Normal(Paint::NoPaint), reg3),
                    PaintRef::Color(c) => (PaintOutcome::Normal(Paint::Color(c)), reg3),
                    PaintRef::Ref(pid) => if fuel > 0 {
                        spec_resolve_paint_ref(root, vp, keep, pid, bb, reg3, ip, (fuel - 1) as nat)
                    } else {
                        (PaintOutcome::Normal(Paint::NoPaint), reg3)
                    },
                };
                let stroke_out = spair.0;
                let reg4 = spair.1;
                let hidden = fill_out is HiddenFallback;
                let node = NodeV {
                    id: e.id,
                    transform: Transform::spec_identity(),
                    visible: sty2.visible && !hidden,
                    fill: spec_assemble_fill(
                        fill_out,
                        sty2.fill_opacity,
                        shape_op,
                        sty2.fill_rule,
                    ),
                    stroke: spec_assemble_stroke(
                        stroke_out,
                        sty2,
                        shape_op,
                        e.attrs.dasharray@,
                        e.attrs.dashoffset,
                    ),
                    kind: NodeKindV::Text(TextV { x, y, font_size: fs, content: e.attrs.text@ }),
                };
                (spec_wrap_boundary(node, clip_out, mask_out, e.attrs.filter), reg4)
            }
        },
        ElemKind::Image => {
            let sty2 = spec_resolve_style(sty, e, vp);
            let stf = tf.spec_compose(e.attrs.transform);
            let x = stf.spec_apply_x(spec_resolve_length(e.attrs.x, 0, vp.x1, vp.x2));
            let y = stf.spec_apply_y(spec_resolve_length(e.attrs.y, 0, vp.y1, vp.y2));
            let w = spec_resolve_length(e.attrs.width, 0, vp.x1, vp.x2);
            let h = spec_resolve_length(e.attrs.height, 0, vp.y1, vp.y2);
            if w <= 0 || h <= 0 {
                (Seq::empty(), reg)
            } else {
                let cpair = match e.attrs.clip_path {
                    Some(cid) => if fuel > 0 {
                        spec_resolve_clip(root, vp, keep, cid, reg, ip, (fuel - 1) as nat)
                    } else {
                        (ClipOutcome::NoClip, reg)
                    },
                    None => (ClipOutcome::NoClip, reg),
                };
                let clip_out = cpair.0;
                let reg1 = cpair.1;
                if clip_out is ClipAll {
                    (Seq::empty(), reg1)
                } else {
                    let mpair = match e.attrs.mask {
                        Some(mid) => if fuel > 0 {
                            spec_resolve_mask(root, vp, keep, mid, reg1, ip, (fuel - 1) as nat)
                        } else {
                            (None, reg1)
                        },
                        None => (None, reg1),
                    };
                    let mask_out = mpair.0;
                    let reg2 = mpair.1;
                    let node = NodeV {
                        id: e.id,
                        transform: Transform::spec_identity(),
                        visible: sty2.visible,
                        fill: None,
                        stroke: None,
                        kind: NodeKindV::Image(
                            ImageV { x, y, w, h, data: e.attrs.image_data@ },
                        ),
                    };
                    (spec_wrap_boundary(node, clip_out, mask_out, e.attrs.filter), reg2)
                }
            }
        },
        _ => (Seq::empty(), reg),
    }
}

/// Convert the element list from index `i` on, threading the registry.
#[verifier::rlimit(60)]
pub open spec fn spec_conv_list(
    root: Element,
    vp: Rect,
    keep: bool,
    sty: EffStyle,
    tf: Transform,
    s: Seq<Element>,
    i: int,
    reg: RegV,
    ip: Seq<u64>,
    fuel: nat,
) -> (Seq<NodeV>, RegV)
    decreases fuel, esize_from(s, i), 1int,
{
    if i < 0 || i >= s.len() {
        (Seq::empty(), reg)
    } else {
        proof {
            lemma_esize_from_step(s, i);
        }
        let fpair = spec_conv_elem(root, vp, keep, sty, tf, s[i], reg, ip, fuel);
        let rpair = spec_conv_list(root, vp, keep, sty, tf, s, i + 1, fpair.1, ip, fuel);
        (fpair.0 + rpair.0, rpair.1)
    }
}

// ------------------------------------------------------------------
// Executable mirror of the recursion
// ------------------------------------------------------------------

fn memo_store(reg: Reg, ip: &Vec<u64>, id: u64, v: MemoVal) -> (r: Reg)
    ensures
        reg_view(r) == spec_memo_store(reg_view(reg), ip@, id, v),
{
    if ip.len() == 0 {
        let mut reg = reg;
        reg.memo.push((id, v));
        reg
    } else {
        reg
    }
}

fn resolve_clip(
    root: &Element,
    vp: Rect,
    keep: bool,
    cid: u64,
    reg: Reg,
    ip: &Vec<u64>,
    fuel: u64,
) -> (r: (ClipOutcome, Reg))
    requires
        vp.wf(),
    ensures
        ({
            let sp = spec_resolve_clip(*root, vp, keep, cid, reg_view(reg), ip@, fuel as nat);
            r.0 == sp.0 && reg_view(r.1) == sp.1
        }),
    decreases fuel, 0nat, 0int,
{
    let fe = match find_def(root, cid) {
        Some(f) => f,
        None => {
            return (ClipOutcome::NoClip, reg);
        },
    };
    if !matches!(fe.kind, ElemKind::ClipPath) {
        return (ClipOutcome::NoClip, reg);
    }
    if contains_id(ip, cid) {
        return (ClipOutcome::NoClip, reg);
    }
    match memo_find(&reg.memo, cid) {
        Some(MemoVal::MClip(o)) => {
            return (o, reg);
        },
        _ => {},
    }
    let ip2 = push_id(ip, cid);
    let (nested, reg1) = match fe.attrs.clip_path {
        Some(nid) => {
            if fuel > 0 {
                resolve_clip(root, vp, keep, nid, reg, &ip2, fuel - 1)
            } else {
                (ClipOutcome::NoClip, reg)
            }
        },
        None => (ClipOutcome::NoClip, reg),
    };
    if matches!(nested, ClipOutcome::ClipAll) {
        return (
            ClipOutcome::ClipAll,
            memo_store(reg1, ip, cid, MemoVal::MClip(ClipOutcome::ClipAll)),
        );
    }
    let content = clip_content(fe.attrs.transform, &fe.children, vp);
    if content.len() == 0 {
        return (
            ClipOutcome::ClipAll,
            memo_store(reg1, ip, cid, MemoVal::MClip(ClipOutcome::ClipAll)),
        );
    }
    let nclip = match nested {
        ClipOutcome::Clip(ci) => Some(ci),
        _ => None,
    };
    let d = Def::ClipPath(ClipPathDef { clip: nclip, content });
    let ghost dsnap = d;
    let ghost olddefs = reg1.defs@;
    let mut reg1m = reg1;
    reg1m.defs.push(d);
    let idx = reg1m.defs.len() - 1;
    proof {
        crate::tree::lemma_defs_view_push(olddefs, dsnap);
        lemma_defs_view_index(olddefs);
    }
    let reg2 = memo_store(reg1m, ip, cid, MemoVal::MClip(ClipOutcome::Clip(idx)));
    (ClipOutcome::Clip(idx), reg2)
}

fn resolve_mask(
    root: &Element,
    vp: Rect,
    keep: bool,
    mid: u64,
    reg: Reg,
    ip: &Vec<u64>,
    fuel: u64,
) -> (r: (Option<usize>, Reg))
    requires
        vp.wf(),
    ensures
        ({
            let sp = spec_resolve_mask(*root, vp, keep, mid, reg_view(reg), ip@, fuel as nat);
            r.0 == sp.0 && reg_view(r.1) == sp.1
        }),
    decreases fuel, 0nat, 0int,
{
    let me = match find_def(root, mid) {
        Some(f) => f,
        None => {
            return (None, reg);
        },
    };
    if !matches!(me.kind, ElemKind::Mask) {
        return (None, reg);
    }
    if contains_id(ip, mid) {
        return (None, reg);
    }
    match memo_find(&reg.memo, mid) {
        Some(MemoVal::MMask(o)) => {
            return (o, reg);
        },
        _ => {},
    }
    if fuel == 0 {
        return (None, reg);
    }
    let ip2 = push_id(ip, mid);
    let (content, reg1) = {
        proof {
            lemma_esize_from_full(me.children@);
        }
        conv_list(
            root,
            vp,
            keep,
            EffStyle::initial(),
            me.attrs.transform,
            &me.children,
            0,
            reg,
            &ip2,
            fuel - 1,
        )
    };
    if content.len() == 0 {
        return (None, memo_store(reg1, ip, mid, MemoVal::MMask(None)));
    }
    let d = Def::Mask(MaskDef { content });
    let ghost dsnap = d;
    let ghost olddefs = reg1.defs@;
    let mut reg1m = reg1;
    reg1m.defs.push(d);
    let idx = reg1m.defs.len() - 1;
    proof {
        crate::tree::lemma_defs_view_push(olddefs, dsnap);
        lemma_defs_view_index(olddefs);
    }
    let reg2 = memo_store(reg1m, ip, mid, MemoVal::MMask(Some(idx)));
    (Some(idx), reg2)
}

fn resolve_paint_ref(
    root: &Element,
    vp: Rect,
    keep: bool,
    pid: u64,
    bb: Rect,
    reg: Reg,
    ip: &Vec<u64>,
    fuel: u64,
) -> (r: (PaintOutcome, Reg))
    requires
        vp.wf(),
        bb.wf(),
    ensures
        ({
            let sp = spec_resolve_paint_ref(
                *root,
                vp,
                keep,
                pid,
                bb,
                reg_view(reg),
                ip@,
                fuel as nat,
            );
            r.0 == sp.0 && reg_view(r.1) == sp.1
        }),
    decreases fuel, 0nat, 0int,
{
    let pe = match find_def(root, pid) {
        Some(f) => f,
        None => {
            return (PaintOutcome::Normal(Paint::NoPaint), reg);
        },
    };
    let us = matches!(pe.attrs.units, Units::UserSpace);
    let lox: i64 = if us {
        vp.x1
    } else {
        bb.x1
    };
    let hix: i64 = if us {
        vp.x2
    } else {
        bb.x2
    };
    let loy: i64 = if us {
        vp.y1
    } else {
        bb.y1
    };
    let hiy: i64 = if us {
        vp.y2
    } else {
        bb.y2
    };
    match pe.kind {
        ElemKind::LinearGradient => {
            let hit = if us {
                memo_find(&reg.memo, pid)
            } else {
                None
            };
            match hit {
                Some(MemoVal::MPaint(o)) => (o, reg),
                _ => {
                    let stops = collect_stops(&pe.children);
                    if stops.len() == 0 {
                        let o = PaintOutcome::Normal(Paint::NoPaint);
                        let regf = if us {
                            memo_store(reg, ip, pid, MemoVal::MPaint(o))
                        } else {
                            reg
                        };
                        (o, regf)
                    } else {
                        let d = Def::LinearGradient(
                            LinearGradientDef {
                                x1: resolve_length(pe.attrs.x, lox, lox, hix),
                                y1: resolve_length(pe.attrs.y, loy, loy, hiy),
                                x2: resolve_length(pe.attrs.x2, hix, lox, hix),
                                y2: resolve_length(pe.attrs.y2, loy, loy, hiy),
                                stops,
                            },
                        );
                        let ghost dsnap = d;
                        let ghost olddefs = reg.defs@;
                        let mut regm = reg;
                        regm.defs.push(d);
                        let idx = regm.defs.len() - 1;
                        proof {
                            crate::tree::lemma_defs_view_push(olddefs, dsnap);
                            lemma_defs_view_index(olddefs);
                        }
                        let o = PaintOutcome::Normal(Paint::LinearGradientRef(idx));
                        let regf = if us {
                            memo_store(regm, ip, pid, MemoVal::MPaint(o))
                        } else {
                            regm
                        };
                        (o, regf)
                    }
                },
            }
        },
        ElemKind::RadialGradient => {
            let hit = if us {
                memo_find(&reg.memo, pid)
            } else {
                None
            };
            match hit {
                Some(MemoVal::MPaint(o)) => (o, reg),
                _ => {
                    let stops = collect_stops(&pe.children);
                    if stops.len() == 0 {
                        let o = PaintOutcome::Normal(Paint::NoPaint);
                        let regf = if us {
                            memo_store(reg, ip, pid, MemoVal::MPaint(o))
                        } else {
                            reg
                        };
                        (o, regf)
                    } else {
                        let dcx = pct_between(50, lox, hix);
                        let dcy = pct_between(50, loy, hiy);
                        let d = Def::RadialGradient(
                            RadialGradientDef {
                                cx: resolve_length(pe.attrs.cx, dcx, lox, hix),
                                cy: resolve_length(pe.attrs.cy, dcy, loy, hiy),
                                r: resolve_length(pe.attrs.r, dcx, lox, hix),
                                stops,
                            },
                        );
                        let ghost dsnap = d;
                        let ghost olddefs = reg.defs@;
                        let mut regm = reg;
                        regm.defs.push(d);
                        let idx = regm.defs.len() - 1;
                        proof {
                            crate::tree::lemma_defs_view_push(olddefs, dsnap);
                            lemma_defs_view_index(olddefs);
                        }
                        let o = PaintOutcome::Normal(Paint::RadialGradientRef(idx));
                        let regf = if us {
                            memo_store(regm, ip, pid, MemoVal::MPaint(o))
                        } else {
                            regm
                        };
                        (o, regf)
                    }
                },
            }
        },
        ElemKind::Pattern => {
            if contains_id(ip, pid) {
                return (PaintOutcome::HiddenFallback, reg);
            }
            let hit = if us {
                memo_find(&reg.memo, pid)
            } else {
                None
            };
            match hit {
                Some(MemoVal::MPaint(o)) => (o, reg),
                _ => {
                    let x = resolve_length(pe.attrs.x, lox, lox, hix);
                    let y = resolve_length(pe.attrs.y, loy, loy, hiy);
                    let w = resolve_length(pe.attrs.width, 0, lox, hix);
                    let h = resolve_length(pe.attrs.height, 0, loy, hiy);
                    if w <= 0 || h <= 0 {
                        let o = PaintOutcome::HiddenFallback;
                        let regf = if us {
                            memo_store(reg, ip, pid, MemoVal::MPaint(o))
                        } else {
                            reg
                        };
                        (o, regf)
                    } else if fuel == 0 {
                        (PaintOutcome::HiddenFallback, reg)
                    } else {
                        let ip2 = push_id(ip, pid);
                        let (content, reg1) = {
                            proof {
                                lemma_esize_from_full(pe.children@);
                            }
                            conv_list(
                                root,
                                vp,
                                keep,
                                EffStyle::initial(),
                                pe.attrs.transform,
                                &pe.children,
                                0,
                                reg,
                                &ip2,
                                fuel - 1,
                            )
                        };
                        if content.len() == 0 {
                            let o = PaintOutcome::HiddenFallback;
                            let regf = if us {
                                memo_store(reg1, ip, pid, MemoVal::MPaint(o))
                            } else {
                                reg1
                            };
                            (o, regf)
                        } else {
                            let d = Def::Pattern(
                                PatternDef {
                                    rect: Rect {
                                        x1: x,
                                        y1: y,
                                        x2: sat_add(x, w),
                                        y2: sat_add(y, h),
                                    },
                                    content,
                                },
                            );
                            let ghost dsnap = d;
                            let ghost olddefs = reg1.defs@;
                            let mut regm = reg1;
                            regm.defs.push(d);
                            let idx = regm.defs.len() - 1;
                            proof {
                                crate::tree::lemma_defs_view_push(olddefs, dsnap);
                                lemma_defs_view_index(olddefs);
                            }
                            let o = PaintOutcome::Normal(Paint::PatternRef(idx));
                            let regf = if us {
                                memo_store(regm, ip, pid, MemoVal::MPaint(o))
                            } else {
                                regm
                            };
                            (o, regf)
                        }
                    }
                },
            }
        },
        _ => (PaintOutcome::Normal(Paint::NoPaint), reg),
    }
}

#[verifier::rlimit(90)]
fn conv_elem(
    root: &Element,
    vp: Rect,
    keep: bool,
    sty: EffStyle,
    tf: Transform,
    e: &Element,
    reg: Reg,
    ip: &Vec<u64>,
    fuel: u64,
) -> (r: (Vec<Node>, Reg))
    requires
        vp.wf(),
    ensures
        ({
            let sp = spec_conv_elem(*root, vp, keep, sty, tf, *e, reg_view(reg), ip@, fuel as nat);
            nodes_view(r.0@) == sp.0 && reg_view(r.1) == sp.1
        }),
    decreases fuel, esize(*e), 0int,
{
    match e.kind {
        ElemKind::Group => {
            let sty2 = resolve_style(&sty, e, vp);
            let gtf = tf.compose(e.attrs.transform);
            let (clip_out, reg1) = match e.attrs.clip_path {
                Some(cid) => {
                    if fuel > 0 {
                        resolve_clip(root, vp, keep, cid, reg, ip, fuel - 1)
                    } else {
                        (ClipOutcome::NoClip, reg)
                    }
                },
                None => (ClipOutcome::NoClip, reg),
            };
            if matches!(clip_out, ClipOutcome::ClipAll) {
                return (Vec::new(), reg1);
            }
            let (kids, reg2) = {
                proof {
                    lemma_esize_from_full(e.children@);
                }
                conv_list(root, vp, keep, sty2, gtf, &e.children, 0, reg1, ip, fuel)
            };
            if kids.len() == 0 {
                return (kids, reg2);
            }
            let (mask_out, reg3) = match e.attrs.mask {
                Some(mid) => {
                    if fuel > 0 {
                        resolve_mask(root, vp, keep, mid, reg2, ip, fuel - 1)
                    } else {
                        (None, reg2)
                    }
                },
                None => (None, reg2),
            };
            let opv = e.attrs.opacity.resolve(255);
            let explicit_neutral = match e.attrs.opacity {
                ByteAttr::Val(v) => v == 255,
                _ => false,
            };
            let boundary = matches!(clip_out, ClipOutcome::Clip(_)) || mask_out.is_some()
                || e.attrs.filter.is_some() || opv != 255;
            if boundary {
                let g = Node {
                    id: e.id,
                    transform: Transform::identity(),
                    visible: sty2.visible,
                    fill: None,
                    stroke: None,
                    kind: NodeKind::Group(
                        GroupData {
                            opacity: opv,
                            clip: match clip_out {
                                ClipOutcome::Clip(i) => Some(i),
                                _ => None,
                            },
                            mask: mask_out,
                            filter: e.attrs.filter,
                            children: kids,
                        },
                    ),
                };
                let mut out: Vec<Node> = Vec::new();
                out.push(g);
                proof {
                    assert(out@ =~= seq![g]);
                    crate::tree::lemma_nodes_view_singleton(g);
                }
                (out, reg3)
            } else if keep && e.id.is_some() && !explicit_neutral {
                let g = Node {
                    id: e.id,
                    transform: Transform::identity(),
                    visible: sty2.visible,
                    fill: None,
                    stroke: None,
                    kind: NodeKind::Group(
                        GroupData {
                            opacity: 255,
                            clip: None,
                            mask: None,
                            filter: None,
                            children: kids,
                        },
                    ),
                };
                let mut out: Vec<Node> = Vec::new();
                out.push(g);
                proof {
                    assert(out@ =~= seq![g]);
                    crate::tree::lemma_nodes_view_singleton(g);
                }
                (out, reg3)
            } else {
                (transfer_id(e.id, kids), reg3)
            }
        },
        ElemKind::Rect | ElemKind::Line | ElemKind::Polyline | ElemKind::Polygon
            | ElemKind::PathElem => {
            let sty2 = resolve_style(&sty, e, vp);
            let stf = tf.compose(e.attrs.transform);
            let local = shape_segments(e, vp);
            if local.len() == 0 {
                return (Vec::new(), reg);
            }
            let segs = translate_segments(&local, stf);
            let (clip_out, reg1) = match e.attrs.clip_path {
                Some(cid) => {
                    if fuel > 0 {
                        resolve_clip(root, vp, keep, cid, reg, ip, fuel - 1)
                    } else {
                        (ClipOutcome::NoClip, reg)
                    }
                },
                None => (ClipOutcome::NoClip, reg),
            };
            if matches!(clip_out, ClipOutcome::ClipAll) {
                return (Vec::new(), reg1);
            }
            let (mask_out, reg2) = match e.attrs.mask {
                Some(mid) => {
                    if fuel > 0 {
                        resolve_mask(root, vp, keep, mid, reg1, ip, fuel - 1)
                    } else {
                        (None, reg1)
                    }
                },
                None => (None, reg1),
            };
            let bb = match segs_bbox(&segs) {
                Some(b) => b,
                None => vp,
            };
            let shape_op = e.attrs.opacity.resolve(255);
            let (fill_out, reg3) = match sty2.fill {
                PaintRef::NoPaint => (PaintOutcome::Normal(Paint::NoPaint), reg2),
                PaintRef::Color(c) => (PaintOutcome::Normal(Paint::Color(c)), reg2),
                PaintRef::Ref(pid) => {
                    if fuel > 0 {
                        resolve_paint_ref(root, vp, keep, pid, bb, reg2, ip, fuel - 1)
                    } else {
                        (PaintOutcome::Normal(Paint::NoPaint), reg2)
                    }
                },
            };
            let (stroke_out, reg4) = match sty2.stroke {
                PaintRef::NoPaint => (PaintOutcome::Normal(Paint::NoPaint), reg3),
                PaintRef::Color(c) => (PaintOutcome::Normal(Paint::Color(c)), reg3),
                PaintRef::Ref(pid) => {
                    if fuel > 0 {
                        resolve_paint_ref(root, vp, keep, pid, bb, reg3, ip, fuel - 1)
                    } else {
                        (PaintOutcome::Normal(Paint::NoPaint), reg3)
                    }
                },
            };
            let hidden = matches!(fill_out, PaintOutcome::HiddenFallback);
            let node = Node {
                id: e.id,
                transform: Transform::identity(),
                visible: sty2.visible && !hidden,
                fill: assemble_fill(fill_out, sty2.fill_opacity, shape_op, sty2.fill_rule),
                stroke: assemble_stroke(
                    stroke_out,
                    &sty2,
                    shape_op,
                    &e.attrs.dasharray,
                    e.attrs.dashoffset,
                ),
                kind: NodeKind::Path(PathData { segments: segs }),
            };
            (wrap_boundary(node, clip_out, mask_out, e.attrs.filter), reg4)
        },
        ElemKind::Text => {
            let sty2 = resolve_style(&sty, e, vp);
            let stf = tf.compose(e.attrs.transform);
            let x = stf.apply_x(resolve_length(e.attrs.x, 0, vp.x1, vp.x2));
            let y = stf.apply_y(resolve_length(e.attrs.y, 0, vp.y1, vp.y2));
            let fs: i64 = if sty2.font_size > 0 {
                sty2.font_size
            } else {
                0
            };
            let (clip_out, reg1) = match e.attrs.clip_path {
                Some(cid) => {
                    if fuel > 0 {
                        resolve_clip(root, vp, keep, cid, reg, ip, fuel - 1)
                    } else {
                        (ClipOutcome::NoClip, reg)
                    }
                },
                None => (ClipOutcome::NoClip, reg),
            };
            if matches!(clip_out, ClipOutcome::ClipAll) {
                return (Vec::new(), reg1);
            }
            let (mask_out, reg2) = match e.attrs.mask {
                Some(mid) => {
                    if fuel > 0 {
                        resolve_mask(root, vp, keep, mid, reg1, ip, fuel - 1)
                    } else {
                        (None, reg1)
                    }
                },
                None => (None, reg1),
            };
            let nlen: i64 = if e.attrs.text.len() > 1000000 {
                1000000
            } else {
                e.attrs.text.len() as i64
            };
            let base: i64 = sat_sub(y, fs);
            let adv: i64 = sat_mul(nlen, fs);
            let bb = Rect { x1: x, y1: base, x2: sat_add(x, adv), y2: y };
            proof {
                assert(nlen as int * fs as int >= 0) by (nonlinear_arith)
                    requires
                        nlen >= 0 && fs >= 0,
                ;
                assert(bb == crate::tree::spec_text_rect(
                    TextV { x, y, font_size: fs, content: e.attrs.text@ },
                ));
                assert(bb.wf());
            }
            let shape_op = e.attrs.opacity.resolve(255);
            let (fill_out, reg3) = match sty2.fill {
                PaintRef::NoPaint => (PaintOutcome::Normal(Paint::NoPaint), reg2),
                PaintRef::Color(c) => (PaintOutcome::Normal(Paint::Color(c)), reg2),
                PaintRef::Ref(pid) => {
                    if fuel > 0 {
                        resolve_paint_ref(root, vp, keep, pid, bb, reg2, ip, fuel - 1)
                    } else {
                        (PaintOutcome::Normal(Paint::NoPaint), reg2)
                    }
                },
            };
            let (stroke_out, reg4) = match sty2.stroke {
                PaintRef::NoPaint => (PaintOutcome::Normal(Paint::NoPaint), reg3),
                PaintRef::Color(c) => (PaintOutcome::Normal(Paint::Color(c)), reg3),
                PaintRef::Ref(pid) => {
                    if fuel > 0 {
                        resolve_paint_ref(root, vp, keep, pid, bb, reg3, ip, fuel - 1)
                    } else {
                        (PaintOutcome::Normal(Paint::NoPaint), reg3)
                    }
                },
            };
            let hidden = matches!(fill_out, PaintOutcome::HiddenFallback);
            let node = Node {
                id: e.id,
                transform: Transform::identity(),
                visible: sty2.visible && !hidden,
                fill: assemble_fill(fill_out, sty2.fill_opacity, shape_op, sty2.fill_rule),
                stroke: assemble_stroke(
                    stroke_out,
                    &sty2,
                    shape_op,
                    &e.attrs.dasharray,
                    e.attrs.dashoffset,
                ),
                kind: NodeKind::Text(
                    TextData { x, y, font_size: fs, content: copy_vals(&e.attrs.text) },
                ),
            };
            (wrap_boundary(node, clip_out, mask_out, e.attrs.filter), reg4)
        },
        ElemKind::Image => {
            let sty2 = resolve_style(&sty, e, vp);
            let stf = tf.compose(e.attrs.transform);
            let x = stf.apply_x(resolve_length(e.attrs.x, 0, vp.x1, vp.x2));
            let y = stf.apply_y(resolve_length(e.attrs.y, 0, vp.y1, vp.y2));
            let w = resolve_length(e.attrs.width, 0, vp.x1, vp.x2);
            let h = resolve_length(e.attrs.height, 0, vp.y1, vp.y2);
            if w <= 0 || h <= 0 {
                return (Vec::new(), reg);
            }
            let (clip_out, reg1) = match e.attrs.clip_path {
                Some(cid) => {
                    if fuel > 0 {
                        resolve_clip(root, vp, keep, cid, reg, ip, fuel - 1)
                    } else {
                        (ClipOutcome::NoClip, reg)
                    }
                },
                None => (ClipOutcome::NoClip, reg),
            };
            if matches!(clip_out, ClipOutcome::ClipAll) {
                return (Vec::new(), reg1);
            }
            let (mask_out, reg2) = match e.attrs.mask {
                Some(mid) => {
                    if fuel > 0 {
                        resolve_mask(root, vp, keep, mid, reg1, ip, fuel - 1)
                    } else {
                        (None, reg1)
                    }
                },
                None => (None, reg1),
            };
            let node = Node {
                id: e.id,
                transform: Transform::identity(),
                visible: sty2.visible,
                fill: None,
                stroke: None,
                kind: NodeKind::Image(
                    ImageData { x, y, w, h, data: copy_vals(&e.attrs.image_data) },
                ),
            };
            (wrap_boundary(node, clip_out, mask_out, e.attrs.filter), reg2)
        },
        _ => (Vec::new(), reg),
    }
}

fn conv_list(
    root: &Element,
    vp: Rect,
    keep: bool,
    sty: EffStyle,
    tf: Transform,
    s: &Vec<Element>,
    i: usize,
    reg: Reg,
    ip: &Vec<u64>,
    fuel: u64,
) -> (r: (Vec<Node>, Reg))
    requires
        vp.wf(),
        i <= s.len(),
    ensures
        ({
            let sp = spec_conv_list(
                *root,
                vp,
                keep,
                sty,
                tf,
                s@,
                i as int,
                reg_view(reg),
                ip@,
                fuel as nat,
            );
            nodes_view(r.0@) == sp.0 && reg_view(r.1) == sp.1
        }),
    decreases fuel, esize_from(s@, i as int), 1int,
{
    if i == s.len() {
        (Vec::new(), reg)
    } else {
        proof {
            lemma_esize_from_step(s@, i as int);
        }
        let (mut first, reg_a) = conv_elem(root, vp, keep, sty, tf, &s[i], reg, ip, fuel);
        let ghost f0 = first@;
        let (mut rest, reg_b) = conv_list(root, vp, keep, sty, tf, s, i + 1, reg_a, ip, fuel);
        let ghost r0 = rest@;
        first.append(&mut rest);
        proof {
            lemma_nodes_view_concat(f0, r0);
        }
        (first, reg_b)
    }
}

// ------------------------------------------------------------------
// Id collection and the entry point
// ------------------------------------------------------------------

/// Every id in the subtree, in preorder.
pub open spec fn spec_ids(e: Element) -> Seq<u64>
    decreases esize(e), 0int,
{
    let own = match e.id {
        Some(i) => seq![i],
        None => Seq::<u64>::empty(),
    };
    own + {
        proof {
            lemma_esize_from_full(e.children@);
        }
        spec_ids_list(e.children@, 0)
    }
}

pub open spec fn spec_ids_list(s: Seq<Element>, i: int) -> Seq<u64>
    decreases esize_from(s, i), 1int,
{
    if i < 0 || i >= s.len() {
        Seq::empty()
    } else {
        proof {
            lemma_esize_from_step(s, i);
        }
        spec_ids(s[i]) + spec_ids_list(s, i + 1)
    }
}

fn collect_ids(e: &Element) -> (r: Vec<u64>)
    ensures
        r@ == spec_ids(*e),
    decreases esize(*e), 0int,
{
    let mut out: Vec<u64> = Vec::new();
    match e.id {
        Some(i) => {
            out.push(i);
            proof {
                assert(out@ =~= seq![i]);
            }
        },
        None => {
            proof {
                assert(out@ =~= Seq::<u64>::empty());
            }
        },
    }
    let ghost own = out@;
    let mut rest = {
        proof {
            lemma_esize_from_full(e.children@);
        }
        collect_ids_list(&e.children, 0)
    };
    out.append(&mut rest);
    out
}

fn collect_ids_list(s: &Vec<Element>, i: usize) -> (r: Vec<u64>)
    requires
        i <= s.len(),
    ensures
        r@ == spec_ids_list(s@, i as int),
    decreases esize_from(s@, i as int), 1int,
{
    if i == s.len() {
        Vec::new()
    } else {
        proof {
            lemma_esize_from_step(s@, i as int);
        }
        let mut a = collect_ids(&s[i]);
        let mut b = collect_ids_list(s, i + 1);
        a.append(&mut b);
        a
    }
}

/// Whether a sequence of ids has no repetition.
pub open spec fn spec_unique(s: Seq<u64>) -> bool {
    forall|a: int, b: int| 0 <= a < b < s.len() ==> s[a] != s[b]
}

fn has_duplicate(v: &Vec<u64>) -> (r: bool)
    ensures
        r == !spec_unique(v@),
{
    let mut i: usize = 0;
    while i < v.len()
        invariant
            i <= v.len(),
            forall|a: int, b: int| 0 <= a < b < v@.len() && a < i ==> v@[a] != v@[b],
        decreases v.len() - i,
    {
        let mut j: usize = i + 1;
        while j < v.len()
            invariant
                i < j <= v.len() || (i + 1 == j && j > v.len()),
                i < v.len(),
                j >= i + 1,
                j <= v.len(),
                forall|b: int| i < b < j ==> v@[i as int] != v@[b],
            decreases v.len() - j,
        {
            if v[i] == v[j] {
                return true;
            }
            j = j + 1;
        }
        i = i + 1;
    }
    false
}

/// The whole transform as one function: configuration validation, root
/// validation, id-uniqueness validation, then conversion. Everything else
/// degrades locally and cannot fail.
pub open spec fn spec_normalize(doc: Document, cfg: Config) -> Result<RenderTreeV, FatalError> {
    if !cfg.spec_valid() {
        Err(FatalError::InvalidConfig)
    } else if doc.root.kind != ElemKind::Svg {
        Err(FatalError::UnsupportedRoot)
    } else if !spec_unique(spec_ids(doc.root)) {
        Err(FatalError::MalformedDocument)
    } else {
        let vp = spec_viewport(doc.root);
        let nids = spec_ids(doc.root).len();
        let fl: nat = if nids > 0xFFFF_FFFF {
            0xFFFF_FFFF
        } else {
            nids
        };
        let pair = spec_conv_list(
            doc.root,
            vp,
            cfg.keep_named_groups,
            EffStyle::spec_initial(),
            Transform::spec_identity(),
            doc.root.children@,
            0,
            RegV { defs: Seq::empty(), memo: Seq::empty() },
            Seq::empty(),
            fl + 1,
        );
        Ok(RenderTreeV { defs: pair.1.defs, children: pair.0 })
    }
}

/// Normalize an attributed document into a render tree.
///
/// Fatal errors are a configuration value outside its domain, a root that
/// is not an `svg` element, and a repeated id; every other anomaly is
/// absorbed by a per-node fallback. The result is pinned exactly by
/// `spec_normalize`.
pub fn normalize(doc: &Document, cfg: &Config) -> (r: Result<RenderTree, FatalError>)
    ensures
        ({
            let sp = spec_normalize(*doc, *cfg);
            match r {
                Ok(t) => sp is Ok && crate::tree::tree_view(t) == sp->Ok_0,
                Err(e) => sp == Err::<RenderTreeV, FatalError>(e),
            }
        }),
{
    if !cfg.valid() {
        return Err(FatalError::InvalidConfig);
    }
    if !matches!(doc.root.kind, ElemKind::Svg) {
        return Err(FatalError::UnsupportedRoot);
    }
    let ids = collect_ids(&doc.root);
    if has_duplicate(&ids) {
        return Err(FatalError::MalformedDocument);
    }
    let vp = viewport(&doc.root);
    let fl: u64 = if ids.len() > 0xFFFF_FFFFusize {
        0xFFFF_FFFFu64
    } else {
        ids.len() as u64
    };
    let reg = Reg { defs: Vec::new(), memo: Vec::new() };
    let ip: Vec<u64> = Vec::new();
    let (children, regf) = conv_list(
        &doc.root,
        vp,
        cfg.keep_named_groups,
        EffStyle::initial(),
        Transform::identity(),
        &doc.root.children,
        0,
        reg,
        &ip,
        fl + 1,
    );
    Ok(RenderTree { defs: regf.defs, children })
}

} // verus!
