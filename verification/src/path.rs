//! Path segments, shape-to-path conversion, and path-data simplification.
//!
//! Every produced segment sequence is absolute and, when non-empty, begins
//! with a `MoveTo`. Runs of consecutive `ClosePath` commands collapse to a
//! single one; that simplification is idempotent (`lemma_simplify_idempotent`).

use vstd::prelude::*;

use crate::geom::Rect;
use crate::geom::Transform;
use crate::geom::sat_add;

verus! {

/// One absolute path command.
#[derive(Clone, Copy, Debug, PartialEq, Eq, Structural)]
pub enum PathSegment {
    MoveTo { x: i64, y: i64 },
    LineTo { x: i64, y: i64 },
    CurveTo { x1: i64, y1: i64, x2: i64, y2: i64, x: i64, y: i64 },
    ClosePath,
}

/// Collapse every run of two or more consecutive `ClosePath` commands
/// into a single one.
pub open spec fn collapse_closes(s: Seq<PathSegment>) -> Seq<PathSegment>
    decreases s.len(),
{
    if s.len() == 0 {
        Seq::empty()
    } else {
        let rest = collapse_closes(s.drop_first());
        if s[0] is ClosePath && rest.len() > 0 && rest[0] is ClosePath {
            rest
        } else {
            seq![s[0]] + rest
        }
    }
}

/// A sequence with no two consecutive `ClosePath` commands.
pub open spec fn no_close_runs(s: Seq<PathSegment>) -> bool {
    forall|i: int|
        0 <= i < s.len() - 1 ==> !(#[trigger] s[i] is ClosePath && s[i + 1] is ClosePath)
}

/// Collapsing leaves no run of consecutive `ClosePath` commands behind.
pub proof fn lemma_collapse_no_runs(s: Seq<PathSegment>)
    ensures
        no_close_runs(collapse_closes(s)),
    decreases s.len(),
{
    if s.len() > 0 {
        let rest = collapse_closes(s.drop_first());
        lemma_collapse_no_runs(s.drop_first());
        if !(s[0] is ClosePath && rest.len() > 0 && rest[0] is ClosePath) {
            let r = seq![s[0]] + rest;
            assert forall|i: int| 0 <= i < r.len() - 1 implies !(#[trigger] r[i] is ClosePath
                && r[i + 1] is ClosePath) by {
                if i > 0 {
                    assert(r[i] == rest[i - 1]);
                    assert(r[i + 1] == rest[i]);
                }
            }
        }
    }
}

/// Collapsing a sequence that already has no close runs changes nothing.
pub proof fn lemma_collapse_fixed(s: Seq<PathSegment>)
    requires
        no_close_runs(s),
    ensures
        collapse_closes(s) == s,
    decreases s.len(),
{
    if s.len() > 0 {
        let rest = s.drop_first();
        assert forall|i: int| 0 <= i < rest.len() - 1 implies !(#[trigger] rest[i] is ClosePath
            && rest[i + 1] is ClosePath) by {
            assert(rest[i] == s[i + 1]);
            assert(rest[i + 1] == s[i + 2]);
        }
        lemma_collapse_fixed(rest);
        if s[0] is ClosePath && rest.len() > 0 && rest[0] is ClosePath {
            assert(s[0] is ClosePath && s[1] is ClosePath);
            assert(false);
        }
        assert(seq![s[0]] + rest =~= s);
    } else {
        assert(collapse_closes(s) =~= s);
    }
}

/// A collapsed sequence keeps its first command.
pub proof fn lemma_collapse_first(s: Seq<PathSegment>)
    requires
        s.len() > 0,
        !(s[0] is ClosePath),
    ensures
        collapse_closes(s).len() > 0,
        collapse_closes(s)[0] == s[0],
    decreases s.len(),
{
}

/// Normalized path data: empty unless the input begins with `MoveTo`
/// (invalid path data degrades to no geometry), with close runs collapsed.
pub open spec fn spec_simplify(s: Seq<PathSegment>) -> Seq<PathSegment> {
    if s.len() > 0 && s[0] is MoveTo {
        collapse_closes(s)
    } else {
        Seq::empty()
    }
}

/// Path-data simplification is idempotent: simplifying a simplified
/// sequence returns it unchanged.
pub proof fn lemma_simplify_idempotent(s: Seq<PathSegment>)
    ensures
        spec_simplify(spec_simplify(s)) == spec_simplify(s),
{
    if s.len() > 0 && s[0] is MoveTo {
        lemma_collapse_first(s);
        lemma_collapse_no_runs(s);
        lemma_collapse_fixed(collapse_closes(s));
    } else {
        assert(spec_simplify(s) =~= Seq::<PathSegment>::empty());
    }
}

/// A simplified sequence, when non-empty, begins with `MoveTo`.
pub proof fn lemma_simplify_starts_moveto(s: Seq<PathSegment>)
    ensures
        spec_simplify(s).len() > 0 ==> spec_simplify(s)[0] is MoveTo,
{
    if s.len() > 0 && s[0] is MoveTo {
        lemma_collapse_first(s);
    }
}

fn collapse_from(v: &Vec<PathSegment>, i: usize) -> (r: Vec<PathSegment>)
    requires
        i <= v.len(),
    ensures
        r@ == collapse_closes(v@.subrange(i as int, v.len() as int)),
    decreases v.len() - i,
{
    if i == v.len() {
        let r: Vec<PathSegment> = Vec::new();
        proof {
            assert(v@.subrange(i as int, v.len() as int) =~= Seq::<PathSegment>::empty());
        }
        r
    } else {
        let mut rest = collapse_from(v, i + 1);
        proof {
            assert(v@.subrange(i as int, v.len() as int).drop_first() =~= v@.subrange(
                i + 1 as int,
                v.len() as int,
            ));
            assert(v@.subrange(i as int, v.len() as int)[0] == v@[i as int]);
        }
        let first_close = matches!(v[i], PathSegment::ClosePath);
        let rest_close = rest.len() > 0 && matches!(rest[0], PathSegment::ClosePath);
        if first_close && rest_close {
            rest
        } else {
            rest.insert(0, v[i]);
            proof {
                assert(rest@ =~= seq![v@[i as int]] + collapse_closes(
                    v@.subrange(i as int, v.len() as int).drop_first(),
                ));
            }
            rest
        }
    }
}

/// Normalize raw path data: reject data that does not begin with `MoveTo`,
/// collapse runs of `ClosePath`.
pub fn simplify_segments(v: &Vec<PathSegment>) -> (r: Vec<PathSegment>)
    ensures
        r@ == spec_simplify(v@),
{
    if v.len() > 0 && matches!(v[0], PathSegment::MoveTo { .. }) {
        let r = collapse_from(v, 0);
        proof {
            assert(v@.subrange(0, v.len() as int) =~= v@);
        }
        r
    } else {
        Vec::new()
    }
}

pub open spec fn spec_translate_seg(seg: PathSegment, t: Transform) -> PathSegment {
    match seg {
        PathSegment::MoveTo { x, y } => PathSegment::MoveTo {
            x: t.spec_apply_x(x),
            y: t.spec_apply_y(y),
        },
        PathSegment::LineTo { x, y } => PathSegment::LineTo {
            x: t.spec_apply_x(x),
            y: t.spec_apply_y(y),
        },
        PathSegment::CurveTo { x1, y1, x2, y2, x, y } => PathSegment::CurveTo {
            x1: t.spec_apply_x(x1),
            y1: t.spec_apply_y(y1),
            x2: t.spec_apply_x(x2),
            y2: t.spec_apply_y(y2),
            x: t.spec_apply_x(x),
            y: t.spec_apply_y(y),
        },
        PathSegment::ClosePath => PathSegment::ClosePath,
    }
}

pub open spec fn spec_translate_segs(s: Seq<PathSegment>, t: Transform) -> Seq<PathSegment> {
    s.map_values(|seg: PathSegment| spec_translate_seg(seg, t))
}

fn translate_seg(seg: &PathSegment, t: Transform) -> (r: PathSegment)
    ensures
        r == spec_translate_seg(*seg, t),
{
    match *seg {
        PathSegment::MoveTo { x, y } => PathSegment::MoveTo {
            x: t.apply_x(x),
            y: t.apply_y(y),
        },
        PathSegment::LineTo { x, y } => PathSegment::LineTo {
            x: t.apply_x(x),
            y: t.apply_y(y),
        },
        PathSegment::CurveTo { x1, y1, x2, y2, x, y } => PathSegment::CurveTo {
            x1: t.apply_x(x1),
            y1: t.apply_y(y1),
            x2: t.apply_x(x2),
            y2: t.apply_y(y2),
            x: t.apply_x(x),
            y: t.apply_y(y),
        },
        PathSegment::ClosePath => PathSegment::ClosePath,
    }
}

/// Fold a transform into every coordinate of a segment sequence.
pub fn translate_segments(v: &Vec<PathSegment>, t: Transform) -> (r: Vec<PathSegment>)
    ensures
        r@ == spec_translate_segs(v@, t),
{
    let mut out: Vec<PathSegment> = Vec::new();
    let mut i: usize = 0;
    while i < v.len()
        invariant
            i <= v.len(),
            out@ == spec_translate_segs(v@.take(i as int), t),
        decreases v.len() - i,
    {
        out.push(translate_seg(&v[i], t));
        proof {
            assert(v@.take(i + 1 as int).map_values(
                |seg: PathSegment| spec_translate_seg(seg, t),
            ) =~= v@.take(i as int).map_values(|seg: PathSegment| spec_translate_seg(seg, t)).push(
                spec_translate_seg(v@[i as int], t),
            ));
        }
        i = i + 1;
    }
    proof {
        assert(v@.take(v.len() as int) =~= v@);
    }
    out
}

/// The points a segment contributes to a bounding box: end and control
/// points alike (conservative for curves), nothing for `ClosePath`.
pub open spec fn spec_seg_rect(seg: PathSegment) -> Option<Rect> {
    match seg {
        PathSegment::MoveTo { x, y } => Some(Rect { x1: x, y1: y, x2: x, y2: y }),
        PathSegment::LineTo { x, y } => Some(Rect { x1: x, y1: y, x2: x, y2: y }),
        PathSegment::CurveTo { x1, y1, x2, y2, x, y } => Some(
            Rect {
                x1: x1,
                y1: y1,
                x2: x1,
                y2: y1,
            }.spec_union(Rect { x1: x2, y1: y2, x2: x2, y2: y2 }).spec_union(
                Rect { x1: x, y1: y, x2: x, y2: y },
            ),
        ),
        PathSegment::ClosePath => None,
    }
}

pub open spec fn spec_merge_rect(a: Option<Rect>, b: Option<Rect>) -> Option<Rect> {
    match (a, b) {
        (Some(ra), Some(rb)) => Some(ra.spec_union(rb)),
        (Some(ra), None) => Some(ra),
        (None, Some(rb)) => Some(rb),
        (None, None) => None,
    }
}

/// The geometry bounding box of a segment sequence: the tight box around
/// every coordinate that occurs in it.
pub open spec fn spec_segs_bbox(s: Seq<PathSegment>) -> Option<Rect>
    decreases s.len(),
{
    if s.len() == 0 {
        None
    } else {
        spec_merge_rect(spec_segs_bbox(s.drop_last()), spec_seg_rect(s.last()))
    }
}

fn seg_rect(seg: &PathSegment) -> (r: Option<Rect>)
    ensures
        r == spec_seg_rect(*seg),
        r is Some ==> r->Some_0.wf(),
{
    match *seg {
        PathSegment::MoveTo { x, y } => Some(Rect { x1: x, y1: y, x2: x, y2: y }),
        PathSegment::LineTo { x, y } => Some(Rect { x1: x, y1: y, x2: x, y2: y }),
        PathSegment::CurveTo { x1, y1, x2, y2, x, y } => Some(
            Rect { x1: x1, y1: y1, x2: x1, y2: y1 }.union(
                Rect { x1: x2, y1: y2, x2: x2, y2: y2 },
            ).union(Rect { x1: x, y1: y, x2: x, y2: y }),
        ),
        PathSegment::ClosePath => None,
    }
}

/// Compute the geometry bounding box of a segment sequence. A sequence
/// that begins with `MoveTo` always has one.
pub fn segs_bbox(v: &Vec<PathSegment>) -> (r: Option<Rect>)
    ensures
        r == spec_segs_bbox(v@),
        r is Some ==> r->Some_0.wf(),
        v@.len() > 0 && v@[0] is MoveTo ==> r is Some,
{
    let mut acc: Option<Rect> = None;
    let mut i: usize = 0;
    while i < v.len()
        invariant
            i <= v.len(),
            acc == spec_segs_bbox(v@.take(i as int)),
            acc is Some ==> acc->Some_0.wf(),
            i > 0 && v@[0] is MoveTo ==> acc is Some,
        decreases v.len() - i,
    {
        let sr = seg_rect(&v[i]);
        proof {
            assert(v@.take(i + 1 as int).drop_last() =~= v@.take(i as int));
            assert(v@.take(i + 1 as int).last() == v@[i as int]);
        }
        acc = match (acc, sr) {
            (Some(ra), Some(rb)) => Some(ra.union(rb)),
            (Some(ra), None) => Some(ra),
            (None, Some(rb)) => Some(rb),
            (None, None) => None,
        };
        i = i + 1;
    }
    proof {
        assert(v@.take(v.len() as int) =~= v@);
    }
    acc
}

/// The closed, clockwise outline of a rectangle, starting at its top-left
/// corner. Empty when the rectangle has no area.
pub open spec fn spec_rect_segments(x: i64, y: i64, w: i64, h: i64) -> Seq<PathSegment> {
    if w <= 0 || h <= 0 {
        Seq::empty()
    } else {
        seq![
            PathSegment::MoveTo { x, y },
            PathSegment::LineTo { x: crate::geom::clamp64(x + w), y },
            PathSegment::LineTo {
                x: crate::geom::clamp64(x + w),
                y: crate::geom::clamp64(y + h),
            },
            PathSegment::LineTo { x, y: crate::geom::clamp64(y + h) },
            PathSegment::ClosePath,
        ]
    }
}

/// Convert a rectangle to its outline path.
pub fn rect_segments(x: i64, y: i64, w: i64, h: i64) -> (r: Vec<PathSegment>)
    ensures
        r@ == spec_rect_segments(x, y, w, h),
{
    if w <= 0 || h <= 0 {
        Vec::new()
    } else {
        let xr = sat_add(x, w);
        let yb = sat_add(y, h);
        let mut out: Vec<PathSegment> = Vec::new();
        out.push(PathSegment::MoveTo { x, y });
        out.push(PathSegment::LineTo { x: xr, y });
        out.push(PathSegment::LineTo { x: xr, y: yb });
        out.push(PathSegment::LineTo { x, y: yb });
        out.push(PathSegment::ClosePath);
        proof {
            assert(out@ =~= spec_rect_segments(x, y, w, h));
        }
        out
    }
}

/// A `MoveTo` + `LineTo` chain through a point list; a polygon appends an
/// explicit close. Fewer than two points yield no geometry.
pub open spec fn spec_poly_segments(pts: Seq<(i64, i64)>, close: bool) -> Seq<PathSegment>
    decreases pts.len(),
{
    if pts.len() < 2 {
        Seq::empty()
    } else {
        let chain = Seq::new(
            pts.len(),
            |i: int|
                if i == 0 {
                    PathSegment::MoveTo { x: pts[0].0, y: pts[0].1 }
                } else {
                    PathSegment::LineTo { x: pts[i].0, y: pts[i].1 }
                },
        );
        if close {
            chain.push(PathSegment::ClosePath)
        } else {
            chain
        }
    }
}

/// Convert a polyline or polygon point list to a path.
pub fn poly_segments(pts: &Vec<(i64, i64)>, close: bool) -> (r: Vec<PathSegment>)
    ensures
        r@ == spec_poly_segments(pts@, close),
{
    if pts.len() < 2 {
        return Vec::new();
    }
    let ghost chain = Seq::new(
        pts@.len(),
        |i: int|
            if i == 0 {
                PathSegment::MoveTo { x: pts@[0].0, y: pts@[0].1 }
            } else {
                PathSegment::LineTo { x: pts@[i].0, y: pts@[i].1 }
            },
    );
    let mut out: Vec<PathSegment> = Vec::new();
    let p0 = pts[0];
    out.push(PathSegment::MoveTo { x: p0.0, y: p0.1 });
    let mut i: usize = 1;
    while i < pts.len()
        invariant
            1 <= i <= pts.len(),
            pts.len() >= 2,
            out@ == chain.take(i as int),
            chain == Seq::new(
                pts@.len(),
                |j: int|
                    if j == 0 {
                        PathSegment::MoveTo { x: pts@[0].0, y: pts@[0].1 }
                    } else {
                        PathSegment::LineTo { x: pts@[j].0, y: pts@[j].1 }
                    },
            ),
        decreases pts.len() - i,
    {
        let p = pts[i];
        out.push(PathSegment::LineTo { x: p.0, y: p.1 });
        proof {
            assert(chain.take(i + 1 as int) =~= chain.take(i as int).push(chain[i as int]));
        }
        i = i + 1;
    }
    proof {
        assert(chain.take(pts@.len() as int) =~= chain);
    }
    if close {
        out.push(PathSegment::ClosePath);
    }
    out
}

/// Convert a line to its two-command path.
pub fn line_segments(x1: i64, y1: i64, x2: i64, y2: i64) -> (r: Vec<PathSegment>)
    ensures
        r@ == seq![
            PathSegment::MoveTo { x: x1, y: y1 },
            PathSegment::LineTo { x: x2, y: y2 },
        ],
{
    let mut out: Vec<PathSegment> = Vec::new();
    out.push(PathSegment::MoveTo { x: x1, y: y1 });
    out.push(PathSegment::LineTo { x: x2, y: y2 });
    proof {
        assert(out@ =~= seq![
            PathSegment::MoveTo { x: x1, y: y1 },
            PathSegment::LineTo { x: x2, y: y2 },
        ]);
    }
    out
}

} // verus!
