//! The style resolver: each node's effective presentation properties,
//! computed from the ancestor's effective style and the node's own
//! attributes. Inherited properties propagate down unless locally
//! overridden; non-inherited properties (opacity, clip-path, mask, filter,
//! transform) are read off the element where they apply and never enter
//! this value.

use vstd::prelude::*;

use crate::color::Color;
use crate::geom::Rect;
use crate::model::Element;
use crate::model::FillRule;
use crate::model::Length;
use crate::model::LineCap;
use crate::model::LineJoin;
use crate::model::PaintRef;
use crate::model::resolve_length;
use crate::model::spec_resolve_length;

verus! {

/// The effective (inherited) presentation properties of a node. An
/// immutable value threaded top-down through the resolution pass.
#[derive(Clone, Copy, Debug, PartialEq, Eq, Structural)]
pub struct EffStyle {
    pub fill: PaintRef,
    pub stroke: PaintRef,
    pub fill_opacity: u8,
    pub stroke_opacity: u8,
    pub fill_rule: FillRule,
    pub stroke_width: i64,
    pub linecap: LineCap,
    pub linejoin: LineJoin,
    pub miterlimit: i64,
    pub font_size: i64,
    pub visible: bool,
}

impl EffStyle {
    /// The initial style at the document root: black fill, no stroke,
    /// opaque, one-unit stroke, visible.
    pub open spec fn spec_initial() -> EffStyle {
        EffStyle {
            fill: PaintRef::Color(Color { red: 0, green: 0, blue: 0 }),
            stroke: PaintRef::NoPaint,
            fill_opacity: 255,
            stroke_opacity: 255,
            fill_rule: FillRule::NonZero,
            stroke_width: 1,
            linecap: LineCap::Butt,
            linejoin: LineJoin::Miter,
            miterlimit: 4,
            font_size: 16,
            visible: true,
        }
    }

    pub fn initial() -> (r: EffStyle)
        ensures
            r == EffStyle::spec_initial(),
    {
        EffStyle {
            fill: PaintRef::Color(Color { red: 0, green: 0, blue: 0 }),
            stroke: PaintRef::NoPaint,
            fill_opacity: 255,
            stroke_opacity: 255,
            fill_rule: FillRule::NonZero,
            stroke_width: 1,
            linecap: LineCap::Butt,
            linejoin: LineJoin::Miter,
            miterlimit: 4,
            font_size: 16,
            visible: true,
        }
    }
}

/// The effective style of `e` under an ancestor's effective style: each
/// inherited property keeps the ancestor's value unless `e` sets it.
/// Percentage lengths resolve against the viewport `vp`.
pub open spec fn spec_resolve_style(parent: EffStyle, e: Element, vp: Rect) -> EffStyle {
    EffStyle {
        fill: match e.attrs.fill {
            Some(p) => p,
            None => parent.fill,
        },
        stroke: match e.attrs.stroke {
            Some(p) => p,
            None => parent.stroke,
        },
        fill_opacity: e.attrs.fill_opacity.spec_resolve(parent.fill_opacity),
        stroke_opacity: e.attrs.stroke_opacity.spec_resolve(parent.stroke_opacity),
        fill_rule: match e.attrs.fill_rule {
            Some(r) => r,
            None => parent.fill_rule,
        },
        stroke_width: spec_resolve_length(e.attrs.stroke_width, parent.stroke_width, vp.x1, vp.x2),
        linecap: match e.attrs.linecap {
            Some(c) => c,
            None => parent.linecap,
        },
        linejoin: match e.attrs.linejoin {
            Some(j) => j,
            None => parent.linejoin,
        },
        miterlimit: spec_resolve_length(e.attrs.miterlimit, parent.miterlimit, vp.x1, vp.x2),
        font_size: spec_resolve_length(e.attrs.font_size, parent.font_size, vp.y1, vp.y2),
        visible: match e.attrs.visibility {
            Some(v) => v,
            None => parent.visible,
        },
    }
}

pub fn resolve_style(parent: &EffStyle, e: &Element, vp: Rect) -> (r: EffStyle)
    requires
        vp.wf(),
    ensures
        r == spec_resolve_style(*parent, *e, vp),
{
    EffStyle {
        fill: match e.attrs.fill {
            Some(p) => p,
            None => parent.fill,
        },
        stroke: match e.attrs.stroke {
            Some(p) => p,
            None => parent.stroke,
        },
        fill_opacity: e.attrs.fill_opacity.resolve(parent.fill_opacity),
        stroke_opacity: e.attrs.stroke_opacity.resolve(parent.stroke_opacity),
        fill_rule: match e.attrs.fill_rule {
            Some(r) => r,
            None => parent.fill_rule,
        },
        stroke_width: resolve_length(e.attrs.stroke_width, parent.stroke_width, vp.x1, vp.x2),
        linecap: match e.attrs.linecap {
            Some(c) => c,
            None => parent.linecap,
        },
        linejoin: match e.attrs.linejoin {
            Some(j) => j,
            None => parent.linejoin,
        },
        miterlimit: resolve_length(e.attrs.miterlimit, parent.miterlimit, vp.x1, vp.x2),
        font_size: resolve_length(e.attrs.font_size, parent.font_size, vp.y1, vp.y2),
        visible: match e.attrs.visibility {
            Some(v) => v,
            None => parent.visible,
        },
    }
}

} // verus!
