//! The attributed document model the engine consumes: a parsed tree of
//! elements with typed attributes and ordered children, plus the
//! configuration and the fatal error kinds.
//!
//! The front end has already turned raw markup into this tree; an attribute
//! it could not parse arrives as `Invalid` and falls back to that
//! attribute's default, an attribute it did not see arrives as `Missing`.

use vstd::prelude::*;

use crate::color::Color;
use crate::geom::Rect;
use crate::geom::Transform;
use crate::geom::pct_between;
use crate::geom::spec_pct_between;
use crate::path::PathSegment;

verus! {

/// The recognized element kinds. Anything else arrives as `Unsupported`.
#[derive(Clone, Copy, Debug, PartialEq, Eq, Structural)]
pub enum ElemKind {
    Svg,
    Group,
    Defs,
    Rect,
    Line,
    Polyline,
    Polygon,
    PathElem,
    Text,
    Image,
    ClipPath,
    Pattern,
    LinearGradient,
    RadialGradient,
    Stop,
    Mask,
    Unsupported,
}

/// A numeric length attribute: absent, unparseable (falls back to the
/// attribute's default), an absolute user-space number, or a percentage.
#[derive(Clone, Copy, Debug, PartialEq, Eq, Structural)]
pub enum Length {
    Missing,
    Invalid,
    Abs(i64),
    Pct(u16),
}

/// An opacity-like attribute, stored as a fraction of 255.
#[derive(Clone, Copy, Debug, PartialEq, Eq, Structural)]
pub enum ByteAttr {
    Missing,
    Invalid,
    Val(u8),
}

impl ByteAttr {
    /// The attribute's value, with absent or unparseable falling back to
    /// the given default.
    pub open spec fn spec_resolve(self, default: u8) -> u8 {
        match self {
            ByteAttr::Val(v) => v,
            _ => default,
        }
    }

    pub fn resolve(self, default: u8) -> (r: u8)
        ensures
            r == self.spec_resolve(default),
    {
        match self {
            ByteAttr::Val(v) => v,
            _ => default,
        }
    }
}

/// A paint attribute before resolution: no paint, a color, or a reference
/// to a paint-server definition by id.
#[derive(Clone, Copy, Debug, PartialEq, Eq, Structural)]
pub enum PaintRef {
    NoPaint,
    Color(Color),
    Ref(u64),
}

#[derive(Clone, Copy, Debug, PartialEq, Eq, Structural)]
pub enum FillRule {
    NonZero,
    EvenOdd,
}

#[derive(Clone, Copy, Debug, PartialEq, Eq, Structural)]
pub enum LineCap {
    Butt,
    Round,
    Square,
}

#[derive(Clone, Copy, Debug, PartialEq, Eq, Structural)]
pub enum LineJoin {
    Miter,
    Round,
    Bevel,
}

/// The coordinate system a gradient or pattern declares.
#[derive(Clone, Copy, Debug, PartialEq, Eq, Structural)]
pub enum Units {
    UserSpace,
    ObjectBoundingBox,
}

/// The typed attributes of an element. Every field has a kind-specific
/// meaning and a default; unknown attributes were dropped by the front end.
#[derive(Debug, PartialEq, Clone)]
pub struct Attrs {
    pub x: Length,
    pub y: Length,
    pub width: Length,
    pub height: Length,
    pub x2: Length,
    pub y2: Length,
    pub cx: Length,
    pub cy: Length,
    pub r: Length,
    pub points: Vec<(i64, i64)>,
    pub d: Vec<PathSegment>,
    pub transform: Transform,
    pub fill: Option<PaintRef>,
    pub stroke: Option<PaintRef>,
    pub fill_opacity: ByteAttr,
    pub stroke_opacity: ByteAttr,
    pub opacity: ByteAttr,
    pub fill_rule: Option<FillRule>,
    pub stroke_width: Length,
    pub linecap: Option<LineCap>,
    pub linejoin: Option<LineJoin>,
    pub miterlimit: Length,
    pub dasharray: Vec<i64>,
    pub dashoffset: i64,
    pub font_size: Length,
    pub visibility: Option<bool>,
    pub clip_path: Option<u64>,
    pub mask: Option<u64>,
    pub filter: Option<u64>,
    pub units: Units,
    pub offset: u16,
    pub stop_color: Color,
    pub stop_opacity: ByteAttr,
    pub text: Vec<u8>,
    pub image_data: Vec<u8>,
}

/// One element of the attributed document tree.
#[derive(Debug, PartialEq)]
pub struct Element {
    pub kind: ElemKind,
    pub id: Option<u64>,
    pub attrs: Attrs,
    pub children: Vec<Element>,
}

/// An attributed document: a root element with its subtree.
#[derive(Debug, PartialEq)]
pub struct Document {
    pub root: Element,
}

/// The engine's configuration.
#[derive(Clone, Copy, Debug, PartialEq, Eq, Structural)]
pub struct Config {
    /// Keep id-bearing, effect-free groups instead of unwrapping them.
    pub keep_named_groups: bool,
    /// Geometry-estimation quality hint; its domain is 1 ..= 100. It does
    /// not change tree topology.
    pub quality: u64,
}

impl Config {
    pub open spec fn spec_valid(self) -> bool {
        1 <= self.quality <= 100
    }

    /// Whether every configuration value lies in its domain.
    pub fn valid(&self) -> (r: bool)
        ensures
            r == self.spec_valid(),
    {
        1 <= self.quality && self.quality <= 100
    }
}

/// The fatal error kinds; everything else degrades locally and never
/// aborts the transform.
#[derive(Clone, Copy, Debug, PartialEq, Eq, Structural)]
pub enum FatalError {
    /// The document structure is malformed (an id is not unique).
    MalformedDocument,
    /// The root element is not an `svg` root.
    UnsupportedRoot,
    /// A configuration value lies outside its domain.
    InvalidConfig,
}

/// The value of a length attribute against a coordinate range: absolute
/// numbers stand as they are, percentages resolve against the range,
/// absent and unparseable values fall back to the given default.
pub open spec fn spec_resolve_length(l: Length, default: i64, lo: i64, hi: i64) -> i64 {
    match l {
        Length::Abs(v) => v,
        Length::Pct(p) => spec_pct_between(p, lo, hi),
        _ => default,
    }
}

pub fn resolve_length(l: Length, default: i64, lo: i64, hi: i64) -> (r: i64)
    requires
        lo <= hi,
    ensures
        r == spec_resolve_length(l, default, lo, hi),
{
    match l {
        Length::Abs(v) => v,
        Length::Pct(p) => pct_between(p, lo, hi),
        _ => default,
    }
}

/// The viewport a document declares: its root's absolute width and height
/// attributes, 100 by 100 when they are absent, degenerate sizes clamped
/// away.
pub open spec fn spec_viewport(root: Element) -> Rect {
    let w = match root.attrs.width {
        Length::Abs(v) => if v > 0 {
            v
        } else {
            100
        },
        _ => 100,
    };
    let h = match root.attrs.height {
        Length::Abs(v) => if v > 0 {
            v
        } else {
            100
        },
        _ => 100,
    };
    Rect { x1: 0, y1: 0, x2: w, y2: h }
}

pub fn viewport(root: &Element) -> (r: Rect)
    ensures
        r == spec_viewport(*root),
        r.wf(),
{
    let w: i64 = match root.attrs.width {
        Length::Abs(v) => if v > 0 {
            v
        } else {
            100
        },
        _ => 100,
    };
    let h: i64 = match root.attrs.height {
        Length::Abs(v) => if v > 0 {
            v
        } else {
            100
        },
        _ => 100,
    };
    Rect { x1: 0, y1: 0, x2: w, y2: h }
}

} // verus!
