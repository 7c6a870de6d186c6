//! Saturating coordinate arithmetic, translations, and bounding rectangles.
//!
//! All coordinates are user-space integers. Arithmetic on coordinates
//! saturates at the ends of the `i64` range instead of wrapping or failing,
//! so every geometric operation is total.

use vstd::prelude::*;

verus! {

/// The value of `v` clamped to the `i64` range.
pub open spec fn clamp64(v: int) -> i64 {
    if v > i64::MAX as int {
        i64::MAX
    } else if v < i64::MIN as int {
        i64::MIN
    } else {
        v as i64
    }
}

/// Saturating addition of two coordinates.
pub fn sat_add(a: i64, b: i64) -> (r: i64)
    ensures
        r == clamp64(a + b),
{
    match a.checked_add(b) {
        Some(v) => v,
        None => {
            if a >= 0 {
                i64::MAX
            } else {
                i64::MIN
            }
        },
    }
}

/// Saturating subtraction of two coordinates.
pub fn sat_sub(a: i64, b: i64) -> (r: i64)
    ensures
        r == clamp64(a - b),
{
    match a.checked_sub(b) {
        Some(v) => v,
        None => {
            if a >= 0 {
                i64::MAX
            } else {
                i64::MIN
            }
        },
    }
}

/// Saturating multiplication of two coordinates.
pub fn sat_mul(a: i64, b: i64) -> (r: i64)
    ensures
        r == clamp64(a * b),
{
    match a.checked_mul(b) {
        Some(v) => v,
        None => {
            proof {
                if a > 0 && b > 0 {
                    assert(a * b > 0) by (nonlinear_arith)
                        requires
                            a > 0 && b > 0,
                    ;
                } else if a < 0 && b < 0 {
                    assert(a * b > 0) by (nonlinear_arith)
                        requires
                            a < 0 && b < 0,
                    ;
                } else if a > 0 && b < 0 {
                    assert(a * b < 0) by (nonlinear_arith)
                        requires
                            a > 0 && b < 0,
                    ;
                } else if a < 0 && b > 0 {
                    assert(a * b < 0) by (nonlinear_arith)
                        requires
                            a < 0 && b > 0,
                    ;
                } else {
                    assert(a == 0 || b == 0);
                    assert(a * b == 0) by (nonlinear_arith)
                        requires
                            a == 0 || b == 0,
                    ;
                }
            }
            if (a > 0) == (b > 0) {
                i64::MAX
            } else {
                i64::MIN
            }
        },
    }
}

/// An absolute transform. The engine folds every transform it meets into
/// the coordinates it produces, so a translation is all a node ever carries.
#[derive(Clone, Copy, Debug, PartialEq, Eq, Structural)]
pub struct Transform {
    pub tx: i64,
    pub ty: i64,
}

impl Transform {
    /// The identity transform.
    pub fn identity() -> (r: Transform)
        ensures
            r == Transform::spec_identity(),
    {
        Transform { tx: 0, ty: 0 }
    }

    pub open spec fn spec_identity() -> Transform {
        Transform { tx: 0, ty: 0 }
    }

    pub open spec fn spec_compose(self, other: Transform) -> Transform {
        Transform { tx: clamp64(self.tx + other.tx), ty: clamp64(self.ty + other.ty) }
    }

    /// Pre-compose `other` under `self`: the result applies `other`
    /// first, then `self`.
    pub fn compose(self, other: Transform) -> (r: Transform)
        ensures
            r == self.spec_compose(other),
    {
        Transform { tx: sat_add(self.tx, other.tx), ty: sat_add(self.ty, other.ty) }
    }

    pub open spec fn spec_apply_x(self, x: i64) -> i64 {
        clamp64(x + self.tx)
    }

    pub open spec fn spec_apply_y(self, y: i64) -> i64 {
        clamp64(y + self.ty)
    }

    /// The x coordinate of a point carried through the transform.
    pub fn apply_x(self, x: i64) -> (r: i64)
        ensures
            r == self.spec_apply_x(x),
    {
        sat_add(x, self.tx)
    }

    /// The y coordinate of a point carried through the transform.
    pub fn apply_y(self, y: i64) -> (r: i64)
        ensures
            r == self.spec_apply_y(y),
    {
        sat_add(y, self.ty)
    }
}

/// A bounding rectangle, kept as its two corners so that unions need no
/// arithmetic. Well-formed when `x1 <= x2` and `y1 <= y2`.
#[derive(Clone, Copy, Debug, PartialEq, Eq, Structural)]
pub struct Rect {
    pub x1: i64,
    pub y1: i64,
    pub x2: i64,
    pub y2: i64,
}

impl Rect {
    pub open spec fn wf(self) -> bool {
        self.x1 <= self.x2 && self.y1 <= self.y2
    }

    pub open spec fn spec_union(self, other: Rect) -> Rect {
        Rect {
            x1: if other.x1 < self.x1 {
                other.x1
            } else {
                self.x1
            },
            y1: if other.y1 < self.y1 {
                other.y1
            } else {
                self.y1
            },
            x2: if other.x2 > self.x2 {
                other.x2
            } else {
                self.x2
            },
            y2: if other.y2 > self.y2 {
                other.y2
            } else {
                self.y2
            },
        }
    }

    /// The smallest rectangle that covers both arguments.
    pub fn union(self, other: Rect) -> (r: Rect)
        ensures
            r == self.spec_union(other),
            self.wf() && other.wf() ==> r.wf(),
    {
        Rect {
            x1: if other.x1 < self.x1 {
                other.x1
            } else {
                self.x1
            },
            y1: if other.y1 < self.y1 {
                other.y1
            } else {
                self.y1
            },
            x2: if other.x2 > self.x2 {
                other.x2
            } else {
                self.x2
            },
            y2: if other.y2 > self.y2 {
                other.y2
            } else {
                self.y2
            },
        }
    }

    pub open spec fn spec_grow(self, margin: i64) -> Rect {
        Rect {
            x1: clamp64(self.x1 - margin),
            y1: clamp64(self.y1 - margin),
            x2: clamp64(self.x2 + margin),
            y2: clamp64(self.y2 + margin),
        }
    }

    /// The rectangle enlarged by `margin` on every side; used to derive a
    /// stroke-inclusive box from a geometry box.
    pub fn grow(self, margin: i64) -> (r: Rect)
        ensures
            r == self.spec_grow(margin),
            self.wf() && margin >= 0 ==> r.wf(),
    {
        Rect {
            x1: sat_sub(self.x1, margin),
            y1: sat_sub(self.y1, margin),
            x2: sat_add(self.x2, margin),
            y2: sat_add(self.y2, margin),
        }
    }

    pub open spec fn spec_shift(self, t: Transform) -> Rect {
        Rect {
            x1: t.spec_apply_x(self.x1),
            y1: t.spec_apply_y(self.y1),
            x2: t.spec_apply_x(self.x2),
            y2: t.spec_apply_y(self.y2),
        }
    }

    /// The rectangle carried through a transform.
    pub fn shift(self, t: Transform) -> (r: Rect)
        ensures
            r == self.spec_shift(t),
            self.wf() ==> r.wf(),
    {
        Rect {
            x1: t.apply_x(self.x1),
            y1: t.apply_y(self.y1),
            x2: t.apply_x(self.x2),
            y2: t.apply_y(self.y2),
        }
    }
}

pub open spec fn spec_pct_between(p: u16, lo: i64, hi: i64) -> i64 {
    clamp64(lo + clamp64(p as int * clamp64(hi - lo) as int) as int / 100)
}

/// The point `p` percent of the way from `lo` to `hi`; this is how a
/// percentage length resolves against a coordinate range.
pub fn pct_between(p: u16, lo: i64, hi: i64) -> (r: i64)
    requires
        lo <= hi,
    ensures
        r == spec_pct_between(p, lo, hi),
{
    let span: i64 = sat_sub(hi, lo);
    let prod: i64 = sat_mul(p as i64, span);
    proof {
        assert(span >= 0);
        assert(p as int * span >= 0) by (nonlinear_arith)
            requires
                p >= 0 && span >= 0,
        ;
        assert(prod >= 0);
    }
    let q: u64 = (prod as u64) / 100u64;
    proof {
        assert(prod as u64 == prod as int);
        assert(q <= i64::MAX as u64);
    }
    let frac: i64 = q as i64;
    sat_add(lo, frac)
}

} // verus!
