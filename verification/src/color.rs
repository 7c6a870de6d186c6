//! Colors and the packed RGBA form a raster backend consumes.

use vstd::prelude::*;

verus! {

/// An opaque sRGB color.
#[derive(Clone, Copy, Debug, PartialEq, Eq, Structural)]
pub struct Color {
    pub red: u8,
    pub green: u8,
    pub blue: u8,
}

impl Color {
    /// Black, the initial fill paint.
    pub fn black() -> (c: Color)
        ensures
            c == (Color { red: 0, green: 0, blue: 0 }),
    {
        Color { red: 0, green: 0, blue: 0 }
    }
}

pub open spec fn spec_pack_rgba(c: Color, alpha: u8) -> u32 {
    (c.red as int * 0x1000000 + c.green as int * 0x10000 + c.blue as int * 0x100
        + alpha as int) as u32
}

/// Pack a color and an alpha value into one RGBA word, red in the highest
/// byte, alpha in the lowest.
pub fn pack_rgba(c: Color, alpha: u8) -> (r: u32)
    ensures
        r == spec_pack_rgba(c, alpha),
{
    let rr: u32 = c.red as u32;
    let gg: u32 = c.green as u32;
    let bb: u32 = c.blue as u32;
    let aa: u32 = alpha as u32;
    let packed: u32 = (rr << 24u32) | (gg << 16u32) | (bb << 8u32) | aa;
    proof {
        assert(packed == rr * 0x1000000 + gg * 0x10000 + bb * 0x100 + aa) by (bit_vector)
            requires
                rr < 256 && gg < 256 && bb < 256 && aa < 256 && packed == (rr << 24u32) | (gg
                    << 16u32) | (bb << 8u32) | aa,
        ;
    }
    packed
}

pub open spec fn spec_mul_alpha(a: u8, b: u8) -> u8 {
    ((a as int * b as int) / 255) as u8
}

/// Multiply two alpha values, each a fraction of 255.
pub fn mul_alpha(a: u8, b: u8) -> (r: u8)
    ensures
        r == spec_mul_alpha(a, b),
        r <= a,
        r <= b,
{
    proof {
        assert(a as int * b as int <= 255 * 255 && a as int * b as int <= a as int * 255
            && a as int * b as int <= 255 * b as int) by (nonlinear_arith)
            requires
                a <= 255 && b <= 255,
        ;
    }
    let p: u32 = (a as u32) * (b as u32);
    let q: u32 = p / 255;
    q as u8
}

} // verus!
