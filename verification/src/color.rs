//! RGB colors with saturating channel arithmetic and 0xRRGGBB packing.

use vstd::prelude::*;
use crate::fixed::FP_ONE;

verus! {

#[derive(Clone, Copy, Debug, PartialEq, Eq, Structural)]
pub struct Color {
    pub r: u8,
    pub g: u8,
    pub b: u8,
}

/// One channel of a saturating channel sum.
pub open spec fn chan_add_s(a: u8, b: u8) -> u8 {
    if a + b > 255 {
        255u8
    } else {
        (a + b) as u8
    }
}

/// Component-wise saturating addition.
pub open spec fn c_add_s(a: Color, b: Color) -> Color {
    Color { r: chan_add_s(a.r, b.r), g: chan_add_s(a.g, b.g), b: chan_add_s(a.b, b.b) }
}

/// One channel scaled by a non-negative fixed-point factor, saturating at 255.
/// A negative factor darkens to zero.
pub open spec fn chan_scale_s(a: u8, k: i64) -> u8 {
    if k <= 0 {
        0u8
    } else if a * k / (FP_ONE as int) > 255 {
        255u8
    } else {
        (a * k / (FP_ONE as int)) as u8
    }
}

/// Component-wise scaling by a fixed-point factor.
pub open spec fn c_scale_s(a: Color, k: i64) -> Color {
    Color { r: chan_scale_s(a.r, k), g: chan_scale_s(a.g, k), b: chan_scale_s(a.b, k) }
}

/// Deterministic 0xRRGGBB packing.
pub open spec fn c_hex_s(a: Color) -> int {
    (a.r as u32) * 65536 + (a.g as u32) * 256 + (a.b as u32)
}

impl Color {
    pub fn new(r: u8, g: u8, b: u8) -> (c: Color)
        ensures
            c == (Color { r, g, b }),
    {
        Color { r, g, b }
    }

    pub fn black() -> (c: Color)
        ensures
            c == (Color { r: 0u8, g: 0u8, b: 0u8 }),
    {
        Color { r: 0, g: 0, b: 0 }
    }

    /// Saturating component-wise sum.
    pub fn add(&self, o: &Color) -> (c: Color)
        ensures
            c == c_add_s(*self, *o),
    {
        Color {
            r: chan_add(self.r, o.r),
            g: chan_add(self.g, o.g),
            b: chan_add(self.b, o.b),
        }
    }

    /// Scale every channel by the fixed-point factor `k`, saturating at 255.
    pub fn scale(&self, k: i64) -> (c: Color)
        requires
            k <= crate::fixed::FP_LIMIT,
        ensures
            c == c_scale_s(*self, k),
    {
        Color {
            r: chan_scale(self.r, k),
            g: chan_scale(self.g, k),
            b: chan_scale(self.b, k),
        }
    }

    /// Pack into a 32-bit 0xRRGGBB pixel.
    pub fn to_hex(&self) -> (h: u32)
        ensures
            h == c_hex_s(*self),
    {
        (self.r as u32) * 65536 + (self.g as u32) * 256 + (self.b as u32)
    }
}

fn chan_add(a: u8, b: u8) -> (r: u8)
    ensures
        r == chan_add_s(a, b),
{
    let s: u16 = a as u16 + b as u16;
    if s > 255 {
        255
    } else {
        s as u8
    }
}

fn chan_scale(a: u8, k: i64) -> (r: u8)
    requires
        k <= crate::fixed::FP_LIMIT,
    ensures
        r == chan_scale_s(a, k),
{
    if k <= 0 {
        0
    } else {
        proof {
            assert((a as int) * (k as int) <= 255 * 0x4000_0000) by (nonlinear_arith)
                requires
                    a <= 255,
                    0 < k <= 0x4000_0000,
            ;
        }
        let p: u64 = (a as u64) * (k as u64);
        let q: u64 = p / (FP_ONE as u64);
        if q > 255 {
            255
        } else {
            q as u8
        }
    }
}

} // verus!
