//! 2D pixel buffers sampled by nearest texel.
//!
//! A texture owns decoded pixels; how they were decoded is the caller's
//! business.  Sampling maps fixed-point surface coordinates in [0, 1] to a
//! texel by flooring, clamped so a lookup can never leave the buffer.

use vstd::prelude::*;
use crate::color::Color;
use crate::fixed::FP_ONE;

verus! {

pub struct Texture {
    pub width: usize,
    pub height: usize,
    pub pixels: Vec<Color>,
}

pub open spec fn tex_wf(t: Texture) -> bool {
    &&& 1 <= t.width <= 4096
    &&& 1 <= t.height <= 4096
    &&& t.pixels.len() == t.width * t.height
}

/// Nearest-texel lookup of fixed-point coordinates, clamped into the buffer.
pub open spec fn sample_s(t: Texture, u: i64, v: i64) -> Color {
    let uu = crate::fixed::fclamp_s(u, 0, FP_ONE);
    let vv = crate::fixed::fclamp_s(v, 0, FP_ONE);
    let tx = crate::fixed::fmin_s((uu * t.width as i64 / (FP_ONE as int)) as i64,
        (t.width - 1) as i64);
    let ty = crate::fixed::fmin_s((vv * t.height as i64 / (FP_ONE as int)) as i64,
        (t.height - 1) as i64);
    t.pixels@[ty * t.width as i64 + tx]
}

impl Texture {
    pub fn new(width: usize, height: usize, pixels: Vec<Color>) -> (t: Texture)
        requires
            1 <= width <= 4096,
            1 <= height <= 4096,
            pixels.len() == width * height,
        ensures
            t.width == width,
            t.height == height,
            t.pixels == pixels,
            tex_wf(t),
    {
        Texture { width, height, pixels }
    }

    pub fn get_color(&self, x: usize, y: usize) -> (c: Color)
        requires
            tex_wf(*self),
            x < self.width,
            y < self.height,
        ensures
            c == self.pixels@[y * self.width + x],
    {
        proof {
            assert(y * self.width + x < self.pixels.len()) by (nonlinear_arith)
                requires
                    x < self.width,
                    y < self.height,
                    self.pixels.len() == self.width * self.height,
            ;
        }
        self.pixels[y * self.width + x]
    }

    /// Sample at fixed-point (u, v); coordinates are clamped into [0, 1]
    /// and floored to the nearest texel.
    pub fn sample(&self, u: i64, v: i64) -> (c: Color)
        requires
            tex_wf(*self),
        ensures
            c == sample_s(*self, u, v),
    {
        let uu = crate::fixed::fx_clamp(u, 0, FP_ONE);
        let vv = crate::fixed::fx_clamp(v, 0, FP_ONE);
        proof {
            assert((uu as int) * (self.width as int) <= 1024 * 4096) by (nonlinear_arith)
                requires
                    0 <= uu <= 1024,
                    self.width <= 4096,
            ;
            assert((vv as int) * (self.height as int) <= 1024 * 4096) by (nonlinear_arith)
                requires
                    0 <= vv <= 1024,
                    self.height <= 4096,
            ;
        }
        let txw: u64 = (uu as u64) * (self.width as u64) / (FP_ONE as u64);
        let tyh: u64 = (vv as u64) * (self.height as u64) / (FP_ONE as u64);
        let tx: usize = if txw as usize > self.width - 1 {
            self.width - 1
        } else {
            txw as usize
        };
        let ty: usize = if tyh as usize > self.height - 1 {
            self.height - 1
        } else {
            tyh as usize
        };
        self.get_color(tx, ty)
    }
}

} // verus!
