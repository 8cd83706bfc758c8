//! The scene's single point light.

use vstd::prelude::*;
use crate::color::Color;
use crate::fixed::FP_LIMIT;
use crate::vec3::{Vec3, v_in_range};

verus! {

#[derive(Clone, Copy, Debug, PartialEq, Eq, Structural)]
pub struct Light {
    pub position: Vec3,
    pub color: Color,
    /// Fixed-point intensity, non-negative.
    pub intensity: i64,
}

pub open spec fn light_wf(l: Light) -> bool {
    &&& v_in_range(l.position)
    &&& 0 <= l.intensity <= FP_LIMIT
}

impl Light {
    pub fn new(position: Vec3, color: Color, intensity: i64) -> (l: Light)
        requires
            v_in_range(position),
            0 <= intensity <= FP_LIMIT,
        ensures
            l == (Light { position, color, intensity }),
            light_wf(l),
    {
        Light { position, color, intensity }
    }
}

} // verus!
