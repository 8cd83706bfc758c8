//! A sphere primitive placeholder; the diorama only needs boxes, and the
//! sphere's ray test is a stub that reports a hit unconditionally.

use vstd::prelude::*;
use crate::vec3::Vec3;

verus! {

#[derive(Clone, Copy, Debug)]
pub struct Sphere {
    pub center: Vec3,
    pub radius: i64,
}

impl Sphere {
    pub fn ray_intersect(&self, ray_origin: &Vec3, ray_direction: &Vec3) -> (r: bool)
        ensures
            r == true,
    {
        true
    }
}

} // verus!
