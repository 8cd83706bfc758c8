//! Axis-aligned box primitives and ray intersection by the slab method.
//!
//! Each axis contributes an entry/exit interval (or rules the ray out, or
//! constrains nothing when the ray is parallel to the slab and the origin
//! lies between its planes).  The running intersection of the intervals
//! decides the hit; the axis that bound the interval decides the face
//! normal and the face's surface coordinates.

use vstd::prelude::*;
use crate::fixed::{
    in_range, fsub_s, fdiv_s, fx_sub, fx_div, FP_ONE, FP_NEG_ONE, FP_LIMIT, FP_NEG_LIMIT,
};
use crate::vec3::{Vec3, v_in_range, v_add_s, v_scale_s};
use crate::material::{Material, mat_wf};
use crate::color::Color;

verus! {

/// Result of one ray-primitive test.  `Intersect::empty()` is the
/// no-hit sentinel: the flag is down and the distance is the largest
/// representable scalar.
#[derive(Clone, Copy, Debug)]
pub struct Intersect {
    pub is_intersecting: bool,
    pub distance: i64,
    pub point: Vec3,
    pub normal: Vec3,
    pub u: i64,
    pub v: i64,
    pub material: Material,
}

pub open spec fn empty_intersect_s() -> Intersect {
    Intersect {
        is_intersecting: false,
        distance: FP_LIMIT,
        point: Vec3 { x: 0, y: 0, z: 0 },
        normal: Vec3 { x: 0, y: 0, z: 0 },
        u: 0,
        v: 0,
        material: Material {
            diffuse_color: Color { r: 0, g: 0, b: 0 },
            specular: 0,
            albedo: [0, 0, 0, 0],
            refractive_index: 0,
            texture: None,
            emissive_color: Color { r: 0, g: 0, b: 0 },
        },
    }
}

impl Intersect {
    pub fn empty() -> (r: Intersect)
        ensures
            r == empty_intersect_s(),
    {
        Intersect {
            is_intersecting: false,
            distance: FP_LIMIT,
            point: Vec3 { x: 0, y: 0, z: 0 },
            normal: Vec3 { x: 0, y: 0, z: 0 },
            u: 0,
            v: 0,
            material: Material {
                diffuse_color: Color { r: 0, g: 0, b: 0 },
                specular: 0,
                albedo: [0, 0, 0, 0],
                refractive_index: 0,
                texture: None,
                emissive_color: Color { r: 0, g: 0, b: 0 },
            },
        }
    }
}

#[derive(Clone, Copy, Debug)]
pub struct Cube {
    pub min: Vec3,
    pub max: Vec3,
    pub material: Material,
}

pub open spec fn cube_wf(c: Cube) -> bool {
    &&& v_in_range(c.min)
    &&& v_in_range(c.max)
    &&& c.min.x <= c.max.x
    &&& c.min.y <= c.max.y
    &&& c.min.z <= c.max.z
    &&& mat_wf(c.material)
}

/// What one axis says about the ray: a miss, no constraint, or an
/// entry/exit pair ordered along the ray (the flag records whether the
/// direction component is positive).
#[derive(Clone, Copy, Debug)]
pub enum AxisSlab {
    Miss,
    Open,
    Span(i64, i64, bool),
}

pub open spec fn axis_slab_s(o: i64, d: i64, mn: i64, mx: i64) -> AxisSlab {
    if d == 0 {
        if mn <= o && o <= mx {
            AxisSlab::Open
        } else {
            AxisSlab::Miss
        }
    } else {
        let t1 = fdiv_s(fsub_s(mn, o), d);
        let t2 = fdiv_s(fsub_s(mx, o), d);
        if d > 0 {
            AxisSlab::Span(t1, t2, true)
        } else {
            AxisSlab::Span(t2, t1, false)
        }
    }
}

/// Running interval state of the slab test.  `naxis`/`faxis` remember
/// which axis last tightened the near/far bound (3 when none has).
#[derive(Clone, Copy, Debug)]
pub struct SlabState {
    pub alive: bool,
    pub t_near: i64,
    pub t_far: i64,
    pub naxis: u8,
    pub npos: bool,
    pub faxis: u8,
    pub fpos: bool,
}

pub open spec fn slab_init_s() -> SlabState {
    SlabState {
        alive: true,
        t_near: FP_NEG_LIMIT,
        t_far: FP_LIMIT,
        naxis: 3,
        npos: false,
        faxis: 3,
        fpos: false,
    }
}

pub open spec fn slab_step_s(st: SlabState, o: i64, d: i64, mn: i64, mx: i64, axis: u8)
    -> SlabState {
    if !st.alive {
        st
    } else {
        match axis_slab_s(o, d, mn, mx) {
            AxisSlab::Miss => SlabState { alive: false, ..st },
            AxisSlab::Open => st,
            AxisSlab::Span(t1, t2, pos) => {
                let s1 = if t1 > st.t_near {
                    SlabState { t_near: t1, naxis: axis, npos: pos, ..st }
                } else {
                    st
                };
                let s2 = if t2 < s1.t_far {
                    SlabState { t_far: t2, faxis: axis, fpos: pos, ..s1 }
                } else {
                    s1
                };
                if s2.t_near > s2.t_far {
                    SlabState { alive: false, ..s2 }
                } else {
                    s2
                }
            },
        }
    }
}

/// Outward normal of the face selected by `axis`: the entered face when
/// the origin is outside, the exited face when it is inside.
pub open spec fn face_normal_s(axis: u8, pos: bool, inside: bool) -> Vec3 {
    let comp: i64 = if pos == inside {
        FP_ONE
    } else {
        FP_NEG_ONE
    };
    if axis == 0 {
        Vec3 { x: comp, y: 0, z: 0 }
    } else if axis == 1 {
        Vec3 { x: 0, y: comp, z: 0 }
    } else {
        Vec3 { x: 0, y: 0, z: comp }
    }
}

/// Position of `p` across the box's extent on one axis, in [0, 1] fixed
/// point; a degenerate extent maps to 0.
pub open spec fn uv_coord_s(p: i64, mn: i64, mx: i64) -> i64 {
    if mx <= mn {
        0
    } else {
        fdiv_s(fsub_s(p, mn), fsub_s(mx, mn))
    }
}

/// Surface coordinates of the hit point, projected onto the two axes of
/// the struck face.
pub open spec fn face_uv_s(c: Cube, p: Vec3, axis: u8) -> (i64, i64) {
    if axis == 0 {
        (uv_coord_s(p.z, c.min.z, c.max.z), uv_coord_s(p.y, c.min.y, c.max.y))
    } else if axis == 1 {
        (uv_coord_s(p.x, c.min.x, c.max.x), uv_coord_s(p.z, c.min.z, c.max.z))
    } else {
        (uv_coord_s(p.x, c.min.x, c.max.x), uv_coord_s(p.y, c.min.y, c.max.y))
    }
}

/// The whole slab test as a function: all three axes folded in order,
/// then the hit record, or the empty sentinel when the interval died,
/// lies behind the origin, or no axis constrained the ray.
pub open spec fn cube_intersect_s(c: Cube, o: Vec3, d: Vec3) -> Intersect {
    let s1 = slab_step_s(slab_init_s(), o.x, d.x, c.min.x, c.max.x, 0);
    let s2 = slab_step_s(s1, o.y, d.y, c.min.y, c.max.y, 1);
    let s3 = slab_step_s(s2, o.z, d.z, c.min.z, c.max.z, 2);
    if !s3.alive || s3.t_far < 0 {
        empty_intersect_s()
    } else {
        let inside = s3.t_near < 0;
        let t = if inside {
            s3.t_far
        } else {
            s3.t_near
        };
        let axis = if inside {
            s3.faxis
        } else {
            s3.naxis
        };
        let pos = if inside {
            s3.fpos
        } else {
            s3.npos
        };
        if axis > 2 {
            empty_intersect_s()
        } else {
            let point = v_add_s(o, v_scale_s(d, t));
            let normal = face_normal_s(axis, pos, inside);
            let uv = face_uv_s(c, point, axis);
            Intersect {
                is_intersecting: true,
                distance: t,
                point,
                normal,
                u: uv.0,
                v: uv.1,
                material: c.material,
            }
        }
    }
}

/// A ray fired straight down the x axis from outside a box, between the
/// box's y and z slabs (as one through the box center is), strikes the
/// near x face exactly: the hit distance is the face coordinate minus the
/// origin coordinate, and the normal is the face's outward normal.
pub proof fn lemma_axis_ray_hits_entry_face(c: Cube, o: Vec3)
    requires
        cube_wf(c),
        v_in_range(o),
        o.x < c.min.x,
        c.min.y <= o.y <= c.max.y,
        c.min.z <= o.z <= c.max.z,
        c.max.x - o.x <= FP_LIMIT,
    ensures
        cube_intersect_s(c, o, Vec3 { x: FP_ONE, y: 0, z: 0 }).is_intersecting,
        cube_intersect_s(c, o, Vec3 { x: FP_ONE, y: 0, z: 0 }).distance == c.min.x - o.x,
        cube_intersect_s(c, o, Vec3 { x: FP_ONE, y: 0, z: 0 }).normal == (Vec3 {
            x: FP_NEG_ONE,
            y: 0i64,
            z: 0i64,
        }),
{
    let d = Vec3 { x: FP_ONE, y: 0i64, z: 0i64 };
    let t1 = fsub_s(c.min.x, o.x);
    let t2 = fsub_s(c.max.x, o.x);
    assert(t1 == c.min.x - o.x);
    assert(t2 == c.max.x - o.x);
    crate::fixed::lemma_sdiv_mul_cancel(t1 as int, FP_ONE as int);
    crate::fixed::lemma_sdiv_mul_cancel(t2 as int, FP_ONE as int);
    assert(fdiv_s(t1, FP_ONE) == t1);
    assert(fdiv_s(t2, FP_ONE) == t2);
    assert(axis_slab_s(o.x, FP_ONE, c.min.x, c.max.x) == AxisSlab::Span(t1, t2, true));
    let s1 = slab_step_s(slab_init_s(), o.x, d.x, c.min.x, c.max.x, 0);
    assert(s1.alive);
    assert(s1.t_near == t1);
    assert(s1.naxis == 0);
    assert(s1.npos);
    let s2 = slab_step_s(s1, o.y, d.y, c.min.y, c.max.y, 1);
    assert(axis_slab_s(o.y, 0, c.min.y, c.max.y) == AxisSlab::Open);
    assert(s2 == s1);
    let s3 = slab_step_s(s2, o.z, d.z, c.min.z, c.max.z, 2);
    assert(axis_slab_s(o.z, 0, c.min.z, c.max.z) == AxisSlab::Open);
    assert(s3 == s1);
    assert(s3.t_far >= 0);
    assert(s3.t_near >= 1);
    assert(face_normal_s(0, true, false) == (Vec3 { x: FP_NEG_ONE, y: 0i64, z: 0i64 }));
}

/// The same exact face hit for a ray fired straight down the y axis.
pub proof fn lemma_axis_ray_hits_entry_face_y(c: Cube, o: Vec3)
    requires
        cube_wf(c),
        v_in_range(o),
        o.y < c.min.y,
        c.min.x <= o.x <= c.max.x,
        c.min.z <= o.z <= c.max.z,
        c.max.y - o.y <= FP_LIMIT,
    ensures
        cube_intersect_s(c, o, Vec3 { x: 0i64, y: FP_ONE, z: 0i64 }).is_intersecting,
        cube_intersect_s(c, o, Vec3 { x: 0i64, y: FP_ONE, z: 0i64 }).distance == c.min.y - o.y,
        cube_intersect_s(c, o, Vec3 { x: 0i64, y: FP_ONE, z: 0i64 }).normal == (Vec3 {
            x: 0i64,
            y: FP_NEG_ONE,
            z: 0i64,
        }),
{
    let d = Vec3 { x: 0i64, y: FP_ONE, z: 0i64 };
    let t1 = fsub_s(c.min.y, o.y);
    let t2 = fsub_s(c.max.y, o.y);
    crate::fixed::lemma_sdiv_mul_cancel(t1 as int, FP_ONE as int);
    crate::fixed::lemma_sdiv_mul_cancel(t2 as int, FP_ONE as int);
    assert(fdiv_s(t1, FP_ONE) == t1);
    assert(fdiv_s(t2, FP_ONE) == t2);
    assert(axis_slab_s(o.y, FP_ONE, c.min.y, c.max.y) == AxisSlab::Span(t1, t2, true));
    let s1 = slab_step_s(slab_init_s(), o.x, d.x, c.min.x, c.max.x, 0);
    assert(s1 == slab_init_s());
    let s2 = slab_step_s(s1, o.y, d.y, c.min.y, c.max.y, 1);
    assert(s2.alive && s2.t_near == t1 && s2.naxis == 1 && s2.npos);
    let s3 = slab_step_s(s2, o.z, d.z, c.min.z, c.max.z, 2);
    assert(s3 == s2);
    assert(s3.t_near >= 1 && s3.t_far >= 0);
    assert(face_normal_s(1, true, false) == (Vec3 { x: 0i64, y: FP_NEG_ONE, z: 0i64 }));
}

/// The same exact face hit for a ray fired straight down the z axis.
pub proof fn lemma_axis_ray_hits_entry_face_z(c: Cube, o: Vec3)
    requires
        cube_wf(c),
        v_in_range(o),
        o.z < c.min.z,
        c.min.x <= o.x <= c.max.x,
        c.min.y <= o.y <= c.max.y,
        c.max.z - o.z <= FP_LIMIT,
    ensures
        cube_intersect_s(c, o, Vec3 { x: 0i64, y: 0i64, z: FP_ONE }).is_intersecting,
        cube_intersect_s(c, o, Vec3 { x: 0i64, y: 0i64, z: FP_ONE }).distance == c.min.z - o.z,
        cube_intersect_s(c, o, Vec3 { x: 0i64, y: 0i64, z: FP_ONE }).normal == (Vec3 {
            x: 0i64,
            y: 0i64,
            z: FP_NEG_ONE,
        }),
{
    let d = Vec3 { x: 0i64, y: 0i64, z: FP_ONE };
    let t1 = fsub_s(c.min.z, o.z);
    let t2 = fsub_s(c.max.z, o.z);
    crate::fixed::lemma_sdiv_mul_cancel(t1 as int, FP_ONE as int);
    crate::fixed::lemma_sdiv_mul_cancel(t2 as int, FP_ONE as int);
    assert(fdiv_s(t1, FP_ONE) == t1);
    assert(fdiv_s(t2, FP_ONE) == t2);
    assert(axis_slab_s(o.z, FP_ONE, c.min.z, c.max.z) == AxisSlab::Span(t1, t2, true));
    let s1 = slab_step_s(slab_init_s(), o.x, d.x, c.min.x, c.max.x, 0);
    assert(s1 == slab_init_s());
    let s2 = slab_step_s(s1, o.y, d.y, c.min.y, c.max.y, 1);
    assert(s2 == s1);
    let s3 = slab_step_s(s2, o.z, d.z, c.min.z, c.max.z, 2);
    assert(s3.alive && s3.t_near == t1 && s3.naxis == 2 && s3.npos);
    assert(s3.t_near >= 1 && s3.t_far >= 0);
    assert(face_normal_s(2, true, false) == (Vec3 { x: 0i64, y: 0i64, z: FP_NEG_ONE }));
}

fn axis_slab(o: i64, d: i64, mn: i64, mx: i64) -> (r: AxisSlab)
    requires
        in_range(o),
        in_range(d),
        in_range(mn),
        in_range(mx),
    ensures
        r == axis_slab_s(o, d, mn, mx),
        match r {
            AxisSlab::Span(t1, t2, _) => in_range(t1) && in_range(t2),
            _ => true,
        },
{
    if d == 0 {
        if mn <= o && o <= mx {
            AxisSlab::Open
        } else {
            AxisSlab::Miss
        }
    } else {
        let t1 = fx_div(fx_sub(mn, o), d);
        let t2 = fx_div(fx_sub(mx, o), d);
        if d > 0 {
            AxisSlab::Span(t1, t2, true)
        } else {
            AxisSlab::Span(t2, t1, false)
        }
    }
}

pub open spec fn st_in_range(st: SlabState) -> bool {
    in_range(st.t_near) && in_range(st.t_far)
}

fn slab_step(st: SlabState, o: i64, d: i64, mn: i64, mx: i64, axis: u8) -> (r: SlabState)
    requires
        st_in_range(st),
        in_range(o),
        in_range(d),
        in_range(mn),
        in_range(mx),
    ensures
        r == slab_step_s(st, o, d, mn, mx, axis),
        st_in_range(r),
{
    if !st.alive {
        st
    } else {
        match axis_slab(o, d, mn, mx) {
            AxisSlab::Miss => SlabState { alive: false, ..st },
            AxisSlab::Open => st,
            AxisSlab::Span(t1, t2, pos) => {
                let s1 = if t1 > st.t_near {
                    SlabState { t_near: t1, naxis: axis, npos: pos, ..st }
                } else {
                    st
                };
                let s2 = if t2 < s1.t_far {
                    SlabState { t_far: t2, faxis: axis, fpos: pos, ..s1 }
                } else {
                    s1
                };
                if s2.t_near > s2.t_far {
                    SlabState { alive: false, ..s2 }
                } else {
                    s2
                }
            },
        }
    }
}

fn face_normal(axis: u8, pos: bool, inside: bool) -> (r: Vec3)
    ensures
        r == face_normal_s(axis, pos, inside),
        v_in_range(r),
{
    let comp: i64 = if pos == inside {
        FP_ONE
    } else {
        FP_NEG_ONE
    };
    if axis == 0 {
        Vec3 { x: comp, y: 0, z: 0 }
    } else if axis == 1 {
        Vec3 { x: 0, y: comp, z: 0 }
    } else {
        Vec3 { x: 0, y: 0, z: comp }
    }
}

fn uv_coord(p: i64, mn: i64, mx: i64) -> (r: i64)
    requires
        in_range(p),
        in_range(mn),
        in_range(mx),
    ensures
        r == uv_coord_s(p, mn, mx),
        in_range(r),
{
    if mx <= mn {
        0
    } else {
        let ext = fx_sub(mx, mn);
        fx_div(fx_sub(p, mn), ext)
    }
}

impl Cube {
    /// Slab-method ray test.  The result equals `cube_intersect_s`, the
    /// specification-level rendition of the same fold.
    pub fn ray_intersect(&self, ray_origin: &Vec3, ray_direction: &Vec3) -> (r: Intersect)
        requires
            cube_wf(*self),
            v_in_range(*ray_origin),
            v_in_range(*ray_direction),
        ensures
            r == cube_intersect_s(*self, *ray_origin, *ray_direction),
            in_range(r.distance),
            in_range(r.u),
            in_range(r.v),
            v_in_range(r.point),
            v_in_range(r.normal),
            r.is_intersecting ==> r.distance >= 0 && r.material == self.material,
            !r.is_intersecting ==> r == empty_intersect_s(),
    {
        let o = *ray_origin;
        let d = *ray_direction;
        let s0 = SlabState {
            alive: true,
            t_near: FP_NEG_LIMIT,
            t_far: FP_LIMIT,
            naxis: 3,
            npos: false,
            faxis: 3,
            fpos: false,
        };
        let s1 = slab_step(s0, o.x, d.x, self.min.x, self.max.x, 0);
        let s2 = slab_step(s1, o.y, d.y, self.min.y, self.max.y, 1);
        let s3 = slab_step(s2, o.z, d.z, self.min.z, self.max.z, 2);
        if !s3.alive || s3.t_far < 0 {
            Intersect::empty()
        } else {
            let inside = s3.t_near < 0;
            let t = if inside {
                s3.t_far
            } else {
                s3.t_near
            };
            let axis = if inside {
                s3.faxis
            } else {
                s3.naxis
            };
            let pos = if inside {
                s3.fpos
            } else {
                s3.npos
            };
            if axis > 2 {
                Intersect::empty()
            } else {
                let point = o.add(&d.scale(t));
                let normal = face_normal(axis, pos, inside);
                let (u, v) = if axis == 0 {
                    (
                        uv_coord(point.z, self.min.z, self.max.z),
                        uv_coord(point.y, self.min.y, self.max.y),
                    )
                } else if axis == 1 {
                    (
                        uv_coord(point.x, self.min.x, self.max.x),
                        uv_coord(point.z, self.min.z, self.max.z),
                    )
                } else {
                    (
                        uv_coord(point.x, self.min.x, self.max.x),
                        uv_coord(point.y, self.min.y, self.max.y),
                    )
                };
                Intersect {
                    is_intersecting: true,
                    distance: t,
                    point,
                    normal,
                    u,
                    v,
                    material: self.material,
                }
            }
        }
    }
}

} // verus!
