//! The orbiting camera: eye, look target, up hint, and the derived
//! orthonormal-ish basis used to rotate view-space ray directions into
//! world space.

use vstd::prelude::*;
use crate::fixed::{in_range, fadd_s, fsub_s, fmul_s, fmax_s, fx_add, fx_sub, fx_mul, FP_ONE};
use crate::vec3::{
    Vec3, v_in_range, v_add_s, v_sub_s, v_scale_s, v_dot_s, v_cross_s, v_mag_s, v_norm_s,
};

verus! {

/// Closest the eye may come to the target when zooming, in fixed point.
pub const MIN_ZOOM_DIST: i64 = 102;

#[derive(Clone, Copy, Debug)]
pub struct Camera {
    pub eye: Vec3,
    pub center: Vec3,
    pub up: Vec3,
    pub forward: Vec3,
    pub right: Vec3,
    pub true_up: Vec3,
}

/// Viewing direction: from the eye toward the target.
pub open spec fn forward_s(eye: Vec3, center: Vec3) -> Vec3 {
    v_norm_s(v_sub_s(center, eye))
}

/// Screen-right direction: forward crossed with the up hint.
pub open spec fn right_s(eye: Vec3, center: Vec3, up: Vec3) -> Vec3 {
    v_norm_s(v_cross_s(forward_s(eye, center), up))
}

/// Re-derived orthogonal up, immune to a skewed up hint.
pub open spec fn true_up_s(eye: Vec3, center: Vec3, up: Vec3) -> Vec3 {
    v_cross_s(right_s(eye, center, up), forward_s(eye, center))
}

/// The basis fields are exactly the ones derived from eye, center and up.
pub open spec fn camera_wf(c: Camera) -> bool {
    &&& v_in_range(c.eye)
    &&& v_in_range(c.center)
    &&& v_in_range(c.up)
    &&& c.forward == forward_s(c.eye, c.center)
    &&& c.right == right_s(c.eye, c.center, c.up)
    &&& c.true_up == true_up_s(c.eye, c.center, c.up)
}

/// A view-space direction rotated into world space: its x along right,
/// y along the re-derived up, and its (negative-forward) z along forward.
pub open spec fn basis_change_s(c: Camera, v: Vec3) -> Vec3 {
    v_sub_s(
        v_add_s(v_scale_s(c.right, v.x), v_scale_s(c.true_up, v.y)),
        v_scale_s(c.forward, v.z),
    )
}

/// Rotation of `v` about the world y axis by an angle given as its sine
/// and cosine.
pub open spec fn rot_y_s(v: Vec3, s: i64, co: i64) -> Vec3 {
    Vec3 {
        x: fadd_s(fmul_s(v.x, co), fmul_s(v.z, s)),
        y: v.y,
        z: fsub_s(fmul_s(v.z, co), fmul_s(v.x, s)),
    }
}

/// Rotation of `v` about an arbitrary axis by an angle given as its sine
/// and cosine (Rodrigues' formula).
pub open spec fn rot_axis_s(v: Vec3, k: Vec3, s: i64, co: i64) -> Vec3 {
    v_add_s(
        v_add_s(v_scale_s(v, co), v_scale_s(v_cross_s(k, v), s)),
        v_scale_s(k, fmul_s(v_dot_s(k, v), fsub_s(FP_ONE, co))),
    )
}

/// Where the eye lands after an orbit step: the offset from the target is
/// rotated by yaw about the world y axis, then by pitch about the camera's
/// right axis.
pub open spec fn orbit_eye_s(c: Camera, ys: i64, yc: i64, ps: i64, pc: i64) -> Vec3 {
    let offset = v_sub_s(c.eye, c.center);
    let yawed = rot_y_s(offset, ys, yc);
    let pitched = rot_axis_s(yawed, c.right, ps, pc);
    v_add_s(c.center, pitched)
}

/// Where the eye lands after a zoom step: moved along the view axis,
/// never closer to the target than `MIN_ZOOM_DIST`.
pub open spec fn zoom_eye_s(c: Camera, delta: i64) -> Vec3 {
    let dist = v_mag_s(v_sub_s(c.center, c.eye));
    let new_dist = fmax_s(fsub_s(dist, delta), MIN_ZOOM_DIST);
    v_sub_s(c.center, v_scale_s(forward_s(c.eye, c.center), new_dist))
}

impl Camera {
    pub fn new(eye: Vec3, center: Vec3, up: Vec3) -> (c: Camera)
        requires
            v_in_range(eye),
            v_in_range(center),
            v_in_range(up),
        ensures
            c.eye == eye,
            c.center == center,
            c.up == up,
            camera_wf(c),
    {
        let forward = center.sub(&eye).normalize();
        let right = forward.cross(&up).normalize();
        let true_up = right.cross(&forward);
        Camera { eye, center, up, forward, right, true_up }
    }

    /// Rotate a view-space direction into world space.
    pub fn basis_change(&self, v: &Vec3) -> (r: Vec3)
        requires
            camera_wf(*self),
            v_in_range(*v),
        ensures
            r == basis_change_s(*self, *v),
            v_in_range(r),
    {
        proof {
            crate::vec3::lemma_norm_unit(v_sub_s(self.center, self.eye));
            crate::vec3::lemma_norm_unit(
                v_cross_s(forward_s(self.eye, self.center), self.up),
            );
        }
        self.right.scale(v.x).add(&self.true_up.scale(v.y)).sub(&self.forward.scale(v.z))
    }

    /// Orbit around the target: yaw and pitch angles arrive as fixed-point
    /// sine/cosine pairs.  The target stays put; the basis is re-derived.
    pub fn orbit(&mut self, yaw_sin: i64, yaw_cos: i64, pitch_sin: i64, pitch_cos: i64)
        requires
            camera_wf(*old(self)),
            in_range(yaw_sin),
            in_range(yaw_cos),
            in_range(pitch_sin),
            in_range(pitch_cos),
        ensures
            final(self).eye == orbit_eye_s(*old(self), yaw_sin, yaw_cos, pitch_sin, pitch_cos),
            final(self).center == old(self).center,
            final(self).up == old(self).up,
            camera_wf(*final(self)),
    {
        proof {
            crate::vec3::lemma_norm_unit(
                v_cross_s(forward_s(self.eye, self.center), self.up),
            );
        }
        let offset = self.eye.sub(&self.center);
        let yawed = Vec3 {
            x: fx_add(fx_mul(offset.x, yaw_cos), fx_mul(offset.z, yaw_sin)),
            y: offset.y,
            z: fx_sub(fx_mul(offset.z, yaw_cos), fx_mul(offset.x, yaw_sin)),
        };
        let k = self.right;
        let pitched = yawed
            .scale(pitch_cos)
            .add(&k.cross(&yawed).scale(pitch_sin))
            .add(&k.scale(fx_mul(k.dot(&yawed), fx_sub(FP_ONE, pitch_cos))));
        self.eye = self.center.add(&pitched);
        self.update_basis();
    }

    /// Translate eye and target together, preserving orientation of view.
    pub fn move_center(&mut self, movement: Vec3)
        requires
            camera_wf(*old(self)),
            v_in_range(movement),
        ensures
            final(self).eye == v_add_s(old(self).eye, movement),
            final(self).center == v_add_s(old(self).center, movement),
            final(self).up == old(self).up,
            camera_wf(*final(self)),
    {
        self.eye = self.eye.add(&movement);
        self.center = self.center.add(&movement);
        self.update_basis();
    }

    /// Move the eye along the view axis; a positive delta zooms in, and
    /// the eye never reaches the target.
    pub fn zoom(&mut self, delta: i64)
        requires
            camera_wf(*old(self)),
            in_range(delta),
        ensures
            final(self).eye == zoom_eye_s(*old(self), delta),
            final(self).center == old(self).center,
            final(self).up == old(self).up,
            camera_wf(*final(self)),
    {
        let back = self.center.sub(&self.eye);
        let dist = back.magnitude();
        let stepped = fx_sub(dist, delta);
        let new_dist = if stepped < MIN_ZOOM_DIST {
            MIN_ZOOM_DIST
        } else {
            stepped
        };
        let forward = self.center.sub(&self.eye).normalize();
        self.eye = self.center.sub(&forward.scale(new_dist));
        self.update_basis();
    }

    fn update_basis(&mut self)
        requires
            v_in_range(old(self).eye),
            v_in_range(old(self).center),
            v_in_range(old(self).up),
        ensures
            final(self).eye == old(self).eye,
            final(self).center == old(self).center,
            final(self).up == old(self).up,
            camera_wf(*final(self)),
    {
        self.forward = self.center.sub(&self.eye).normalize();
        self.right = self.forward.cross(&self.up).normalize();
        self.true_up = self.right.cross(&self.forward);
    }
}

} // verus!
