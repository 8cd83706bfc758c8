//! 3D vectors over fixed-point scalars.

use vstd::prelude::*;
use crate::fixed::{
    in_range, fadd_s, fsub_s, fneg_s, fmul_s, fdiv_s, sat, isqrt_s,
    fx_add, fx_sub, fx_neg, fx_mul, fx_div, fx_sat, isqrt_u64,
    FP_ONE,
};

verus! {

#[derive(Clone, Copy, Debug, PartialEq, Eq, Structural)]
pub struct Vec3 {
    pub x: i64,
    pub y: i64,
    pub z: i64,
}

/// All three components are representable fixed-point scalars.
pub open spec fn v_in_range(v: Vec3) -> bool {
    in_range(v.x) && in_range(v.y) && in_range(v.z)
}

pub open spec fn v_add_s(a: Vec3, b: Vec3) -> Vec3 {
    Vec3 { x: fadd_s(a.x, b.x), y: fadd_s(a.y, b.y), z: fadd_s(a.z, b.z) }
}

pub open spec fn v_sub_s(a: Vec3, b: Vec3) -> Vec3 {
    Vec3 { x: fsub_s(a.x, b.x), y: fsub_s(a.y, b.y), z: fsub_s(a.z, b.z) }
}

pub open spec fn v_neg_s(a: Vec3) -> Vec3 {
    Vec3 { x: fneg_s(a.x), y: fneg_s(a.y), z: fneg_s(a.z) }
}

/// Component-wise scaling by a fixed-point factor.
pub open spec fn v_scale_s(a: Vec3, k: i64) -> Vec3 {
    Vec3 { x: fmul_s(a.x, k), y: fmul_s(a.y, k), z: fmul_s(a.z, k) }
}

/// Dot product in fixed-point units: the raw product sum scaled back once.
pub open spec fn v_dot_s(a: Vec3, b: Vec3) -> i64 {
    sat(crate::fixed::sdiv(a.x * b.x + a.y * b.y + a.z * b.z, FP_ONE as int))
}

/// Cross product.
pub open spec fn v_cross_s(a: Vec3, b: Vec3) -> Vec3 {
    Vec3 {
        x: fsub_s(fmul_s(a.y, b.z), fmul_s(a.z, b.y)),
        y: fsub_s(fmul_s(a.z, b.x), fmul_s(a.x, b.z)),
        z: fsub_s(fmul_s(a.x, b.y), fmul_s(a.y, b.x)),
    }
}

/// Euclidean length: floor square root of the raw component product sum,
/// which is already in fixed-point units.
pub open spec fn v_mag_s(a: Vec3) -> i64 {
    sat(isqrt_s((a.x * a.x + a.y * a.y + a.z * a.z) as nat) as int)
}

/// Normalization; the zero vector stays the zero vector.
pub open spec fn v_norm_s(a: Vec3) -> Vec3 {
    let m = v_mag_s(a);
    if m == 0 {
        Vec3 { x: 0, y: 0, z: 0 }
    } else {
        Vec3 { x: fdiv_s(a.x, m), y: fdiv_s(a.y, m), z: fdiv_s(a.z, m) }
    }
}

impl Vec3 {
    pub fn new(x: i64, y: i64, z: i64) -> (r: Vec3)
        ensures
            r == (Vec3 { x, y, z }),
    {
        Vec3 { x, y, z }
    }

    pub fn zero() -> (r: Vec3)
        ensures
            r == (Vec3 { x: 0i64, y: 0i64, z: 0i64 }),
    {
        Vec3 { x: 0, y: 0, z: 0 }
    }

    pub fn add(&self, o: &Vec3) -> (r: Vec3)
        requires
            v_in_range(*self),
            v_in_range(*o),
        ensures
            r == v_add_s(*self, *o),
            v_in_range(r),
    {
        Vec3 { x: fx_add(self.x, o.x), y: fx_add(self.y, o.y), z: fx_add(self.z, o.z) }
    }

    pub fn sub(&self, o: &Vec3) -> (r: Vec3)
        requires
            v_in_range(*self),
            v_in_range(*o),
        ensures
            r == v_sub_s(*self, *o),
            v_in_range(r),
    {
        Vec3 { x: fx_sub(self.x, o.x), y: fx_sub(self.y, o.y), z: fx_sub(self.z, o.z) }
    }

    pub fn neg(&self) -> (r: Vec3)
        requires
            v_in_range(*self),
        ensures
            r == v_neg_s(*self),
            v_in_range(r),
    {
        Vec3 { x: fx_neg(self.x), y: fx_neg(self.y), z: fx_neg(self.z) }
    }

    pub fn scale(&self, k: i64) -> (r: Vec3)
        requires
            v_in_range(*self),
            in_range(k),
        ensures
            r == v_scale_s(*self, k),
            v_in_range(r),
    {
        Vec3 { x: fx_mul(self.x, k), y: fx_mul(self.y, k), z: fx_mul(self.z, k) }
    }

    pub fn dot(&self, o: &Vec3) -> (r: i64)
        requires
            v_in_range(*self),
            v_in_range(*o),
        ensures
            r == v_dot_s(*self, *o),
            in_range(r),
    {
        proof {
            lemma_prod_bound(self.x, o.x);
            lemma_prod_bound(self.y, o.y);
            lemma_prod_bound(self.z, o.z);
        }
        let px: i64 = self.x * o.x;
        let py: i64 = self.y * o.y;
        let pz: i64 = self.z * o.z;
        let s: i64 = px + py + pz;
        let q = crate::fixed::div_i64(s, FP_ONE);
        fx_sat(q)
    }

    pub fn cross(&self, o: &Vec3) -> (r: Vec3)
        requires
            v_in_range(*self),
            v_in_range(*o),
        ensures
            r == v_cross_s(*self, *o),
            v_in_range(r),
    {
        Vec3 {
            x: fx_sub(fx_mul(self.y, o.z), fx_mul(self.z, o.y)),
            y: fx_sub(fx_mul(self.z, o.x), fx_mul(self.x, o.z)),
            z: fx_sub(fx_mul(self.x, o.y), fx_mul(self.y, o.x)),
        }
    }

    pub fn magnitude(&self) -> (r: i64)
        requires
            v_in_range(*self),
        ensures
            r == v_mag_s(*self),
            in_range(r),
            r >= 0,
    {
        proof {
            lemma_prod_bound(self.x, self.x);
            lemma_prod_bound(self.y, self.y);
            lemma_prod_bound(self.z, self.z);
            lemma_square_nonneg(self.x);
            lemma_square_nonneg(self.y);
            lemma_square_nonneg(self.z);
        }
        let px: i64 = self.x * self.x;
        let py: i64 = self.y * self.y;
        let pz: i64 = self.z * self.z;
        let s: i64 = px + py + pz;
        let m = isqrt_u64(s as u64);
        proof {
            assert((m as int) * (m as int) <= s as int);
            assert(m <= 0x8000_0000) by (nonlinear_arith)
                requires
                    (m as int) * (m as int) <= s as int,
                    s <= 0x4000_0000_0000_0000,
            ;
        }
        fx_sat(m as i64)
    }

    pub fn normalize(&self) -> (r: Vec3)
        requires
            v_in_range(*self),
        ensures
            r == v_norm_s(*self),
            v_in_range(r),
    {
        let m = self.magnitude();
        if m == 0 {
            Vec3 { x: 0, y: 0, z: 0 }
        } else {
            Vec3 { x: fx_div(self.x, m), y: fx_div(self.y, m), z: fx_div(self.z, m) }
        }
    }
}

/// A vector's length is at least each component's magnitude, so the
/// components of a normalized vector lie in [-1, 1] fixed point.
pub proof fn lemma_norm_unit(v: Vec3)
    requires
        v_in_range(v),
    ensures
        crate::fixed::abs_i(v_norm_s(v).x as int) <= FP_ONE,
        crate::fixed::abs_i(v_norm_s(v).y as int) <= FP_ONE,
        crate::fixed::abs_i(v_norm_s(v).z as int) <= FP_ONE,
        v_in_range(v_norm_s(v)),
{
    let m = v_mag_s(v);
    if m != 0 {
        assert(v.x * v.x >= 0 && v.y * v.y >= 0 && v.z * v.z >= 0) by (nonlinear_arith);
        let n = (v.x * v.x + v.y * v.y + v.z * v.z) as nat;
        assert(n == v.x * v.x + v.y * v.y + v.z * v.z);
        let r = isqrt_s(n);
        crate::fixed::lemma_isqrt_bounds(n);
        lemma_component_le_mag(v.x, n, v.x * v.x + v.y * v.y + v.z * v.z, r);
        lemma_component_le_mag(v.y, n, v.x * v.x + v.y * v.y + v.z * v.z, r);
        lemma_component_le_mag(v.z, n, v.x * v.x + v.y * v.y + v.z * v.z, r);
        assert(m > 0);
        lemma_norm_component(v.x, m);
        lemma_norm_component(v.y, m);
        lemma_norm_component(v.z, m);
    }
}

/// One component of the normalization quotient is within one unit when
/// the component's magnitude is at most the divisor.
proof fn lemma_norm_component(x: i64, m: i64)
    requires
        m > 0,
        crate::fixed::abs_i(x as int) <= m,
    ensures
        crate::fixed::abs_i(fdiv_s(x, m) as int) <= FP_ONE,
{
    crate::fixed::lemma_fdiv_abs_bound(x, m, m as int);
    vstd::arithmetic::div_mod::lemma_div_multiples_vanish(FP_ONE as int, m as int);
}

/// If x * x is one addend of a sum of squares n, then |x| is at most the
/// floor square root of n (given its defining bounds).
proof fn lemma_component_le_mag(x: i64, n: nat, s: int, r: nat)
    requires
        in_range(x),
        s == n,
        x * x <= s,
        r * r <= n,
        n < (r + 1) * (r + 1),
    ensures
        crate::fixed::abs_i(x as int) <= r,
        crate::fixed::abs_i(x as int) <= crate::fixed::sat(r as int),
{
    let a = crate::fixed::abs_i(x as int);
    if x < 0 {
        assert(a == -(x as int));
        assert(a * a == x * x) by (nonlinear_arith)
            requires
                a == -(x as int),
        ;
    } else {
        assert(a == x as int);
    }
    if a > r {
        assert((r + 1) * (r + 1) <= a * a) by (nonlinear_arith)
            requires
                r + 1 <= a,
        ;
    }
}

proof fn lemma_prod_bound(a: i64, b: i64)
    requires
        in_range(a),
        in_range(b),
    ensures
        -0x1000_0000_0000_0000 <= (a as int) * (b as int) <= 0x1000_0000_0000_0000,
{
    assert(-0x1000_0000_0000_0000 <= (a as int) * (b as int) <= 0x1000_0000_0000_0000)
        by (nonlinear_arith)
        requires
            in_range(a),
            in_range(b),
    ;
}

proof fn lemma_square_nonneg(a: i64)
    ensures
        (a as int) * (a as int) >= 0,
{
    assert((a as int) * (a as int) >= 0) by (nonlinear_arith);
}

} // verus!
