//! Fixed-point scalar arithmetic.
//!
//! Every scalar quantity of the renderer (coordinates, directions, light
//! intensity, material weights) is an `i64` holding a real number scaled by
//! `FP_ONE`, so `FP_ONE` itself stands for 1.0.  All operations saturate at
//! `FP_LIMIT` in magnitude, which keeps every intermediate product inside
//! `i64` and makes each operation a total, deterministic function of its
//! arguments.

use vstd::prelude::*;

verus! {

/// The fixed-point representation of 1.0.
pub const FP_ONE: i64 = 1024;

/// The fixed-point representation of -1.0.
pub const FP_NEG_ONE: i64 = -1024;

/// Largest magnitude a fixed-point scalar may take; results saturate here.
pub const FP_LIMIT: i64 = 1073741824;

/// Smallest (most negative) fixed-point scalar.
pub const FP_NEG_LIMIT: i64 = -1073741824;

/// A scalar is in range when its magnitude is at most `FP_LIMIT`.
pub open spec fn in_range(a: i64) -> bool {
    FP_NEG_LIMIT <= a && a <= FP_LIMIT
}

/// Mathematical absolute value.
pub open spec fn abs_i(a: int) -> int {
    if a < 0 {
        -a
    } else {
        a
    }
}

/// Division truncating toward zero, as the renderer's scalar division rounds.
pub open spec fn sdiv(a: int, b: int) -> int {
    if (a < 0) == (b < 0) {
        abs_i(a) / abs_i(b)
    } else {
        -(abs_i(a) / abs_i(b))
    }
}

/// Saturate an unbounded integer into the representable scalar range.
pub open spec fn sat(a: int) -> i64 {
    if a < FP_NEG_LIMIT {
        FP_NEG_LIMIT
    } else if a > FP_LIMIT {
        FP_LIMIT
    } else {
        a as i64
    }
}

pub open spec fn fadd_s(a: i64, b: i64) -> i64 {
    sat(a + b)
}

pub open spec fn fsub_s(a: i64, b: i64) -> i64 {
    sat(a - b)
}

pub open spec fn fneg_s(a: i64) -> i64 {
    sat(-a)
}

pub open spec fn fmul_s(a: i64, b: i64) -> i64 {
    sat(sdiv(a * b, FP_ONE as int))
}

pub open spec fn fdiv_s(a: i64, b: i64) -> i64 {
    sat(sdiv(a * FP_ONE, b as int))
}

pub open spec fn fmin_s(a: i64, b: i64) -> i64 {
    if a < b {
        a
    } else {
        b
    }
}

pub open spec fn fmax_s(a: i64, b: i64) -> i64 {
    if a < b {
        b
    } else {
        a
    }
}

/// Clamp a scalar into `[lo, hi]`.
pub open spec fn fclamp_s(a: i64, lo: i64, hi: i64) -> i64 {
    if a < lo {
        lo
    } else if a > hi {
        hi
    } else {
        a
    }
}

pub fn fx_sat(a: i64) -> (r: i64)
    ensures
        r == sat(a as int),
        in_range(r),
{
    if a < FP_NEG_LIMIT {
        FP_NEG_LIMIT
    } else if a > FP_LIMIT {
        FP_LIMIT
    } else {
        a
    }
}

pub fn fx_add(a: i64, b: i64) -> (r: i64)
    requires
        in_range(a),
        in_range(b),
    ensures
        r == fadd_s(a, b),
        in_range(r),
{
    fx_sat(a + b)
}

pub fn fx_sub(a: i64, b: i64) -> (r: i64)
    requires
        in_range(a),
        in_range(b),
    ensures
        r == fsub_s(a, b),
        in_range(r),
{
    fx_sat(a - b)
}

pub fn fx_neg(a: i64) -> (r: i64)
    requires
        in_range(a),
    ensures
        r == fneg_s(a),
        in_range(r),
{
    fx_sat(-a)
}

pub fn fx_min(a: i64, b: i64) -> (r: i64)
    ensures
        r == fmin_s(a, b),
{
    if a < b {
        a
    } else {
        b
    }
}

pub fn fx_max(a: i64, b: i64) -> (r: i64)
    ensures
        r == fmax_s(a, b),
{
    if a < b {
        b
    } else {
        a
    }
}

pub fn fx_clamp(a: i64, lo: i64, hi: i64) -> (r: i64)
    ensures
        r == fclamp_s(a, lo, hi),
{
    if a < lo {
        lo
    } else if a > hi {
        hi
    } else {
        a
    }
}

/// Truncating signed division on plain machine integers.
pub fn div_i64(a: i64, b: i64) -> (r: i64)
    requires
        b != 0,
        i64::MIN < a,
        i64::MIN < b,
    ensures
        r == sdiv(a as int, b as int),
{
    let ua: u64 = if a < 0 {
        (-a) as u64
    } else {
        a as u64
    };
    let ub: u64 = if b < 0 {
        (-b) as u64
    } else {
        b as u64
    };
    proof {
        assert(ua == abs_i(a as int));
        assert(ub == abs_i(b as int));
        assert(ua / ub <= ua) by (nonlinear_arith)
            requires
                ub >= 1,
        ;
    }
    let q: u64 = ua / ub;
    if (a < 0) != (b < 0) {
        -(q as i64)
    } else {
        q as i64
    }
}

pub fn fx_mul(a: i64, b: i64) -> (r: i64)
    requires
        in_range(a),
        in_range(b),
    ensures
        r == fmul_s(a, b),
        in_range(r),
{
    proof {
        assert(-0x1000_0000_0000_0000 <= (a as int) * (b as int) <= 0x1000_0000_0000_0000)
            by (nonlinear_arith)
            requires
                in_range(a),
                in_range(b),
        ;
    }
    let p: i64 = a * b;
    let q = div_i64(p, FP_ONE);
    fx_sat(q)
}

pub fn fx_div(a: i64, b: i64) -> (r: i64)
    requires
        in_range(a),
        in_range(b),
        b != 0,
    ensures
        r == fdiv_s(a, b),
        in_range(r),
{
    let p: i64 = a * FP_ONE;
    let q = div_i64(p, b);
    fx_sat(q)
}

/// Dividing a multiple of a positive number by it recovers the factor,
/// also under this module's truncating division.
pub proof fn lemma_sdiv_mul_cancel(a: int, d: int)
    requires
        d > 0,
    ensures
        sdiv(a * d, d) == a,
{
    if a >= 0 {
        assert(a * d >= 0) by (nonlinear_arith)
            requires
                a >= 0,
                d > 0,
        ;
        vstd::arithmetic::div_mod::lemma_div_multiples_vanish(a, d);
        assert(d * a == a * d) by (nonlinear_arith);
    } else {
        assert(a * d < 0) by (nonlinear_arith)
            requires
                a < 0,
                d > 0,
        ;
        assert(-(a * d) == (-a) * d) by (nonlinear_arith);
        vstd::arithmetic::div_mod::lemma_div_multiples_vanish(-a, d);
        assert(d * (-a) == (-a) * d) by (nonlinear_arith);
    }
}

/// The magnitude of a truncating quotient is bounded by the quotient of
/// magnitude bounds.
pub proof fn lemma_sdiv_abs_bound(a: int, b: int, ba: int)
    requires
        b != 0,
        abs_i(a) <= ba,
    ensures
        abs_i(sdiv(a, b)) <= ba / abs_i(b),
{
    vstd::arithmetic::div_mod::lemma_div_is_ordered(abs_i(a), ba, abs_i(b));
    vstd::arithmetic::div_mod::lemma_div_pos_is_pos(abs_i(a), abs_i(b));
}

/// Saturation never grows a magnitude.
pub proof fn lemma_sat_abs(a: int)
    ensures
        abs_i(sat(a) as int) <= abs_i(a),
{
}

/// Magnitude bound for fixed-point products: |a| <= ba and |b| <= bb give
/// |a * b / FP_ONE| <= ba * bb / FP_ONE.
pub proof fn lemma_fmul_abs_bound(a: i64, b: i64, ba: int, bb: int)
    requires
        abs_i(a as int) <= ba,
        abs_i(b as int) <= bb,
    ensures
        abs_i(fmul_s(a, b) as int) <= (ba * bb) / (FP_ONE as int),
{
    assert(abs_i((a as int) * (b as int)) <= ba * bb) by (nonlinear_arith)
        requires
            abs_i(a as int) <= ba,
            abs_i(b as int) <= bb,
    ;
    lemma_sdiv_abs_bound((a as int) * (b as int), FP_ONE as int, ba * bb);
    lemma_sat_abs(sdiv((a as int) * (b as int), FP_ONE as int));
}

/// Magnitude bound for fixed-point quotients: |a| <= ba and b != 0 give
/// |a / b| <= ba * FP_ONE / |b|.
pub proof fn lemma_fdiv_abs_bound(a: i64, b: i64, ba: int)
    requires
        b != 0,
        abs_i(a as int) <= ba,
        0 <= ba,
    ensures
        abs_i(fdiv_s(a, b) as int) <= (ba * FP_ONE) / abs_i(b as int),
{
    assert(abs_i((a as int) * (FP_ONE as int)) <= ba * FP_ONE) by (nonlinear_arith)
        requires
            abs_i(a as int) <= ba,
    ;
    lemma_sdiv_abs_bound((a as int) * (FP_ONE as int), b as int, ba * FP_ONE);
    lemma_sat_abs(sdiv((a as int) * (FP_ONE as int), b as int));
}

/// A quotient whose numerator magnitude is at most the denominator's
/// stays within one fixed-point unit.
pub proof fn lemma_fdiv_le_one(a: i64, b: i64)
    requires
        b != 0,
        abs_i(a as int) <= abs_i(b as int),
    ensures
        abs_i(fdiv_s(a, b) as int) <= FP_ONE,
{
    lemma_fdiv_abs_bound(a, b, abs_i(a as int));
    let ab = abs_i(b as int);
    assert(abs_i(a as int) * (FP_ONE as int) <= ab * (FP_ONE as int)) by (nonlinear_arith)
        requires
            abs_i(a as int) <= ab,
    ;
    vstd::arithmetic::div_mod::lemma_div_is_ordered(
        abs_i(a as int) * (FP_ONE as int),
        ab * (FP_ONE as int),
        ab,
    );
    vstd::arithmetic::div_mod::lemma_div_multiples_vanish(FP_ONE as int, ab);
}

/// Products of factors in [0, 1] stay in [0, 1] and below either factor.
pub proof fn lemma_fmul_unit(a: i64, b: i64)
    requires
        0 <= a <= FP_ONE,
        0 <= b <= FP_ONE,
    ensures
        0 <= fmul_s(a, b),
        fmul_s(a, b) <= a,
        fmul_s(a, b) <= b,
{
    assert((a as int) * (b as int) >= 0) by (nonlinear_arith)
        requires
            a >= 0,
            b >= 0,
    ;
    assert((a as int) * (b as int) <= (a as int) * (FP_ONE as int)) by (nonlinear_arith)
        requires
            0 <= a,
            b <= FP_ONE,
    ;
    assert((a as int) * (b as int) <= (b as int) * (FP_ONE as int)) by (nonlinear_arith)
        requires
            0 <= b,
            a <= FP_ONE,
    ;
    let p = (a as int) * (b as int);
    vstd::arithmetic::div_mod::lemma_div_is_ordered(p, (a as int) * (FP_ONE as int), FP_ONE as int);
    vstd::arithmetic::div_mod::lemma_div_is_ordered(p, (b as int) * (FP_ONE as int), FP_ONE as int);
    vstd::arithmetic::div_mod::lemma_div_by_multiple(a as int, FP_ONE as int);
    vstd::arithmetic::div_mod::lemma_div_by_multiple(b as int, FP_ONE as int);
    vstd::arithmetic::div_mod::lemma_div_pos_is_pos(p, FP_ONE as int);
}

/// Floor integer square root, defined by counting up; the executable
/// version below finds the same value by binary search.
pub open spec fn isqrt_s(n: nat) -> nat
    decreases n,
{
    if n == 0 {
        0
    } else {
        let p = isqrt_s((n - 1) as nat);
        if (p + 1) * (p + 1) <= n {
            p + 1
        } else {
            p
        }
    }
}

pub proof fn lemma_isqrt_bounds(n: nat)
    ensures
        isqrt_s(n) * isqrt_s(n) <= n,
        n < (isqrt_s(n) + 1) * (isqrt_s(n) + 1),
    decreases n,
{
    if n == 0 {
        assert(isqrt_s(0) == 0);
        assert(isqrt_s(n) * isqrt_s(n) <= n);
        assert(n < (isqrt_s(n) + 1) * (isqrt_s(n) + 1)) by (nonlinear_arith)
            requires
                n == 0,
                isqrt_s(n) == 0,
        ;
    } else {
        let m = (n - 1) as nat;
        let p = isqrt_s(m);
        lemma_isqrt_bounds(m);
        assert(p * p <= m);
        assert(m < (p + 1) * (p + 1));
        if (p + 1) * (p + 1) <= n {
            assert(isqrt_s(n) == p + 1);
            assert(n <= (p + 1) * (p + 1));
            assert((p + 1) * (p + 1) < ((p + 1) + 1) * ((p + 1) + 1)) by (nonlinear_arith);
        } else {
            assert(isqrt_s(n) == p);
            assert(p * p <= n);
            assert(n < (p + 1) * (p + 1));
        }
    }
}

pub proof fn lemma_isqrt_unique(n: nat, r: nat)
    requires
        r * r <= n,
        n < (r + 1) * (r + 1),
    ensures
        r == isqrt_s(n),
{
    let s = isqrt_s(n);
    lemma_isqrt_bounds(n);
    if r < s {
        assert((r + 1) * (r + 1) <= s * s) by (nonlinear_arith)
            requires
                r + 1 <= s,
        ;
    }
    if s < r {
        assert((s + 1) * (s + 1) <= r * r) by (nonlinear_arith)
            requires
                s + 1 <= r,
        ;
    }
}

/// Binary-search floor square root on `u64`.
pub fn isqrt_u64(n: u64) -> (r: u64)
    requires
        n <= 0x4000_0000_0000_0000,
    ensures
        r == isqrt_s(n as nat),
        r * r <= n,
        n < (r + 1) * (r + 1),
{
    let mut lo: u64 = 0;
    let mut hi: u64 = 0x8000_0001;
    proof {
        assert((0x8000_0001 as int) * (0x8000_0001 as int) > 0x4000_0000_0000_0000)
            by (nonlinear_arith);
    }
    while lo + 1 < hi
        invariant
            lo < hi,
            hi <= 0x8000_0001,
            n <= 0x4000_0000_0000_0000,
            lo * lo <= n,
            (n as int) < (hi as int) * (hi as int),
        decreases hi - lo,
    {
        let mid = lo + (hi - lo) / 2;
        proof {
            assert(mid < hi);
            assert((mid as int) * (mid as int) <= 0x8000_0000 * 0x8000_0000) by (nonlinear_arith)
                requires
                    mid <= 0x8000_0000,
            ;
        }
        if mid * mid <= n {
            lo = mid;
        } else {
            hi = mid;
        }
    }
    proof {
        lemma_isqrt_unique(n as nat, lo as nat);
    }
    lo
}

/// Square root of a fixed-point scalar: non-positive inputs give 0.
pub open spec fn fsqrt_s(a: i64) -> i64 {
    if a <= 0 {
        0
    } else {
        sat(isqrt_s((a * FP_ONE) as nat) as int)
    }
}

pub fn fx_sqrt(a: i64) -> (r: i64)
    requires
        in_range(a),
    ensures
        r == fsqrt_s(a),
        in_range(r),
        r >= 0,
{
    if a <= 0 {
        0
    } else {
        proof {
            assert((a as int) * (FP_ONE as int) <= 0x4000_0000 * 1024) by (nonlinear_arith)
                requires
                    0 < a <= 0x4000_0000,
            ;
        }
        let n: u64 = (a as u64) * (FP_ONE as u64);
        let s = isqrt_u64(n);
        proof {
            assert((s as int) * (s as int) <= n as int);
            assert(s <= 0x8000_0000) by (nonlinear_arith)
                requires
                    (s as int) * (s as int) <= n as int,
                    n <= 0x4000_0000_0000_0000,
            ;
        }
        fx_sat(s as i64)
    }
}

/// Integer power of a fixed-point base, used for the specular exponent.
pub open spec fn fpow_s(b: i64, e: nat) -> i64
    decreases e,
{
    if e == 0 {
        FP_ONE
    } else {
        fmul_s(fpow_s(b, (e - 1) as nat), b)
    }
}

pub fn fx_pow(b: i64, e: u32) -> (r: i64)
    requires
        in_range(b),
    ensures
        r == fpow_s(b, e as nat),
        in_range(r),
{
    let mut acc: i64 = FP_ONE;
    let mut i: u32 = 0;
    while i < e
        invariant
            i <= e,
            in_range(b),
            in_range(acc),
            acc == fpow_s(b, i as nat),
        decreases e - i,
    {
        acc = fx_mul(acc, b);
        i = i + 1;
    }
    acc
}

} // verus!
