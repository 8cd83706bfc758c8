use voxelray::color::Color;
use voxelray::fixed::{div_i64, fx_add, fx_div, fx_mul, fx_pow, fx_sat, fx_sqrt, isqrt_u64,
    FP_LIMIT, FP_NEG_LIMIT, FP_ONE};

#[test]
fn division_truncates_toward_zero() {
    assert_eq!(div_i64(7, 2), 3);
    assert_eq!(div_i64(-7, 2), -3);
    assert_eq!(div_i64(7, -2), -3);
    assert_eq!(div_i64(-7, -2), 3);
}

#[test]
fn saturation_caps_at_limits() {
    assert_eq!(fx_sat(FP_LIMIT), FP_LIMIT);
    assert_eq!(fx_add(FP_LIMIT, FP_LIMIT), FP_LIMIT);
    assert_eq!(fx_add(FP_NEG_LIMIT, FP_NEG_LIMIT), FP_NEG_LIMIT);
}

#[test]
fn fixed_multiply_and_divide() {
    assert_eq!(fx_mul(FP_ONE, FP_ONE), FP_ONE);
    assert_eq!(fx_mul(512, 512), 256);
    assert_eq!(fx_div(512, 2048), 256);
    assert_eq!(fx_mul(-512, 512), -256);
}

#[test]
fn integer_square_roots() {
    assert_eq!(isqrt_u64(0), 0);
    assert_eq!(isqrt_u64(10), 3);
    assert_eq!(isqrt_u64(16), 4);
    assert_eq!(isqrt_u64(1 << 40), 1 << 20);
    assert_eq!(fx_sqrt(FP_ONE), FP_ONE);
    assert_eq!(fx_sqrt(4096), 2048);
    assert_eq!(fx_sqrt(-5), 0);
}

#[test]
fn fixed_powers() {
    assert_eq!(fx_pow(512, 0), FP_ONE);
    assert_eq!(fx_pow(512, 1), 512);
    assert_eq!(fx_pow(512, 2), 256);
    assert_eq!(fx_pow(FP_ONE, 50), FP_ONE);
}

#[test]
fn color_packs_deterministically() {
    assert_eq!(Color::new(0x12, 0x34, 0x56).to_hex(), 0x123456);
    assert_eq!(Color::black().to_hex(), 0);
    assert_eq!(Color::new(255, 255, 255).to_hex(), 0xFFFFFF);
}

#[test]
fn color_addition_saturates() {
    let a = Color::new(200, 100, 0);
    let b = Color::new(100, 100, 5);
    assert_eq!(a.add(&b), Color::new(255, 200, 5));
}

#[test]
fn color_scaling_clamps_and_floors() {
    let c = Color::new(200, 30, 40);
    assert_eq!(c.scale(FP_ONE), c);
    assert_eq!(c.scale(512), Color::new(100, 15, 20));
    assert_eq!(c.scale(0), Color::new(0, 0, 0));
    assert_eq!(c.scale(-7), Color::new(0, 0, 0));
    assert_eq!(c.scale(4096), Color::new(255, 120, 160));
}
