//! The recursive ray-tracing core: reflection, refraction, Fresnel
//! weighting, shadow casting, environment sampling and the shading
//! recursion itself.
//!
//! Every executable function mirrors a specification function over the
//! same fixed-point arithmetic, so each result is pinned exactly.

use vstd::prelude::*;
use crate::fixed::{
    in_range, abs_i, fadd_s, fsub_s, fneg_s, fmul_s, fdiv_s, fmin_s, fmax_s, fclamp_s, fsqrt_s,
    fpow_s, fx_add, fx_sub, fx_neg, fx_mul, fx_div, fx_min, fx_max, fx_clamp, fx_sqrt,
    fx_pow, div_i64, lemma_fmul_unit, lemma_fmul_abs_bound, lemma_fdiv_le_one, FP_ONE, FP_NEG_ONE,
    FP_LIMIT,
};
use crate::vec3::{
    Vec3, v_in_range, v_add_s, v_sub_s, v_neg_s, v_scale_s, v_dot_s, v_mag_s, v_norm_s,
};
use crate::color::{Color, c_add_s, c_scale_s};
use crate::texture::{Texture, tex_wf, sample_s};
use crate::material::{mat_wf, diffuse_color_s};
use crate::light::{Light, light_wf};
use crate::cube::{Cube, cube_wf, Intersect, empty_intersect_s, cube_intersect_s};
use crate::block_textures::{Textures, table_wf};

verus! {

/// Offset applied along the normal before secondary rays: one fixed-point
/// step, about a thousandth of a unit.
pub const BIAS: i64 = 1;

/// Fixed-point ambient light intensity.
pub const AMBIENT_INTENSITY: i64 = 307;

/// Pi and friends in fixed point.
pub const PI_FX: i64 = 3217;

pub const TWO_PI_FX: i64 = 6434;

pub const HALF_PI_FX: i64 = 1608;

/// Coefficients of the arctangent approximation.
pub const ATAN_QUARTER_PI: i64 = 804;

pub const ATAN_TUNE: i64 = 280;

pub open spec fn ambient_color_s() -> Color {
    c_scale_s(Color { r: 25u8, g: 25u8, b: 25u8 }, AMBIENT_INTENSITY)
}

pub open spec fn abs_fx_s(a: i64) -> i64 {
    if a < 0 {
        fneg_s(a)
    } else {
        a
    }
}

pub fn fx_abs(a: i64) -> (r: i64)
    requires
        in_range(a),
    ensures
        r == abs_fx_s(a),
        in_range(r),
        r >= 0,
{
    if a < 0 {
        fx_neg(a)
    } else {
        a
    }
}

/// The shading point nudged along the surface normal, so secondary and
/// shadow rays cannot immediately re-hit the surface they start on.
pub open spec fn offset_point_s(intersect: Intersect) -> Vec3 {
    v_add_s(intersect.point, v_scale_s(intersect.normal, BIAS))
}

pub fn offset_point(intersect: &Intersect, _direction: &Vec3) -> (r: Vec3)
    requires
        v_in_range(intersect.point),
        v_in_range(intersect.normal),
    ensures
        r == offset_point_s(*intersect),
        v_in_range(r),
{
    let offset = intersect.normal.scale(BIAS);
    intersect.point.add(&offset)
}

/// Mirror reflection of `incident` about `normal`.
pub open spec fn reflect_s(incident: Vec3, normal: Vec3) -> Vec3 {
    let d = v_dot_s(incident, normal);
    v_sub_s(incident, v_scale_s(normal, fadd_s(d, d)))
}

pub fn reflect(incident: &Vec3, normal: &Vec3) -> (r: Vec3)
    requires
        v_in_range(*incident),
        v_in_range(*normal),
    ensures
        r == reflect_s(*incident, *normal),
        v_in_range(r),
{
    let d = incident.dot(normal);
    let two_d = fx_add(d, d);
    incident.sub(&normal.scale(two_d))
}

/// Snell refraction of `incident` at a surface of relative index `eta_t`,
/// flipping the normal and inverting the ratio when the ray travels with
/// the normal; a negative discriminant is total internal reflection and
/// falls back to the mirror direction.  A non-positive index is treated
/// as 1.
pub open spec fn refract_s(incident: Vec3, normal: Vec3, eta_t: i64) -> Vec3 {
    let cosi = fneg_s(fclamp_s(v_dot_s(incident, normal), FP_NEG_ONE, FP_ONE));
    let n_cosi = if cosi < 0 {
        fneg_s(cosi)
    } else {
        cosi
    };
    let eta = if cosi < 0 {
        if eta_t <= 0 {
            FP_ONE
        } else {
            fdiv_s(FP_ONE, eta_t)
        }
    } else {
        if eta_t <= 0 {
            FP_ONE
        } else {
            eta_t
        }
    };
    let n_normal = if cosi < 0 {
        v_neg_s(normal)
    } else {
        normal
    };
    let k = fsub_s(FP_ONE, fmul_s(fmul_s(eta, eta), fsub_s(FP_ONE, fmul_s(n_cosi, n_cosi))));
    if k < 0 {
        reflect_s(incident, n_normal)
    } else {
        v_add_s(
            v_scale_s(incident, eta),
            v_scale_s(n_normal, fsub_s(fmul_s(eta, n_cosi), fsqrt_s(k))),
        )
    }
}

pub fn refract(incident: &Vec3, normal: &Vec3, eta_t: i64) -> (r: Vec3)
    requires
        v_in_range(*incident),
        v_in_range(*normal),
        in_range(eta_t),
    ensures
        r == refract_s(*incident, *normal, eta_t),
        v_in_range(r),
{
    let cosi = fx_neg(fx_clamp(incident.dot(normal), FP_NEG_ONE, FP_ONE));
    let n_cosi: i64 = if cosi < 0 {
        fx_neg(cosi)
    } else {
        cosi
    };
    let eta: i64 = if cosi < 0 {
        if eta_t <= 0 {
            FP_ONE
        } else {
            fx_div(FP_ONE, eta_t)
        }
    } else {
        if eta_t <= 0 {
            FP_ONE
        } else {
            eta_t
        }
    };
    let n_normal: Vec3 = if cosi < 0 {
        normal.neg()
    } else {
        *normal
    };
    let k = fx_sub(FP_ONE, fx_mul(fx_mul(eta, eta), fx_sub(FP_ONE, fx_mul(n_cosi, n_cosi))));
    if k < 0 {
        reflect(incident, &n_normal)
    } else {
        incident.scale(eta).add(&n_normal.scale(fx_sub(fx_mul(eta, n_cosi), fx_sqrt(k))))
    }
}

/// Schlick's approximation of the Fresnel reflectance.
pub open spec fn fresnel_s(cos_theta: i64, ior: i64) -> i64 {
    let a = fsub_s(FP_ONE, ior);
    let b = fadd_s(FP_ONE, ior);
    let q = fdiv_s(a, b);
    let r0 = fmul_s(q, q);
    let p = fsub_s(FP_ONE, cos_theta);
    let p2 = fmul_s(p, p);
    let p4 = fmul_s(p2, p2);
    let p5 = fmul_s(p4, p);
    fadd_s(r0, fmul_s(fsub_s(FP_ONE, r0), p5))
}

/// For every cosine in [0, 1] and every non-negative refractive index the
/// Fresnel weight lies in [0, 1].
pub fn fresnel_schlick(cos_theta: i64, ior: i64) -> (r: i64)
    requires
        0 <= cos_theta <= FP_ONE,
        0 <= ior <= FP_LIMIT,
    ensures
        r == fresnel_s(cos_theta, ior),
        0 <= r <= FP_ONE,
{
    let a = fx_sub(FP_ONE, ior);
    let b = fx_add(FP_ONE, ior);
    proof {
        assert(b >= FP_ONE);
        assert(abs_i(a as int) <= abs_i(b as int));
    }
    let q = fx_div(a, b);
    proof {
        lemma_fdiv_le_one(a, b);
        lemma_fmul_abs_bound(q, q, FP_ONE as int, FP_ONE as int);
        assert((q as int) * (q as int) >= 0) by (nonlinear_arith);
        vstd::arithmetic::div_mod::lemma_div_pos_is_pos(
            (q as int) * (q as int),
            FP_ONE as int,
        );
    }
    let r0 = fx_mul(q, q);
    let p = fx_sub(FP_ONE, cos_theta);
    proof {
        lemma_fmul_unit(p, p);
    }
    let p2 = fx_mul(p, p);
    proof {
        lemma_fmul_unit(p2, p2);
    }
    let p4 = fx_mul(p2, p2);
    proof {
        lemma_fmul_unit(p4, p);
    }
    let p5 = fx_mul(p4, p);
    let rest = fx_sub(FP_ONE, r0);
    proof {
        lemma_fmul_unit(rest, p5);
    }
    fx_add(r0, fx_mul(rest, p5))
}

/// Arctangent of a ratio in [-1, 1], by a quadratic approximation.
pub open spec fn atan_core_s(r: i64) -> i64 {
    fmul_s(r, fadd_s(ATAN_QUARTER_PI, fmul_s(ATAN_TUNE, fsub_s(FP_ONE, abs_fx_s(r)))))
}

fn atan_core(r: i64) -> (a: i64)
    requires
        in_range(r),
    ensures
        a == atan_core_s(r),
        in_range(a),
{
    fx_mul(r, fx_add(ATAN_QUARTER_PI, fx_mul(ATAN_TUNE, fx_sub(FP_ONE, fx_abs(r)))))
}

/// Quadrant-aware arctangent of y/x in fixed-point radians.
pub open spec fn atan2_s(y: i64, x: i64) -> i64 {
    if x == 0 && y == 0 {
        0
    } else if abs_fx_s(x) >= abs_fx_s(y) {
        let a = atan_core_s(fdiv_s(y, x));
        if x > 0 {
            a
        } else if y >= 0 {
            fadd_s(a, PI_FX)
        } else {
            fsub_s(a, PI_FX)
        }
    } else {
        let a = atan_core_s(fdiv_s(x, y));
        if y > 0 {
            fsub_s(HALF_PI_FX, a)
        } else {
            fsub_s(fneg_s(HALF_PI_FX), a)
        }
    }
}

pub fn atan2_fx(y: i64, x: i64) -> (r: i64)
    requires
        in_range(y),
        in_range(x),
    ensures
        r == atan2_s(y, x),
        in_range(r),
{
    let ax = fx_abs(x);
    let ay = fx_abs(y);
    if x == 0 && y == 0 {
        0
    } else if ax >= ay {
        let a = atan_core(fx_div(y, x));
        if x > 0 {
            a
        } else if y >= 0 {
            fx_add(a, PI_FX)
        } else {
            fx_sub(a, PI_FX)
        }
    } else {
        let a = atan_core(fx_div(x, y));
        if y > 0 {
            fx_sub(HALF_PI_FX, a)
        } else {
            fx_sub(fx_neg(HALF_PI_FX), a)
        }
    }
}

/// Arcsine via the arctangent of t against sqrt(1 - t*t).
pub open spec fn asin_s(t: i64) -> i64 {
    atan2_s(t, fsqrt_s(fsub_s(FP_ONE, fmul_s(t, t))))
}

pub fn asin_fx(t: i64) -> (r: i64)
    requires
        in_range(t),
    ensures
        r == asin_s(t),
        in_range(r),
{
    let sq = fx_sqrt(fx_sub(FP_ONE, fx_mul(t, t)));
    atan2_fx(t, sq)
}

/// One-period wraparound into [0, 1): enough because the angle formulas
/// land within one period of it.
pub open spec fn wrap_s(a: i64) -> i64 {
    if a >= FP_ONE {
        fsub_s(a, FP_ONE)
    } else if a < 0 {
        fadd_s(a, FP_ONE)
    } else {
        a
    }
}

fn fx_wrap(a: i64) -> (r: i64)
    requires
        in_range(a),
    ensures
        r == wrap_s(a),
        in_range(r),
{
    if a >= FP_ONE {
        fx_sub(a, FP_ONE)
    } else if a < 0 {
        fx_add(a, FP_ONE)
    } else {
        a
    }
}

/// Spherical texture coordinates of a direction: azimuth from arctangent
/// of x against z, elevation from the arcsine of the normalized y.
pub open spec fn skybox_uv_s(direction: Vec3) -> (i64, i64) {
    let n = v_norm_s(direction);
    let u = wrap_s(fadd_s(512, fdiv_s(atan2_s(n.x, n.z), TWO_PI_FX)));
    let v = wrap_s(fsub_s(512, fdiv_s(asin_s(n.y), PI_FX)));
    (u, v)
}

/// The environment color of a ray that escapes the scene.
pub open spec fn skybox_color_s(direction: Vec3, tex: Texture) -> Color {
    sample_s(tex, skybox_uv_s(direction).0, skybox_uv_s(direction).1)
}

pub fn get_skybox_color(direction: &Vec3, skybox_texture: &Texture) -> (c: Color)
    requires
        v_in_range(*direction),
        tex_wf(*skybox_texture),
    ensures
        c == skybox_color_s(*direction, *skybox_texture),
{
    let n = direction.normalize();
    let u = fx_wrap(fx_add(512, fx_div(atan2_fx(n.x, n.z), TWO_PI_FX)));
    let v = fx_wrap(fx_sub(512, fx_div(asin_fx(n.y), PI_FX)));
    skybox_texture.sample(u, v)
}

/// Direction from the shading point to the light, normalized.
pub open spec fn light_dir_s(intersect: Intersect, light: Light) -> Vec3 {
    v_norm_s(v_sub_s(light.position, intersect.point))
}

/// Distance from the shading point to the light.
pub open spec fn light_dist_s(intersect: Intersect, light: Light) -> i64 {
    v_mag_s(v_sub_s(light.position, intersect.point))
}

/// The soft shadow attenuation of an occluder at distance `d` on the way
/// to a light at distance `ldist`: half minus the squared distance ratio,
/// clamped into [0, 1].
pub open spec fn shadow_value_s(d: i64, ldist: i64) -> i64 {
    let ratio = fdiv_s(d, ldist);
    fclamp_s(fsub_s(512, fmin_s(fmul_s(ratio, ratio), FP_ONE)), 0, FP_ONE)
}

/// Whether a primitive blocks the segment from `origin` toward the light.
pub open spec fn shadow_blocks_s(c: Cube, origin: Vec3, dir: Vec3, ldist: i64) -> bool {
    let si = cube_intersect_s(c, origin, dir);
    si.is_intersecting && si.distance < ldist
}

/// First blocking primitive in scan order decides the attenuation;
/// a clear line of sight gives 0.
pub open spec fn shadow_scan_s(objects: Seq<Cube>, origin: Vec3, dir: Vec3, ldist: i64) -> i64
    decreases objects.len(),
{
    if objects.len() == 0 {
        0
    } else {
        let si = cube_intersect_s(objects[0], origin, dir);
        if si.is_intersecting && si.distance < ldist {
            shadow_value_s(si.distance, ldist)
        } else {
            shadow_scan_s(objects.skip(1), origin, dir, ldist)
        }
    }
}

pub open spec fn cast_shadow_s(intersect: Intersect, light: Light, objects: Seq<Cube>) -> i64 {
    shadow_scan_s(
        objects,
        offset_point_s(intersect),
        light_dir_s(intersect, light),
        light_dist_s(intersect, light),
    )
}

/// Shadow attenuation at a shading point: 0 exactly when no primitive
/// blocks the path to the light.
#[verifier::rlimit(100)]
pub fn cast_shadow(intersect: &Intersect, light: &Light, objects: &Vec<Cube>) -> (r: i64)
    requires
        v_in_range(intersect.point),
        v_in_range(intersect.normal),
        light_wf(*light),
        forall|j: int| 0 <= j < objects.len() ==> cube_wf(#[trigger] objects@[j]),
    ensures
        r == cast_shadow_s(*intersect, *light, objects@),
        0 <= r <= FP_ONE,
        (forall|j: int|
            0 <= j < objects.len() ==> !shadow_blocks_s(
                #[trigger] objects@[j],
                offset_point_s(*intersect),
                light_dir_s(*intersect, *light),
                light_dist_s(*intersect, *light),
            )) ==> r == 0,
{
    let to_light = light.position.sub(&intersect.point);
    let light_dir = to_light.normalize();
    let light_distance = to_light.magnitude();
    let shadow_ray_origin = offset_point(intersect, &light_dir);
    let ghost orig = offset_point_s(*intersect);
    let ghost ldist = light_dist_s(*intersect, *light);
    proof {
        assert(objects@.skip(0) =~= objects@);
    }
    let mut idx: usize = 0;
    while idx < objects.len()
        invariant
            idx <= objects.len(),
            v_in_range(shadow_ray_origin),
            v_in_range(light_dir),
            in_range(light_distance),
            shadow_ray_origin == orig,
            orig == offset_point_s(*intersect),
            light_dir == light_dir_s(*intersect, *light),
            light_distance == ldist,
            ldist == light_dist_s(*intersect, *light),
            forall|j: int| 0 <= j < objects.len() ==> cube_wf(#[trigger] objects@[j]),
            forall|j: int|
                0 <= j < idx ==> !shadow_blocks_s(
                    #[trigger] objects@[j],
                    orig,
                    light_dir_s(*intersect, *light),
                    ldist,
                ),
            shadow_scan_s(objects@, orig, light_dir_s(*intersect, *light), ldist)
                == shadow_scan_s(
                objects@.skip(idx as int),
                orig,
                light_dir_s(*intersect, *light),
                ldist,
            ),
        decreases objects.len() - idx,
    {
        proof {
            assert(objects@.skip(idx as int)[0] == objects@[idx as int]);
            assert(objects@.skip(idx as int).skip(1) =~= objects@.skip(idx as int + 1));
        }
        let si = objects[idx].ray_intersect(&shadow_ray_origin, &light_dir);
        if si.is_intersecting && si.distance < light_distance {
            let ratio = fx_div(si.distance, light_distance);
            let v = fx_clamp(fx_sub(512, fx_min(fx_mul(ratio, ratio), FP_ONE)), 0, FP_ONE);
            proof {
                let ld = light_dir_s(*intersect, *light);
                assert(si == cube_intersect_s(objects@[idx as int], orig, ld));
                assert(shadow_blocks_s(objects@[idx as int], orig, ld, ldist));
                assert(shadow_scan_s(objects@.skip(idx as int), orig, ld, ldist)
                    == shadow_value_s(si.distance, ldist));
                assert(v == shadow_value_s(si.distance, ldist));
            }
            return v;
        }
        idx = idx + 1;
    }
    proof {
        assert(objects@.skip(objects@.len() as int).len() == 0);
    }
    0
}

/// Rounded whole-number specular exponent of a fixed-point parameter.
pub open spec fn spec_exp_s(s: i64) -> nat {
    if s + 512 < 0 {
        0
    } else {
        ((s + 512) / (FP_ONE as int)) as nat
    }
}

/// Nearest hit of a linear scan, folded in scene order: a hit replaces
/// the best so far only when strictly closer.
pub open spec fn nearest_fold_s(objects: Seq<Cube>, o: Vec3, d: Vec3, acc: Intersect) -> Intersect
    decreases objects.len(),
{
    if objects.len() == 0 {
        acc
    } else {
        let i0 = cube_intersect_s(objects[0], o, d);
        let acc2 = if i0.is_intersecting && i0.distance < acc.distance {
            i0
        } else {
            acc
        };
        nearest_fold_s(objects.skip(1), o, d, acc2)
    }
}

pub open spec fn nearest_s(objects: Seq<Cube>, o: Vec3, d: Vec3) -> Intersect {
    nearest_fold_s(objects, o, d, empty_intersect_s())
}

/// A scan over primitives none of which the ray hits leaves the
/// accumulator untouched.
pub proof fn lemma_nearest_all_miss(objects: Seq<Cube>, o: Vec3, d: Vec3, acc: Intersect)
    requires
        forall|j: int|
            0 <= j < objects.len() ==> !cube_intersect_s(#[trigger] objects[j], o, d)
                .is_intersecting,
    ensures
        nearest_fold_s(objects, o, d, acc) == acc,
    decreases objects.len(),
{
    if objects.len() > 0 {
        assert(!cube_intersect_s(objects[0], o, d).is_intersecting);
        assert(forall|j: int|
            0 <= j < objects.skip(1).len() ==> objects.skip(1)[j] == objects[j + 1]);
        lemma_nearest_all_miss(objects.skip(1), o, d, acc);
    }
}

/// The whole recursive shading computation, as a specification function.
/// Recursion stops at depth 3, where the environment color is returned.
pub open spec fn cast_ray_s(
    o: Vec3,
    d: Vec3,
    objects: Seq<Cube>,
    light: Light,
    depth: u32,
    textures: Textures,
) -> Color
    decreases 3 - depth,
{
    if depth >= 3 {
        skybox_color_s(d, textures.skybox_texture)
    } else {
        let best = nearest_s(objects, o, d);
        if !best.is_intersecting {
            skybox_color_s(d, textures.skybox_texture)
        } else {
            let ambient = ambient_color_s();
            let light_dir = light_dir_s(best, light);
            let view_dir = v_norm_s(v_sub_s(o, best.point));
            let reflect_l = v_norm_s(reflect_s(v_neg_s(light_dir), best.normal));
            let cos_theta = fneg_s(fclamp_s(v_dot_s(d, best.normal), FP_NEG_ONE, FP_ONE));
            let shadow_intensity = cast_shadow_s(best, light, objects);
            let light_intensity = fmul_s(light.intensity, fsub_s(FP_ONE, shadow_intensity));
            let diffuse_intensity = fclamp_s(v_dot_s(best.normal, light_dir), 0, FP_ONE);
            let dcol = diffuse_color_s(best.material, best.u, best.v, textures.table@);
            let diffuse = c_scale_s(
                c_scale_s(c_scale_s(dcol, best.material.albedo[0]), diffuse_intensity),
                light_intensity,
            );
            let spec_int = fpow_s(
                fmax_s(v_dot_s(view_dir, reflect_l), 0),
                spec_exp_s(best.material.specular),
            );
            let specular = c_scale_s(
                c_scale_s(c_scale_s(light.color, best.material.albedo[1]), spec_int),
                light_intensity,
            );
            let fres = fresnel_s(abs_fx_s(cos_theta), best.material.refractive_index);
            let reflect_color = if best.material.albedo[2] > 0 {
                c_scale_s(
                    cast_ray_s(
                        offset_point_s(best),
                        v_norm_s(reflect_s(d, best.normal)),
                        objects,
                        light,
                        (depth + 1) as u32,
                        textures,
                    ),
                    fres,
                )
            } else {
                Color { r: 0u8, g: 0u8, b: 0u8 }
            };
            let refract_color = if best.material.albedo[3] > 0 {
                c_scale_s(
                    cast_ray_s(
                        offset_point_s(best),
                        refract_s(d, best.normal, best.material.refractive_index),
                        objects,
                        light,
                        (depth + 1) as u32,
                        textures,
                    ),
                    fsub_s(FP_ONE, fres),
                )
            } else {
                Color { r: 0u8, g: 0u8, b: 0u8 }
            };
            c_add_s(
                c_add_s(c_add_s(c_add_s(ambient, diffuse), specular), reflect_color),
                refract_color,
            )
        }
    }
}

/// Every primitive of a scene is well formed and its texture handle, if
/// any, points into the given table.
pub open spec fn scene_wf(objects: Seq<Cube>, table_len: int) -> bool {
    forall|j: int|
        0 <= j < objects.len() ==> cube_wf(#[trigger] objects[j]) && crate::material::mat_tex_ok(
            objects[j].material,
            table_len,
        )
}

/// Recursive shading of one ray.  The result equals `cast_ray_s`; at the
/// depth cap, and when the ray misses every primitive, it is exactly the
/// environment sample.
#[verifier::rlimit(100)]
pub fn cast_ray(
    ray_origin: &Vec3,
    ray_direction: &Vec3,
    objects: &Vec<Cube>,
    light: &Light,
    depth: u32,
    textures: &Textures,
) -> (c: Color)
    requires
        v_in_range(*ray_origin),
        v_in_range(*ray_direction),
        light_wf(*light),
        table_wf(*textures),
        scene_wf(objects@, textures.table@.len() as int),
    ensures
        c == cast_ray_s(*ray_origin, *ray_direction, objects@, *light, depth, *textures),
        depth >= 3 ==> c == skybox_color_s(*ray_direction, textures.skybox_texture),
        (forall|j: int|
            0 <= j < objects.len() ==> !cube_intersect_s(
                #[trigger] objects@[j],
                *ray_origin,
                *ray_direction,
            ).is_intersecting) ==> c == skybox_color_s(*ray_direction, textures.skybox_texture),
    decreases 3 - depth,
{
    if depth >= 3 {
        return get_skybox_color(ray_direction, &textures.skybox_texture);
    }
    let mut intersect = Intersect::empty();
    proof {
        assert(objects@.skip(0) =~= objects@);
    }
    let mut idx: usize = 0;
    while idx < objects.len()
        invariant
            idx <= objects.len(),
            v_in_range(*ray_origin),
            v_in_range(*ray_direction),
            scene_wf(objects@, textures.table@.len() as int),
            nearest_s(objects@, *ray_origin, *ray_direction) == nearest_fold_s(
                objects@.skip(idx as int),
                *ray_origin,
                *ray_direction,
                intersect,
            ),
            in_range(intersect.distance),
            in_range(intersect.u),
            in_range(intersect.v),
            v_in_range(intersect.point),
            v_in_range(intersect.normal),
            intersect.is_intersecting ==> intersect.distance >= 0 && mat_wf(intersect.material)
                && crate::material::mat_tex_ok(intersect.material, textures.table@.len() as int),
        decreases objects.len() - idx,
    {
        proof {
            assert(objects@.skip(idx as int)[0] == objects@[idx as int]);
            assert(objects@.skip(idx as int).skip(1) =~= objects@.skip(idx as int + 1));
        }
        let i = objects[idx].ray_intersect(ray_origin, ray_direction);
        if i.is_intersecting && i.distance < intersect.distance {
            intersect = i;
        }
        idx = idx + 1;
    }
    proof {
        assert(objects@.skip(objects@.len() as int).len() == 0);
        if forall|j: int|
            0 <= j < objects.len() ==> !cube_intersect_s(
                #[trigger] objects@[j],
                *ray_origin,
                *ray_direction,
            ).is_intersecting {
            lemma_nearest_all_miss(objects@, *ray_origin, *ray_direction, empty_intersect_s());
        }
    }
    if !intersect.is_intersecting {
        return get_skybox_color(ray_direction, &textures.skybox_texture);
    }
    let ambient_light = Color::new(25, 25, 25).scale(AMBIENT_INTENSITY);

    let to_light = light.position.sub(&intersect.point);
    let light_dir = to_light.normalize();
    let view_dir = ray_origin.sub(&intersect.point).normalize();
    let reflect_l = reflect(&light_dir.neg(), &intersect.normal).normalize();
    let cos_theta = fx_neg(fx_clamp(ray_direction.dot(&intersect.normal), FP_NEG_ONE, FP_ONE));

    let shadow_intensity = cast_shadow(&intersect, light, objects);
    let light_intensity = fx_mul(light.intensity, fx_sub(FP_ONE, shadow_intensity));

    let diffuse_intensity = fx_clamp(intersect.normal.dot(&light_dir), 0, FP_ONE);
    let diffuse_color = intersect.material.get_diffuse_color(
        intersect.u,
        intersect.v,
        &textures.table,
    );
    let diffuse = diffuse_color
        .scale(intersect.material.albedo[0])
        .scale(diffuse_intensity)
        .scale(light_intensity);

    let spec_base = fx_max(view_dir.dot(&reflect_l), 0);
    let spec_e64 = div_i64(intersect.material.specular + 512, FP_ONE);
    proof {
        assert(spec_e64 == spec_exp_s(intersect.material.specular));
        assert(spec_e64 <= FP_LIMIT);
    }
    let specular_intensity = fx_pow(spec_base, spec_e64 as u32);
    let specular = light
        .color
        .scale(intersect.material.albedo[1])
        .scale(specular_intensity)
        .scale(light_intensity);

    let fresnel_effect = fresnel_schlick(fx_abs(cos_theta), intersect.material.refractive_index);
    let reflect_color = if intersect.material.albedo[2] > 0 {
        let reflect_dir = reflect(ray_direction, &intersect.normal).normalize();
        let reflect_origin = offset_point(&intersect, ray_direction);
        cast_ray(&reflect_origin, &reflect_dir, objects, light, depth + 1, textures).scale(
            fresnel_effect,
        )
    } else {
        Color::black()
    };

    let refract_color = if intersect.material.albedo[3] > 0 {
        let refract_dir = refract(
            ray_direction,
            &intersect.normal,
            intersect.material.refractive_index,
        );
        let refract_origin = offset_point(&intersect, &refract_dir);
        cast_ray(&refract_origin, &refract_dir, objects, light, depth + 1, textures).scale(
            fx_sub(FP_ONE, fresnel_effect),
        )
    } else {
        Color::black()
    };

    ambient_light.add(&diffuse).add(&specular).add(&reflect_color).add(&refract_color)
}

} // verus!
