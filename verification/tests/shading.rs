use voxelray::color::Color;
use voxelray::cube::{Cube, Intersect};
use voxelray::fixed::{FP_ONE, FP_LIMIT};
use voxelray::light::Light;
use voxelray::material::Material;
use voxelray::texture::Texture;
use voxelray::tracer::{cast_shadow, fresnel_schlick, get_skybox_color, offset_point, reflect,
    refract};
use voxelray::vec3::Vec3;

fn plain_material() -> Material {
    Material::new(Color::new(200, 30, 40), FP_ONE, [FP_ONE, 0, 0, 0], 0)
}

fn unit_cube_at(bx: i64, by: i64, bz: i64) -> Cube {
    Cube {
        min: Vec3::new(bx * FP_ONE, by * FP_ONE, bz * FP_ONE),
        max: Vec3::new((bx + 1) * FP_ONE, (by + 1) * FP_ONE, (bz + 1) * FP_ONE),
        material: plain_material(),
    }
}

#[test]
fn fresnel_weight_stays_in_unit_interval() {
    // Concrete instances of the [0, 1] bound, plus exact values.
    assert_eq!(fresnel_schlick(FP_ONE, 0), FP_ONE);
    assert_eq!(fresnel_schlick(FP_ONE, FP_ONE), 0);
    assert_eq!(fresnel_schlick(0, 1536), FP_ONE);
    for cos in [0, 1, 100, 512, 1000, FP_ONE] {
        for ior in [0, 1, 307, FP_ONE, 1536, 10 * FP_ONE, FP_LIMIT] {
            let w = fresnel_schlick(cos, ior);
            assert!(0 <= w && w <= FP_ONE, "weight {w} out of range");
        }
    }
}

#[test]
fn reflection_mirrors_about_the_normal() {
    let down = Vec3::new(0, -FP_ONE, 0);
    let up = Vec3::new(0, FP_ONE, 0);
    assert_eq!(reflect(&down, &up), up);
    let slanted = Vec3::new(512, -512, 0);
    assert_eq!(reflect(&slanted, &up), Vec3::new(512, 512, 0));
}

#[test]
fn refraction_passes_straight_through_head_on() {
    let down = Vec3::new(0, -FP_ONE, 0);
    let up = Vec3::new(0, FP_ONE, 0);
    assert_eq!(refract(&down, &up, 1536), down);
}

#[test]
fn total_internal_reflection_falls_back_to_mirror() {
    // Grazing incidence against a dense-to-thin boundary: the discriminant
    // goes negative and the ray reflects instead.
    let incident = Vec3::new(-830, -600, 0);
    let up = Vec3::new(0, FP_ONE, 0);
    assert_eq!(refract(&incident, &up, 1536), reflect(&incident, &up));
}

#[test]
fn offset_point_nudges_along_the_normal() {
    let mut i = Intersect::empty();
    i.point = Vec3::new(512, FP_ONE, 512);
    i.normal = Vec3::new(0, FP_ONE, 0);
    let p = offset_point(&i, &Vec3::new(0, -FP_ONE, 0));
    assert_eq!(p, Vec3::new(512, FP_ONE + 1, 512));
}

#[test]
fn clear_line_of_sight_gives_zero_shadow() {
    // The shaded point sits on the cube's top face; the light is straight
    // above and nothing blocks it.
    let scene = vec![unit_cube_at(0, 0, 0)];
    let light = Light::new(Vec3::new(512, 10 * FP_ONE, 512), Color::new(255, 255, 255), FP_ONE);
    let mut i = Intersect::empty();
    i.is_intersecting = true;
    i.point = Vec3::new(512, FP_ONE, 512);
    i.normal = Vec3::new(0, FP_ONE, 0);
    assert_eq!(cast_shadow(&i, &light, &scene), 0);
}

#[test]
fn occluder_between_point_and_light_casts_shadow() {
    let scene = vec![unit_cube_at(0, 0, 0), unit_cube_at(0, 5, 0)];
    let light = Light::new(Vec3::new(512, 10 * FP_ONE, 512), Color::new(255, 255, 255), FP_ONE);
    let mut i = Intersect::empty();
    i.is_intersecting = true;
    i.point = Vec3::new(512, FP_ONE, 512);
    i.normal = Vec3::new(0, FP_ONE, 0);
    let s = cast_shadow(&i, &light, &scene);
    assert!(s > 0 && s <= FP_ONE, "attenuation {s}");
    // Half minus the squared distance ratio: the occluder sits at 4095 of
    // 9216 fixed units toward the light.
    assert_eq!(s, 310);
}

#[test]
fn skybox_sampling_picks_the_expected_texel() {
    // A 2x1 environment: +z maps to azimuth 0.5, the right texel.
    let sky = Texture::new(2, 1, vec![Color::new(10, 20, 30), Color::new(40, 50, 60)]);
    let c = get_skybox_color(&Vec3::new(0, 0, FP_ONE), &sky);
    assert_eq!(c, Color::new(40, 50, 60));
    // Looking along -z wraps the azimuth to the seam texel.
    let c2 = get_skybox_color(&Vec3::new(0, 0, -FP_ONE), &sky);
    assert!(c2 == Color::new(10, 20, 30) || c2 == Color::new(40, 50, 60));
}

#[test]
fn texture_sampling_clamps_to_the_buffer() {
    let t = Texture::new(2, 2, vec![
        Color::new(1, 1, 1),
        Color::new(2, 2, 2),
        Color::new(3, 3, 3),
        Color::new(4, 4, 4),
    ]);
    assert_eq!(t.get_color(1, 1), Color::new(4, 4, 4));
    assert_eq!(t.sample(0, 0), Color::new(1, 1, 1));
    assert_eq!(t.sample(FP_ONE, FP_ONE), Color::new(4, 4, 4));
    assert_eq!(t.sample(-5 * FP_ONE, 9 * FP_ONE), Color::new(3, 3, 3));
}
