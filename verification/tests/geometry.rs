use voxelray::color::Color;
use voxelray::cube::{Cube, Intersect};
use voxelray::fixed::FP_ONE;
use voxelray::material::Material;
use voxelray::vec3::Vec3;

fn plain_material() -> Material {
    Material::new(Color::new(200, 30, 40), FP_ONE, [FP_ONE, 0, 0, 0], 0)
}

fn unit_cube_at(bx: i64, by: i64, bz: i64) -> Cube {
    Cube {
        min: Vec3::new(bx * FP_ONE, by * FP_ONE, bz * FP_ONE),
        max: Vec3::new((bx + 1) * FP_ONE, (by + 1) * FP_ONE, (bz + 1) * FP_ONE),
        material: plain_material(),
    }
}

#[test]
fn vector_operations() {
    let a = Vec3::new(FP_ONE, 0, 0);
    let b = Vec3::new(0, FP_ONE, 0);
    assert_eq!(a.dot(&b), 0);
    assert_eq!(a.dot(&a), FP_ONE);
    assert_eq!(a.cross(&b), Vec3::new(0, 0, FP_ONE));
    assert_eq!(a.add(&b), Vec3::new(FP_ONE, FP_ONE, 0));
    assert_eq!(Vec3::new(3 * FP_ONE, 4 * FP_ONE, 0).magnitude(), 5 * FP_ONE);
    assert_eq!(Vec3::new(0, 5 * FP_ONE, 0).normalize(), Vec3::new(0, FP_ONE, 0));
    assert_eq!(Vec3::zero().normalize(), Vec3::zero());
}

#[test]
fn axis_ray_hits_near_face_at_exact_distance() {
    // A ray straight along +x through the cube's center, from outside:
    // the hit distance is the near face coordinate minus the origin's.
    let c = unit_cube_at(3, 0, 0);
    let origin = Vec3::new(0, 512, 512);
    let dir = Vec3::new(FP_ONE, 0, 0);
    let hit = c.ray_intersect(&origin, &dir);
    assert!(hit.is_intersecting);
    assert_eq!(hit.distance, 3 * FP_ONE);
    assert_eq!(hit.normal, Vec3::new(-FP_ONE, 0, 0));
    assert_eq!(hit.point, Vec3::new(3 * FP_ONE, 512, 512));
    // Face coordinates: the hit is at the center of the struck face.
    assert_eq!(hit.u, 512);
    assert_eq!(hit.v, 512);
}

#[test]
fn ray_pointing_away_misses() {
    let c = unit_cube_at(3, 0, 0);
    let origin = Vec3::new(0, 512, 512);
    let dir = Vec3::new(-FP_ONE, 0, 0);
    let hit = c.ray_intersect(&origin, &dir);
    assert!(!hit.is_intersecting);
}

#[test]
fn ray_parallel_outside_slab_misses() {
    let c = unit_cube_at(0, 0, 0);
    let origin = Vec3::new(-FP_ONE, 3 * FP_ONE, 512);
    let dir = Vec3::new(FP_ONE, 0, 0);
    assert!(!c.ray_intersect(&origin, &dir).is_intersecting);
}

#[test]
fn ray_from_inside_exits_through_far_face() {
    let c = unit_cube_at(0, 0, 0);
    let origin = Vec3::new(512, 512, 512);
    let dir = Vec3::new(FP_ONE, 0, 0);
    let hit = c.ray_intersect(&origin, &dir);
    assert!(hit.is_intersecting);
    assert_eq!(hit.distance, 512);
    assert_eq!(hit.normal, Vec3::new(FP_ONE, 0, 0));
}

#[test]
fn degenerate_box_does_not_break_the_test() {
    // A zero-volume box: the slab test stays well defined.
    let flat = Cube {
        min: Vec3::new(FP_ONE, 0, 0),
        max: Vec3::new(FP_ONE, FP_ONE, FP_ONE),
        material: plain_material(),
    };
    let hit = flat.ray_intersect(&Vec3::new(0, 512, 512), &Vec3::new(FP_ONE, 0, 0));
    assert!(hit.is_intersecting);
    assert_eq!(hit.distance, FP_ONE);
    let miss = flat.ray_intersect(&Vec3::new(0, 3 * FP_ONE, 512), &Vec3::new(FP_ONE, 0, 0));
    assert!(!miss.is_intersecting);
}

#[test]
fn empty_intersect_is_the_sentinel() {
    let e = Intersect::empty();
    assert!(!e.is_intersecting);
    assert_eq!(e.distance, voxelray::fixed::FP_LIMIT);
}

#[test]
fn sphere_stub_always_reports_a_hit() {
    let s = voxelray::sphere::Sphere { center: Vec3::zero(), radius: FP_ONE };
    assert!(s.ray_intersect(&Vec3::new(9 * FP_ONE, 0, 0), &Vec3::new(FP_ONE, 0, 0)));
}

#[test]
fn axis_ray_along_y_hits_the_bottom_face() {
    let c = unit_cube_at(0, 4, 0);
    let origin = Vec3::new(512, FP_ONE, 512);
    let dir = Vec3::new(0, FP_ONE, 0);
    let hit = c.ray_intersect(&origin, &dir);
    assert!(hit.is_intersecting);
    assert_eq!(hit.distance, 3 * FP_ONE);
    assert_eq!(hit.normal, Vec3::new(0, -FP_ONE, 0));
}
