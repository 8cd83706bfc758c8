use voxelray::block_textures::Textures;
use voxelray::camera::Camera;
use voxelray::color::Color;
use voxelray::cube::Cube;
use voxelray::fixed::FP_ONE;
use voxelray::framebuffer::Framebuffer;
use voxelray::light::Light;
use voxelray::material::Material;
use voxelray::renderer::render;
use voxelray::texture::Texture;
use voxelray::tracer::cast_ray;
use voxelray::vec3::Vec3;

fn flat_texture(c: Color) -> Texture {
    Texture::new(1, 1, vec![c])
}

fn test_textures() -> Textures {
    let mut table = Vec::new();
    for i in 0..11u8 {
        table.push(flat_texture(Color::new(20 * i, 10 * i, 5 * i)));
    }
    let sky = Texture::new(2, 2, vec![
        Color::new(51, 51, 85),
        Color::new(52, 52, 86),
        Color::new(53, 53, 87),
        Color::new(54, 54, 88),
    ]);
    Textures::new(table, sky)
}

fn diffuse_cube() -> Cube {
    // A purely diffuse material: albedo [1, 0, 0, 0].
    let m = Material::new(Color::new(200, 30, 40), FP_ONE, [FP_ONE, 0, 0, 0], 0);
    Cube {
        min: Vec3::new(0, 0, 0),
        max: Vec3::new(FP_ONE, FP_ONE, FP_ONE),
        material: m,
    }
}

fn overhead_light() -> Light {
    Light::new(Vec3::new(512, 10 * FP_ONE, 512), Color::new(255, 255, 255), FP_ONE)
}

#[test]
fn material_table_is_fixed() {
    let t = test_textures();
    assert_eq!(t.grass_material.albedo, [1024, 51, 0, 0]);
    assert_eq!(t.grass_material.specular, 1024);
    assert_eq!(t.grass_material.texture, Some(0));
    assert_eq!(t.obsidian_material.albedo, [461, 10, 0, 0]);
    assert_eq!(t.obsidian_material.refractive_index, 205);
    assert_eq!(t.shroomlight_material.emissive_color, Color::new(66, 47, 5));
    assert_eq!(t.smoker_material.texture, Some(10));
    assert_eq!(t.table.len(), 11);
}

#[test]
fn scene_builders_place_the_expected_blocks() {
    let t = test_textures();
    let portal = voxelray::create_nether_portal(&t);
    assert_eq!(portal.len(), 10);
    assert_eq!(portal[0].min, Vec3::new(3 * FP_ONE, 2 * FP_ONE, 6 * FP_ONE));
    assert_eq!(portal[0].max, Vec3::new(4 * FP_ONE, 3 * FP_ONE, 7 * FP_ONE));
    assert_eq!(portal[1].material, t.obsidian_material);

    let tree = voxelray::create_tree(&t);
    assert_eq!(tree.len(), 4);
    assert_eq!(tree[3].min, Vec3::new(FP_ONE, 5 * FP_ONE, 5 * FP_ONE));

    let cactus = voxelray::create_cactus(&t);
    assert_eq!(cactus.len(), 4);
    assert_eq!(cactus[1].material, t.cactus_material);

    let lights = voxelray::create_shroomlights(&t);
    assert_eq!(lights.len(), 2);
    assert_eq!(lights[1].min, Vec3::new(0, 2 * FP_ONE, 0));

    let tools = voxelray::create_player_tools(&t);
    assert_eq!(tools.len(), 10);
    assert_eq!(tools[7].material, t.smoker_material);

    let grid = voxelray::generate_grid(2, 2, 0, 0, 0, t.dirt_material);
    assert_eq!(grid.len(), 4);
    assert_eq!(grid[3].min, Vec3::new(FP_ONE, 0, FP_ONE));
    assert_eq!(grid[3].max, Vec3::new(2 * FP_ONE, FP_ONE, 2 * FP_ONE));
}

#[test]
fn lit_top_face_is_ambient_plus_full_diffuse() {
    // A single purely diffuse cube lit from straight above, viewed from
    // straight above: ambient + diffuse at full cosine, nothing else.
    let scene = vec![diffuse_cube()];
    let textures = test_textures();
    let light = overhead_light();
    let origin = Vec3::new(512, 5 * FP_ONE, 512);
    let dir = Vec3::new(0, -FP_ONE, 0);
    let c = cast_ray(&origin, &dir, &scene, &light, 0, &textures);
    // ambient (25,25,25) * 0.3 = (7,7,7); diffuse = the material color.
    assert_eq!(c, Color::new(207, 37, 47));
}

#[test]
fn neighbouring_block_shadow_lowers_intensity() {
    // The same shading point with and without an occluder between it and
    // the light: the shadowed reading is strictly darker.
    let textures = test_textures();
    let light = overhead_light();
    let origin = Vec3::new(512, 3 * FP_ONE, 512);
    let dir = Vec3::new(0, -FP_ONE, 0);
    let open_scene = vec![diffuse_cube()];
    let blocked_scene = vec![
        diffuse_cube(),
        Cube {
            min: Vec3::new(0, 5 * FP_ONE, 0),
            max: Vec3::new(FP_ONE, 6 * FP_ONE, FP_ONE),
            material: diffuse_cube().material,
        },
    ];
    let lit = cast_ray(&origin, &dir, &open_scene, &light, 0, &textures);
    let shaded = cast_ray(&origin, &dir, &blocked_scene, &light, 0, &textures);
    let brightness = |c: Color| c.r as u32 + c.g as u32 + c.b as u32;
    assert!(brightness(shaded) < brightness(lit), "{shaded:?} vs {lit:?}");
}

#[test]
fn depth_cap_returns_the_environment() {
    // At the recursion cap the tracer answers with the skybox sample,
    // whatever the materials would otherwise do.
    let mirror = Material::new(Color::new(255, 255, 255), FP_ONE, [0, 0, FP_ONE, FP_ONE], 1536);
    let scene = vec![Cube {
        min: Vec3::new(0, 0, 0),
        max: Vec3::new(FP_ONE, FP_ONE, FP_ONE),
        material: mirror,
    }];
    let textures = test_textures();
    let light = overhead_light();
    let origin = Vec3::new(512, 5 * FP_ONE, 512);
    let dir = Vec3::new(0, -FP_ONE, 0);
    let capped = cast_ray(&origin, &dir, &scene, &light, 3, &textures);
    let expected = voxelray::get_skybox_color(&dir, &textures.skybox_texture);
    assert_eq!(capped, expected);
    // One step below the cap the hit is shaded instead.
    let below = cast_ray(&origin, &dir, &scene, &light, 2, &textures);
    assert_ne!(below, expected);
}

#[test]
fn escaping_ray_returns_exactly_the_skybox_color() {
    let scene = vec![diffuse_cube()];
    let textures = test_textures();
    let light = overhead_light();
    let origin = Vec3::new(512, 5 * FP_ONE, 512);
    let dir = Vec3::new(0, FP_ONE, 0);
    let c = cast_ray(&origin, &dir, &scene, &light, 0, &textures);
    assert_eq!(c, voxelray::get_skybox_color(&dir, &textures.skybox_texture));
}

#[test]
fn reflective_material_blends_the_mirror_ray() {
    let mirror = Material::new(Color::new(10, 10, 10), FP_ONE, [256, 0, FP_ONE, 0], 1536);
    let scene = vec![Cube {
        min: Vec3::new(0, 0, 0),
        max: Vec3::new(FP_ONE, FP_ONE, FP_ONE),
        material: mirror,
    }];
    let textures = test_textures();
    let light = overhead_light();
    let origin = Vec3::new(512, 5 * FP_ONE, 512);
    let dir = Vec3::new(0, -FP_ONE, 0);
    let with_mirror = cast_ray(&origin, &dir, &scene, &light, 0, &textures);
    let plain = cast_ray(&origin, &dir, &vec![diffuse_cube()], &light, 0, &textures);
    assert_ne!(with_mirror, plain);
}

#[test]
fn rendering_the_same_state_twice_is_bit_identical() {
    let textures = test_textures();
    let light = overhead_light();
    let camera = Camera::new(
        Vec3::new(-5 * FP_ONE, 5 * FP_ONE, -10 * FP_ONE),
        Vec3::new(0, 0, 0),
        Vec3::new(0, FP_ONE, 0),
    );
    let scene = vec![diffuse_cube(), diffuse_cube()];
    let mut fb1 = Framebuffer::new(8, 6);
    let mut fb2 = Framebuffer::new(8, 6);
    render(&mut fb1, &scene, &camera, &light, &textures);
    render(&mut fb2, &scene, &camera, &light, &textures);
    assert_eq!(fb1.buffer, fb2.buffer);
    assert_eq!(fb1.buffer.len(), 48);
}

#[test]
fn framebuffer_point_and_clear() {
    let mut fb = Framebuffer::new(4, 4);
    fb.set_background_color(0x333355);
    fb.clear();
    assert!(fb.buffer.iter().all(|&p| p == 0x333355));
    fb.set_current_color(0xFF0000);
    fb.point(2, 1);
    assert_eq!(fb.buffer[1 * 4 + 2], 0xFF0000);
    assert_eq!(fb.buffer[0], 0x333355);
}

#[test]
fn camera_basis_and_motion() {
    let mut cam = Camera::new(
        Vec3::new(0, 0, 0),
        Vec3::new(0, 0, -2 * FP_ONE),
        Vec3::new(0, FP_ONE, 0),
    );
    assert_eq!(cam.forward, Vec3::new(0, 0, -FP_ONE));
    assert_eq!(cam.right, Vec3::new(FP_ONE, 0, 0));
    assert_eq!(cam.true_up, Vec3::new(0, FP_ONE, 0));
    // A view-space forward ray comes out along the camera's forward axis.
    let world = cam.basis_change(&Vec3::new(0, 0, -FP_ONE));
    assert_eq!(world, Vec3::new(0, 0, -FP_ONE));

    // Zoom moves the eye along the axis and clamps short of the target.
    cam.zoom(FP_ONE);
    assert_eq!(cam.eye, Vec3::new(0, 0, -FP_ONE));
    cam.zoom(10 * FP_ONE);
    assert_eq!(cam.eye.z, -2 * FP_ONE + voxelray::camera::MIN_ZOOM_DIST);

    // The identity rotation leaves the orbit unchanged.
    let eye_before = cam.eye;
    cam.orbit(0, FP_ONE, 0, FP_ONE);
    assert_eq!(cam.eye, eye_before);

    // Moving the center translates eye and target together.
    let center_before = cam.center;
    cam.move_center(Vec3::new(100, 0, -50));
    assert_eq!(cam.eye, eye_before.add(&Vec3::new(100, 0, -50)));
    assert_eq!(cam.center, center_before.add(&Vec3::new(100, 0, -50)));
}

#[test]
fn empty_scene_always_answers_with_the_environment() {
    let scene: Vec<Cube> = Vec::new();
    let textures = test_textures();
    let light = overhead_light();
    let dir = Vec3::new(300, -700, 500);
    let c = cast_ray(&Vec3::new(0, 0, 0), &dir, &scene, &light, 0, &textures);
    assert_eq!(c, voxelray::get_skybox_color(&dir, &textures.skybox_texture));
}

#[test]
fn camera_with_coincident_eye_and_target_stays_finite() {
    // A degenerate look direction normalizes to the zero vector instead of
    // poisoning the basis; every derived field stays a plain number.
    let cam = Camera::new(Vec3::new(0, 0, 0), Vec3::new(0, 0, 0), Vec3::new(0, FP_ONE, 0));
    assert_eq!(cam.forward, Vec3::new(0, 0, 0));
    let r = cam.basis_change(&Vec3::new(0, 0, -FP_ONE));
    assert_eq!(r, Vec3::new(0, 0, 0));
}
