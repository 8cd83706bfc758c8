pub mod fixed;
pub mod vec3;
pub mod color;
pub mod texture;
pub mod material;
pub mod light;
pub mod cube;
pub mod sphere;
pub mod block_textures;
pub mod tracer;
pub mod camera;
pub mod framebuffer;
pub mod renderer;
pub mod scene;

pub use renderer::{render, render_pixel};
pub use scene::{create_cactus, create_nether_portal, create_player_tools, create_shroomlights,
    create_tree, generate_grid};
pub use tracer::{cast_ray, cast_shadow, fresnel_schlick, get_skybox_color, offset_point, reflect,
    refract};
