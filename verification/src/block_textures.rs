//! The scene's material set and texture table.
//!
//! Materials hold indices into the table rather than pixel data; the caller
//! supplies the decoded textures, one per material in table order, plus the
//! spherically-mapped skybox.  The optical parameters of every block
//! material are fixed here and pinned by `Textures::new`'s contract.

use vstd::prelude::*;
use crate::color::Color;
use crate::material::Material;
use crate::texture::{Texture, tex_wf};

verus! {

/// Table index of each block texture.
pub const TEX_GRASS: usize = 0;

pub const TEX_OBSIDIAN: usize = 1;

pub const TEX_BOOKSHELF: usize = 2;

pub const TEX_CACTUS: usize = 3;

pub const TEX_DIRT: usize = 4;

pub const TEX_OAK_LOG: usize = 5;

pub const TEX_OAK_PLANKS: usize = 6;

pub const TEX_CRAFTING_TABLE: usize = 7;

pub const TEX_SAND: usize = 8;

pub const TEX_SHROOMLIGHT: usize = 9;

pub const TEX_SMOKER: usize = 10;

/// Number of entries the texture table must hold.
pub const TEX_COUNT: usize = 11;

pub struct Textures {
    pub grass_material: Material,
    pub obsidian_material: Material,
    pub bookshelf_material: Material,
    pub cactus_material: Material,
    pub dirt_material: Material,
    pub oak_log_material: Material,
    pub oak_planks_material: Material,
    pub sand_material: Material,
    pub shroomlight_material: Material,
    pub smoker_material: Material,
    pub crafting_table_material: Material,
    pub skybox_texture: Texture,
    /// Decoded pixel buffers, indexed by the `TEX_*` handles.
    pub table: Vec<Texture>,
}

pub open spec fn black_s() -> Color {
    Color { r: 0u8, g: 0u8, b: 0u8 }
}

pub open spec fn textured_mat_s(
    specular: i64,
    albedo: [i64; 4],
    refractive_index: i64,
    texture: usize,
    emissive_color: Color,
) -> Material {
    Material {
        diffuse_color: black_s(),
        specular,
        albedo,
        refractive_index,
        texture: Some(texture),
        emissive_color,
    }
}

pub open spec fn grass_material_s() -> Material {
    textured_mat_s(1024, [1024, 51, 0, 0], 0, 0, black_s())
}

pub open spec fn obsidian_material_s() -> Material {
    textured_mat_s(205, [461, 10, 0, 0], 205, 1, black_s())
}

pub open spec fn bookshelf_material_s() -> Material {
    textured_mat_s(1024, [973, 102, 0, 0], 1024, 2, black_s())
}

pub open spec fn cactus_material_s() -> Material {
    textured_mat_s(1024, [512, 10, 0, 0], 1536, 3, black_s())
}

pub open spec fn dirt_material_s() -> Material {
    textured_mat_s(1024, [1024, 51, 0, 0], 0, 4, black_s())
}

pub open spec fn oak_log_material_s() -> Material {
    textured_mat_s(1024, [973, 102, 0, 0], 1331, 5, black_s())
}

pub open spec fn oak_planks_material_s() -> Material {
    textured_mat_s(1024, [973, 102, 0, 0], 1331, 6, black_s())
}

pub open spec fn crafting_table_material_s() -> Material {
    textured_mat_s(1024, [973, 102, 0, 0], 1331, 7, black_s())
}

pub open spec fn sand_material_s() -> Material {
    textured_mat_s(1024, [922, 205, 0, 0], 0, 8, black_s())
}

pub open spec fn shroomlight_material_s() -> Material {
    textured_mat_s(205, [1024, 0, 0, 0], 1024, 9, Color { r: 66u8, g: 47u8, b: 5u8 })
}

pub open spec fn smoker_material_s() -> Material {
    textured_mat_s(1024, [973, 102, 0, 0], 1229, 10, black_s())
}

/// The textures a ray trace samples are all well formed.
pub open spec fn table_wf(t: Textures) -> bool {
    &&& tex_wf(t.skybox_texture)
    &&& forall|i: int| 0 <= i < t.table.len() ==> tex_wf(#[trigger] t.table@[i])
}

/// Full well-formedness: a complete table and the fixed material set.
pub open spec fn textures_wf(t: Textures) -> bool {
    &&& table_wf(t)
    &&& t.table.len() == TEX_COUNT
    &&& t.grass_material == grass_material_s()
    &&& t.obsidian_material == obsidian_material_s()
    &&& t.bookshelf_material == bookshelf_material_s()
    &&& t.cactus_material == cactus_material_s()
    &&& t.dirt_material == dirt_material_s()
    &&& t.oak_log_material == oak_log_material_s()
    &&& t.oak_planks_material == oak_planks_material_s()
    &&& t.sand_material == sand_material_s()
    &&& t.shroomlight_material == shroomlight_material_s()
    &&& t.smoker_material == smoker_material_s()
    &&& t.crafting_table_material == crafting_table_material_s()
}

impl Textures {
    /// Build the material set over a caller-supplied texture table
    /// (`TEX_COUNT` decoded textures in handle order) and skybox.
    pub fn new(table: Vec<Texture>, skybox_texture: Texture) -> (t: Textures)
        requires
            table.len() == TEX_COUNT,
            forall|i: int| 0 <= i < table.len() ==> tex_wf(#[trigger] table@[i]),
            tex_wf(skybox_texture),
        ensures
            textures_wf(t),
            t.table == table,
            t.skybox_texture == skybox_texture,
    {
        let grass_material = Material::new_with_texture(
            1024,
            [1024, 51, 0, 0],
            0,
            TEX_GRASS,
            Color::black(),
        );
        let obsidian_material = Material::new_with_texture(
            205,
            [461, 10, 0, 0],
            205,
            TEX_OBSIDIAN,
            Color::black(),
        );
        let bookshelf_material = Material::new_with_texture(
            1024,
            [973, 102, 0, 0],
            1024,
            TEX_BOOKSHELF,
            Color::black(),
        );
        let cactus_material = Material::new_with_texture(
            1024,
            [512, 10, 0, 0],
            1536,
            TEX_CACTUS,
            Color::black(),
        );
        let dirt_material = Material::new_with_texture(
            1024,
            [1024, 51, 0, 0],
            0,
            TEX_DIRT,
            Color::black(),
        );
        let oak_log_material = Material::new_with_texture(
            1024,
            [973, 102, 0, 0],
            1331,
            TEX_OAK_LOG,
            Color::black(),
        );
        let oak_planks_material = Material::new_with_texture(
            1024,
            [973, 102, 0, 0],
            1331,
            TEX_OAK_PLANKS,
            Color::black(),
        );
        let crafting_table_material = Material::new_with_texture(
            1024,
            [973, 102, 0, 0],
            1331,
            TEX_CRAFTING_TABLE,
            Color::black(),
        );
        let sand_material = Material::new_with_texture(
            1024,
            [922, 205, 0, 0],
            0,
            TEX_SAND,
            Color::black(),
        );
        let shroomlight_material = Material::new_with_texture(
            205,
            [1024, 0, 0, 0],
            1024,
            TEX_SHROOMLIGHT,
            Color::new(66, 47, 5),
        );
        let smoker_material = Material::new_with_texture(
            1024,
            [973, 102, 0, 0],
            1229,
            TEX_SMOKER,
            Color::black(),
        );
        Textures {
            grass_material,
            obsidian_material,
            bookshelf_material,
            cactus_material,
            dirt_material,
            oak_log_material,
            oak_planks_material,
            sand_material,
            shroomlight_material,
            smoker_material,
            crafting_table_material,
            skybox_texture,
            table,
        }
    }
}

} // verus!
