//! Surface materials: optical parameters plus an optional texture handle.
//!
//! Materials never own pixel data; a texture is an index into an
//! externally-owned table of decoded textures, so materials are cheap to
//! copy and share.  All scalar parameters are fixed-point (`FP_ONE` = 1.0).

use vstd::prelude::*;
use crate::color::Color;
use crate::fixed::FP_LIMIT;
use crate::texture::{Texture, tex_wf, sample_s};

verus! {

#[derive(Clone, Copy, Debug, PartialEq)]
pub struct Material {
    pub diffuse_color: Color,
    /// Phong specular exponent, fixed-point.
    pub specular: i64,
    /// Shading weights: [diffuse, specular, reflective, refractive], fixed-point.
    pub albedo: [i64; 4],
    /// Fixed-point refractive index.
    pub refractive_index: i64,
    /// Index into the scene's texture table, if the surface is textured.
    pub texture: Option<usize>,
    pub emissive_color: Color,
}

/// Parameters are non-negative and representable.
pub open spec fn mat_wf(m: Material) -> bool {
    &&& 0 <= m.specular <= FP_LIMIT
    &&& 0 <= m.albedo[0] <= FP_LIMIT
    &&& 0 <= m.albedo[1] <= FP_LIMIT
    &&& 0 <= m.albedo[2] <= FP_LIMIT
    &&& 0 <= m.albedo[3] <= FP_LIMIT
    &&& 0 <= m.refractive_index <= FP_LIMIT
}

/// The material's texture handle, if any, points into a table of `n` entries.
pub open spec fn mat_tex_ok(m: Material, n: int) -> bool {
    match m.texture {
        Some(h) => h < n,
        None => true,
    }
}

/// The color the diffuse term samples: the texture when one is present,
/// the flat diffuse color otherwise.
pub open spec fn diffuse_color_s(m: Material, u: i64, v: i64, table: Seq<Texture>) -> Color {
    match m.texture {
        Some(h) => sample_s(table[h as int], u, v),
        None => m.diffuse_color,
    }
}

impl Material {
    pub fn new(diffuse_color: Color, specular: i64, albedo: [i64; 4], refractive_index: i64)
        -> (m: Material)
        requires
            0 <= specular <= FP_LIMIT,
            0 <= albedo[0] <= FP_LIMIT,
            0 <= albedo[1] <= FP_LIMIT,
            0 <= albedo[2] <= FP_LIMIT,
            0 <= albedo[3] <= FP_LIMIT,
            0 <= refractive_index <= FP_LIMIT,
        ensures
            m == (Material {
                diffuse_color,
                specular,
                albedo,
                refractive_index,
                texture: None::<usize>,
                emissive_color: Color { r: 0u8, g: 0u8, b: 0u8 },
            }),
            mat_wf(m),
    {
        Material {
            diffuse_color,
            specular,
            albedo,
            refractive_index,
            texture: None,
            emissive_color: Color::black(),
        }
    }

    pub fn new_with_texture(
        specular: i64,
        albedo: [i64; 4],
        refractive_index: i64,
        texture: usize,
        emissive_color: Color,
    ) -> (m: Material)
        requires
            0 <= specular <= FP_LIMIT,
            0 <= albedo[0] <= FP_LIMIT,
            0 <= albedo[1] <= FP_LIMIT,
            0 <= albedo[2] <= FP_LIMIT,
            0 <= albedo[3] <= FP_LIMIT,
            0 <= refractive_index <= FP_LIMIT,
        ensures
            m == (Material {
                diffuse_color: Color { r: 0u8, g: 0u8, b: 0u8 },
                specular,
                albedo,
                refractive_index,
                texture: Some(texture),
                emissive_color,
            }),
            mat_wf(m),
    {
        Material {
            diffuse_color: Color::black(),
            specular,
            albedo,
            refractive_index,
            texture: Some(texture),
            emissive_color,
        }
    }

    /// Diffuse color at surface coordinates (u, v), given the texture table.
    pub fn get_diffuse_color(&self, u: i64, v: i64, table: &Vec<Texture>) -> (c: Color)
        requires
            match self.texture {
                Some(h) => h < table.len() && tex_wf(table[h as int]),
                None => true,
            },
        ensures
            c == diffuse_color_s(*self, u, v, table@),
    {
        match self.texture {
            Some(h) => table[h].sample(u, v),
            None => self.diffuse_color,
        }
    }
}

} // verus!
