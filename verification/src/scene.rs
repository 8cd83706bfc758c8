//! Scene assembly: the diorama's cubes, placed on a whole-block lattice.
//! Every builder's contract pins the exact cubes it produces.

use vstd::prelude::*;
use crate::fixed::{in_range, sat, fx_add, fx_sat, FP_ONE};
use crate::vec3::Vec3;
use crate::material::{Material, mat_wf};
use crate::cube::{Cube, cube_wf};
use crate::block_textures::Textures;

verus! {

/// The unit cube whose minimum corner sits at whole-block coordinates
/// (bx, by, bz).
pub open spec fn cube_at_s(bx: int, by: int, bz: int, m: Material) -> Cube {
    Cube {
        min: Vec3 { x: sat(bx * FP_ONE), y: sat(by * FP_ONE), z: sat(bz * FP_ONE) },
        max: Vec3 {
            x: sat((bx + 1) * FP_ONE),
            y: sat((by + 1) * FP_ONE),
            z: sat((bz + 1) * FP_ONE),
        },
        material: m,
    }
}

/// One cell of a grid laid out from fixed-point start coordinates: cell
/// (gx, gy) spans one unit on x and z from the start corner, one unit up.
pub open spec fn grid_cube_s(sx: i64, sy: i64, sz: i64, m: Material, gx: int, gy: int) -> Cube {
    Cube {
        min: Vec3 { x: sat(sx + gx * FP_ONE), y: sy, z: sat(sz + gy * FP_ONE) },
        max: Vec3 {
            x: sat(sx + (gx + 1) * FP_ONE),
            y: sat(sy + FP_ONE),
            z: sat(sz + (gy + 1) * FP_ONE),
        },
        material: m,
    }
}

fn cube_at(bx: i64, by: i64, bz: i64, m: Material) -> (c: Cube)
    requires
        -1000 <= bx <= 1000,
        -1000 <= by <= 1000,
        -1000 <= bz <= 1000,
        mat_wf(m),
    ensures
        c == cube_at_s(bx as int, by as int, bz as int, m),
        cube_wf(c),
{
    Cube {
        min: Vec3 { x: fx_sat(bx * FP_ONE), y: fx_sat(by * FP_ONE), z: fx_sat(bz * FP_ONE) },
        max: Vec3 {
            x: fx_sat((bx + 1) * FP_ONE),
            y: fx_sat((by + 1) * FP_ONE),
            z: fx_sat((bz + 1) * FP_ONE),
        },
        material: m,
    }
}

/// A width x height sheet of unit cubes, one block thick, starting at the
/// given fixed-point corner; cell (gx, gy) lands at index gy * width + gx.
pub fn generate_grid(
    width: usize,
    height: usize,
    start_x: i64,
    start_y: i64,
    start_z: i64,
    material: Material,
) -> (r: Vec<Cube>)
    requires
        width <= 1024,
        height <= 1024,
        in_range(start_x),
        in_range(start_y),
        in_range(start_z),
        mat_wf(material),
    ensures
        r@.len() == width * height,
        forall|gx: int, gy: int|
            0 <= gx < width && 0 <= gy < height ==> r@[gy * width + gx] == grid_cube_s(
                start_x,
                start_y,
                start_z,
                material,
                gx,
                gy,
            ),
        forall|i: int| 0 <= i < r@.len() ==> cube_wf(#[trigger] r@[i]) && r@[i].material
            == material,
{
    let mut objects: Vec<Cube> = Vec::new();
    let mut gy: usize = 0;
    while gy < height
        invariant
            gy <= height,
            width <= 1024,
            height <= 1024,
            in_range(start_x),
            in_range(start_y),
            in_range(start_z),
            mat_wf(material),
            objects@.len() == gy * width,
            forall|xx: int, yy: int|
                0 <= xx < width && 0 <= yy < gy ==> objects@[yy * width + xx] == grid_cube_s(
                    start_x,
                    start_y,
                    start_z,
                    material,
                    xx,
                    yy,
                ),
            forall|i: int| 0 <= i < objects@.len() ==> cube_wf(#[trigger] objects@[i])
                && objects@[i].material == material,
        decreases height - gy,
    {
        let mut gx: usize = 0;
        while gx < width
            invariant
                gx <= width,
                gy < height,
                width <= 1024,
                height <= 1024,
                in_range(start_x),
                in_range(start_y),
                in_range(start_z),
                mat_wf(material),
                objects@.len() == gy * width + gx,
                forall|xx: int, yy: int|
                    0 <= xx < width && 0 <= yy < gy ==> objects@[yy * width + xx] == grid_cube_s(
                        start_x,
                        start_y,
                        start_z,
                        material,
                        xx,
                        yy,
                    ),
                forall|xx: int|
                    0 <= xx < gx ==> objects@[gy * width + xx] == grid_cube_s(
                        start_x,
                        start_y,
                        start_z,
                        material,
                        xx,
                        gy as int,
                    ),
                forall|i: int| 0 <= i < objects@.len() ==> cube_wf(#[trigger] objects@[i])
                    && objects@[i].material == material,
            decreases width - gx,
        {
            proof {
                assert(gy * width + gx < 1024 * 1024) by (nonlinear_arith)
                    requires
                        gy < 1024,
                        gx < width <= 1024,
                ;
                assert forall|xx: int, yy: int|
                    0 <= xx < width && 0 <= yy < gy implies #[trigger] (yy * width + xx) < gy
                    * width + gx by {
                    assert((yy + 1) * width <= gy * width) by (nonlinear_arith)
                        requires
                            yy + 1 <= gy,
                            width >= 0,
                    ;
                    assert((yy + 1) * width == yy * width + width) by (nonlinear_arith);
                }
            }
            let cx = fx_add(start_x, (gx as i64) * FP_ONE);
            let cz = fx_add(start_z, (gy as i64) * FP_ONE);
            let nx = fx_add(start_x, (gx as i64 + 1) * FP_ONE);
            let ny = fx_add(start_y, FP_ONE);
            let nz = fx_add(start_z, (gy as i64 + 1) * FP_ONE);
            let cube = Cube {
                min: Vec3 { x: cx, y: start_y, z: cz },
                max: Vec3 { x: nx, y: ny, z: nz },
                material,
            };
            objects.push(cube);
            gx = gx + 1;
        }
        proof {
            assert(gy * width + width == (gy + 1) * width) by (nonlinear_arith);
        }
        gy = gy + 1;
    }
    objects
}

/// The portal frame: a row of planks and obsidian, two pillars, and a
/// partial lintel, at the back of the diorama.
pub fn create_nether_portal(textures: &Textures) -> (r: Vec<Cube>)
    requires
        mat_wf(textures.oak_planks_material),
        mat_wf(textures.obsidian_material),
    ensures
        r@.len() == 10,
        r@[0] == cube_at_s(3, 2, 6, textures.oak_planks_material),
        r@[1] == cube_at_s(4, 2, 6, textures.obsidian_material),
        r@[2] == cube_at_s(5, 2, 6, textures.obsidian_material),
        r@[3] == cube_at_s(6, 2, 6, textures.oak_planks_material),
        r@[4] == cube_at_s(3, 3, 6, textures.obsidian_material),
        r@[5] == cube_at_s(6, 3, 6, textures.obsidian_material),
        r@[6] == cube_at_s(3, 4, 6, textures.obsidian_material),
        r@[7] == cube_at_s(6, 4, 6, textures.obsidian_material),
        r@[8] == cube_at_s(6, 5, 6, textures.oak_planks_material),
        r@[9] == cube_at_s(5, 5, 6, textures.obsidian_material),
        forall|i: int| 0 <= i < r@.len() ==> cube_wf(#[trigger] r@[i]),
{
    let mut objects: Vec<Cube> = Vec::new();
    objects.push(cube_at(3, 2, 6, textures.oak_planks_material));
    objects.push(cube_at(4, 2, 6, textures.obsidian_material));
    objects.push(cube_at(5, 2, 6, textures.obsidian_material));
    objects.push(cube_at(6, 2, 6, textures.oak_planks_material));
    objects.push(cube_at(3, 3, 6, textures.obsidian_material));
    objects.push(cube_at(6, 3, 6, textures.obsidian_material));
    objects.push(cube_at(3, 4, 6, textures.obsidian_material));
    objects.push(cube_at(6, 4, 6, textures.obsidian_material));
    objects.push(cube_at(6, 5, 6, textures.oak_planks_material));
    objects.push(cube_at(5, 5, 6, textures.obsidian_material));
    objects
}

/// A column of planks along the east edge plus the three utility blocks.
pub fn create_player_tools(textures: &Textures) -> (r: Vec<Cube>)
    requires
        mat_wf(textures.oak_planks_material),
        mat_wf(textures.smoker_material),
        mat_wf(textures.crafting_table_material),
        mat_wf(textures.bookshelf_material),
    ensures
        r@.len() == 10,
        forall|i: int|
            0 <= i < 7 ==> r@[i] == grid_cube_s(
                7168,
                1024,
                0,
                textures.oak_planks_material,
                0,
                i,
            ),
        r@[7] == cube_at_s(7, 2, 2, textures.smoker_material),
        r@[8] == cube_at_s(7, 2, 3, textures.crafting_table_material),
        r@[9] == cube_at_s(7, 2, 4, textures.bookshelf_material),
        forall|i: int| 0 <= i < r@.len() ==> cube_wf(#[trigger] r@[i]),
{
    let mut objects: Vec<Cube> = Vec::new();
    let mut wood_row = generate_grid(1, 7, 7168, 1024, 0, textures.oak_planks_material);
    objects.append(&mut wood_row);
    objects.push(cube_at(7, 2, 2, textures.smoker_material));
    objects.push(cube_at(7, 2, 3, textures.crafting_table_material));
    objects.push(cube_at(7, 2, 4, textures.bookshelf_material));
    objects
}

/// Two sand pedestals, each carrying a cactus block.
pub fn create_cactus(textures: &Textures) -> (r: Vec<Cube>)
    requires
        mat_wf(textures.sand_material),
        mat_wf(textures.cactus_material),
    ensures
        r@.len() == 4,
        r@[0] == cube_at_s(2, 2, 2, textures.sand_material),
        r@[1] == cube_at_s(2, 3, 2, textures.cactus_material),
        r@[2] == cube_at_s(3, 2, 1, textures.sand_material),
        r@[3] == cube_at_s(3, 3, 1, textures.cactus_material),
        forall|i: int| 0 <= i < r@.len() ==> cube_wf(#[trigger] r@[i]),
{
    let mut objects: Vec<Cube> = Vec::new();
    objects.push(cube_at(2, 2, 2, textures.sand_material));
    objects.push(cube_at(2, 3, 2, textures.cactus_material));
    objects.push(cube_at(3, 2, 1, textures.sand_material));
    objects.push(cube_at(3, 3, 1, textures.cactus_material));
    objects
}

/// A four-block oak trunk.
pub fn create_tree(textures: &Textures) -> (r: Vec<Cube>)
    requires
        mat_wf(textures.oak_log_material),
    ensures
        r@.len() == 4,
        r@[0] == cube_at_s(1, 2, 5, textures.oak_log_material),
        r@[1] == cube_at_s(1, 3, 5, textures.oak_log_material),
        r@[2] == cube_at_s(1, 4, 5, textures.oak_log_material),
        r@[3] == cube_at_s(1, 5, 5, textures.oak_log_material),
        forall|i: int| 0 <= i < r@.len() ==> cube_wf(#[trigger] r@[i]),
{
    let mut objects: Vec<Cube> = Vec::new();
    objects.push(cube_at(1, 2, 5, textures.oak_log_material));
    objects.push(cube_at(1, 3, 5, textures.oak_log_material));
    objects.push(cube_at(1, 4, 5, textures.oak_log_material));
    objects.push(cube_at(1, 5, 5, textures.oak_log_material));
    objects
}

/// The two glowing corner blocks.
pub fn create_shroomlights(textures: &Textures) -> (r: Vec<Cube>)
    requires
        mat_wf(textures.shroomlight_material),
    ensures
        r@.len() == 2,
        r@[0] == cube_at_s(7, 2, 0, textures.shroomlight_material),
        r@[1] == cube_at_s(0, 2, 0, textures.shroomlight_material),
        forall|i: int| 0 <= i < r@.len() ==> cube_wf(#[trigger] r@[i]),
{
    let mut objects: Vec<Cube> = Vec::new();
    objects.push(cube_at(7, 2, 0, textures.shroomlight_material));
    objects.push(cube_at(0, 2, 0, textures.shroomlight_material));
    objects
}

} // verus!
