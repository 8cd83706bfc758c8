//! Per-pixel rendering: pixel coordinates to a view ray, the ray through
//! the camera basis into the tracer, the resulting color into the
//! framebuffer.  Pixels are independent: the whole frame is pinned, pixel
//! by pixel, to `pixel_color_s`, a pure function of the scene state, so
//! rendering the same state twice gives bit-identical buffers.

use vstd::prelude::*;
use crate::fixed::{sat, fadd_s, fsub_s, fneg_s, fmul_s, fdiv_s, fx_add, fx_sub, fx_neg, fx_mul,
    fx_div, FP_ONE, FP_NEG_ONE};
use crate::vec3::{Vec3, v_norm_s};
use crate::color::{Color, c_hex_s};
use crate::light::{Light, light_wf};
use crate::cube::Cube;
use crate::camera::{Camera, camera_wf, basis_change_s};
use crate::block_textures::{Textures, table_wf};
use crate::tracer::{cast_ray, cast_ray_s, scene_wf};
use crate::framebuffer::{Framebuffer, fb_wf};

verus! {

/// tan of half the vertical field of view (pi / 3), in fixed point.
pub const TAN_HALF_FOV: i64 = 591;

/// The color of one pixel: normalized device coordinates, corrected for
/// aspect ratio and field of view, make a view-space ray that the camera
/// basis rotates into the world; the tracer shades it at depth 0.
pub open spec fn pixel_color_s(
    width: usize,
    height: usize,
    camera: Camera,
    objects: Seq<Cube>,
    light: Light,
    textures: Textures,
    x: usize,
    y: usize,
) -> Color {
    let wfx = sat(width * FP_ONE);
    let hfx = sat(height * FP_ONE);
    let sx0 = fsub_s(fdiv_s(sat(2 * x * FP_ONE), wfx), FP_ONE);
    let sy0 = fadd_s(fneg_s(fdiv_s(sat(2 * y * FP_ONE), hfx)), FP_ONE);
    let aspect = fdiv_s(wfx, hfx);
    let sx = fmul_s(fmul_s(sx0, aspect), TAN_HALF_FOV);
    let sy = fmul_s(sy0, TAN_HALF_FOV);
    let dir = v_norm_s(Vec3 { x: sx, y: sy, z: FP_NEG_ONE });
    let rotated = basis_change_s(camera, dir);
    cast_ray_s(camera.eye, rotated, objects, light, 0u32, textures)
}

/// Shade the pixel at (x, y) and pack it.
pub fn render_pixel(
    width: usize,
    height: usize,
    camera: &Camera,
    objects: &Vec<Cube>,
    light: &Light,
    textures: &Textures,
    x: usize,
    y: usize,
) -> (h: u32)
    requires
        1 <= width <= 4096,
        1 <= height <= 4096,
        x < width,
        y < height,
        camera_wf(*camera),
        light_wf(*light),
        table_wf(*textures),
        scene_wf(objects@, textures.table@.len() as int),
    ensures
        h == c_hex_s(
            #[trigger] pixel_color_s(width, height, *camera, objects@, *light, *textures, x, y),
        ),
{
    let wfx: i64 = (width as i64) * FP_ONE;
    let hfx: i64 = (height as i64) * FP_ONE;
    let xfx: i64 = (2 * (x as i64)) * FP_ONE;
    let yfx: i64 = (2 * (y as i64)) * FP_ONE;
    let sx0 = fx_sub(fx_div(xfx, wfx), FP_ONE);
    let sy0 = fx_add(fx_neg(fx_div(yfx, hfx)), FP_ONE);
    let aspect = fx_div(wfx, hfx);
    let sx = fx_mul(fx_mul(sx0, aspect), TAN_HALF_FOV);
    let sy = fx_mul(sy0, TAN_HALF_FOV);
    let dir = Vec3::new(sx, sy, FP_NEG_ONE).normalize();
    let rotated = camera.basis_change(&dir);
    let pixel_color = cast_ray(&camera.eye, &rotated, objects, light, 0, textures);
    pixel_color.to_hex()
}

/// Indices of distinct pixels of one row-major buffer never collide.
proof fn lemma_pixel_index_distinct(w: int, x1: int, y1: int, x2: int, y2: int)
    requires
        0 <= x1 < w,
        0 <= x2 < w,
        0 <= y1,
        0 <= y2,
        (x1, y1) != (x2, y2),
    ensures
        y1 * w + x1 != y2 * w + x2,
{
    if y1 == y2 {
    } else if y1 < y2 {
        assert((y1 + 1) * w <= y2 * w) by (nonlinear_arith)
            requires
                y1 + 1 <= y2,
                w > 0,
        ;
        assert((y1 + 1) * w == y1 * w + w) by (nonlinear_arith);
    } else {
        assert((y2 + 1) * w <= y1 * w) by (nonlinear_arith)
            requires
                y2 + 1 <= y1,
                w > 0,
        ;
        assert((y2 + 1) * w == y2 * w + w) by (nonlinear_arith);
    }
}

/// Render a whole frame.  Afterwards every pixel of the buffer holds the
/// packed color that `pixel_color_s` gives for its coordinates; nothing
/// else of the scene state is read or written, so the frame is a pure
/// function of (camera, objects, light, textures) and the buffer size.
#[verifier::rlimit(100)]
pub fn render(
    framebuffer: &mut Framebuffer,
    objects: &Vec<Cube>,
    camera: &Camera,
    light: &Light,
    textures: &Textures,
)
    requires
        fb_wf(*old(framebuffer)),
        camera_wf(*camera),
        light_wf(*light),
        table_wf(*textures),
        scene_wf(objects@, textures.table@.len() as int),
    ensures
        final(framebuffer).width == old(framebuffer).width,
        final(framebuffer).height == old(framebuffer).height,
        final(framebuffer).background_color == old(framebuffer).background_color,
        final(framebuffer).buffer.len() == old(framebuffer).buffer.len(),
        fb_wf(*final(framebuffer)),
        forall|xx: int, yy: int|
            0 <= xx < old(framebuffer).width && 0 <= yy < old(framebuffer).height ==> final(framebuffer).buffer@[yy * old(framebuffer).width + xx] == c_hex_s(
                #[trigger] pixel_color_s(
                    old(framebuffer).width,
                    old(framebuffer).height,
                    *camera,
                    objects@,
                    *light,
                    *textures,
                    xx as usize,
                    yy as usize,
                ),
            ),
{
    let width = framebuffer.width;
    let height = framebuffer.height;
    let mut y: usize = 0;
    while y < height
        invariant
            y <= height,
            width == old(framebuffer).width,
            height == old(framebuffer).height,
            framebuffer.width == width,
            framebuffer.height == height,
            framebuffer.background_color == old(framebuffer).background_color,
            framebuffer.buffer.len() == old(framebuffer).buffer.len(),
            fb_wf(*framebuffer),
            camera_wf(*camera),
            light_wf(*light),
            table_wf(*textures),
            scene_wf(objects@, textures.table@.len() as int),
            forall|xx: int, yy: int|
                0 <= xx < width && 0 <= yy < y ==> framebuffer.buffer@[yy * width + xx]
                    == c_hex_s(
                    #[trigger] pixel_color_s(
                        width,
                        height,
                        *camera,
                        objects@,
                        *light,
                        *textures,
                        xx as usize,
                        yy as usize,
                    ),
                ),
        decreases height - y,
    {
        let mut x: usize = 0;
        while x < width
            invariant
                x <= width,
                y < height,
                width == old(framebuffer).width,
                height == old(framebuffer).height,
                framebuffer.width == width,
                framebuffer.height == height,
                framebuffer.background_color == old(framebuffer).background_color,
                framebuffer.buffer.len() == old(framebuffer).buffer.len(),
                fb_wf(*framebuffer),
                camera_wf(*camera),
                light_wf(*light),
                table_wf(*textures),
                scene_wf(objects@, textures.table@.len() as int),
                forall|xx: int, yy: int|
                    0 <= xx < width && 0 <= yy < y ==> framebuffer.buffer@[yy * width + xx]
                        == c_hex_s(
                        #[trigger] pixel_color_s(
                            width,
                            height,
                            *camera,
                            objects@,
                            *light,
                            *textures,
                            xx as usize,
                            yy as usize,
                        ),
                    ),
                forall|xx: int|
                    0 <= xx < x ==> framebuffer.buffer@[y * width + xx] == c_hex_s(
                        #[trigger] pixel_color_s(
                            width,
                            height,
                            *camera,
                            objects@,
                            *light,
                            *textures,
                            xx as usize,
                            y,
                        ),
                    ),
            decreases width - x,
        {
            let color = render_pixel(width, height, camera, objects, light, textures, x, y);
            framebuffer.set_current_color(color);
            framebuffer.point(x, y);
            proof {
                assert forall|xx: int, yy: int|
                    0 <= xx < width && 0 <= yy < y implies framebuffer.buffer@[yy * width + xx]
                    == c_hex_s(
                    #[trigger] pixel_color_s(
                        width,
                        height,
                        *camera,
                        objects@,
                        *light,
                        *textures,
                        xx as usize,
                        yy as usize,
                    ),
                ) by {
                    lemma_pixel_index_distinct(width as int, xx, yy, x as int, y as int);
                    assert(yy * width + xx < framebuffer.buffer.len()) by (nonlinear_arith)
                        requires
                            0 <= xx < width,
                            0 <= yy < y,
                            y < height,
                            framebuffer.buffer.len() == width * height,
                    ;
                }
                assert forall|xx: int|
                    0 <= xx < x implies framebuffer.buffer@[y * width + xx] == c_hex_s(
                    #[trigger] pixel_color_s(
                        width,
                        height,
                        *camera,
                        objects@,
                        *light,
                        *textures,
                        xx as usize,
                        y,
                    ),
                ) by {
                    lemma_pixel_index_distinct(width as int, xx, y as int, x as int, y as int);
                    assert(y * width + xx < framebuffer.buffer.len()) by (nonlinear_arith)
                        requires
                            0 <= xx < width,
                            0 <= y < height,
                            framebuffer.buffer.len() == width * height,
                    ;
                }
            }
            x = x + 1;
        }
        y = y + 1;
    }
}

/// Two renders of equal state fill equal buffers: the frame is a function
/// of the scene state alone, with no hidden mutable input.
pub proof fn lemma_render_deterministic(
    width: usize,
    height: usize,
    camera: Camera,
    objects: Seq<Cube>,
    light: Light,
    textures: Textures,
    buf1: Seq<u32>,
    buf2: Seq<u32>,
)
    requires
        buf1.len() == width * height,
        buf2.len() == width * height,
        forall|xx: int, yy: int|
            0 <= xx < width && 0 <= yy < height ==> buf1[yy * width + xx] == c_hex_s(
                #[trigger] pixel_color_s(width, height, camera, objects, light, textures, xx as usize,
                yy as usize),
            ),
        forall|xx: int, yy: int|
            0 <= xx < width && 0 <= yy < height ==> buf2[yy * width + xx] == c_hex_s(
                #[trigger] pixel_color_s(width, height, camera, objects, light, textures, xx as usize,
                yy as usize),
            ),
    ensures
        buf1 =~= buf2,
{
    assert forall|i: int| 0 <= i < buf1.len() implies buf1[i] == buf2[i] by {
        let yy = i / (width as int);
        let xx = i % (width as int);
        vstd::arithmetic::div_mod::lemma_fundamental_div_mod(i, width as int);
        vstd::arithmetic::div_mod::lemma_mod_bound(i, width as int);
        vstd::arithmetic::div_mod::lemma_div_pos_is_pos(i, width as int);
        assert(yy < height) by (nonlinear_arith)
            requires
                i < width * height,
                i == (width as int) * yy + xx,
                0 <= xx < width,
                width > 0,
                yy >= 0,
        ;
        assert(yy * (width as int) + xx == i) by (nonlinear_arith)
            requires
                i == (width as int) * yy + xx,
        ;
        let c = pixel_color_s(width, height, camera, objects, light, textures, xx as usize,
            yy as usize);
        assert(buf1[yy * (width as int) + xx] == c_hex_s(c));
        assert(buf2[yy * (width as int) + xx] == c_hex_s(c));
    }
}

} // verus!
