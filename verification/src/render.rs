//! Scene traversal, Phong-style shading and the per-pixel render loop.
//!
//! `cast_ray` scans the scene linearly, keeps the nearest hit and shades it
//! with the single scene light: base color (texture-sampled or flat diffuse,
//! plus any emissive color), a diffuse term weighted by `albedo[0]` and a
//! specular term weighted by `albedo[1]`. No shadow rays are cast. `render`
//! fills a row-major `0xRRGGBB` pixel buffer through a fixed 60° vertical
//! field of view.

use vstd::prelude::*;
use crate::color::{spec_color_add, spec_color_hex, spec_color_scale, Color};
use crate::cube::smax;
use crate::fixed::{
    fx_add, fx_clamp01, fx_div, fx_from_int, fx_max, fx_mul, fx_pow_unit, fx_round_exp, fx_sub,
    pow_unit, round_exp, spec_add, spec_clamp01, spec_div, spec_from_int, spec_mul, spec_sub,
    FX_ONE,
};
use crate::light::Light;
use crate::material::spec_diffuse_color;
use crate::ray_intersect::{spec_empty_intersect, spec_object_intersect, Intersect, Object};
use crate::vec::{spec_dot, spec_vadd, spec_vneg, spec_vnormalize, spec_vscale, spec_vsub, Vec3};

verus! {

/// The tangent of half the 60° field of view, in fixed-point units.
pub const PERSPECTIVE_SCALE: i64 = 605395;

/// The mirror reflection of `incidente` about `normal`:
/// `incidente - 2 (incidente · normal) normal`.
pub open spec fn spec_reflect(incidente: Vec3, normal: Vec3) -> Vec3 {
    let d = spec_dot(incidente, normal);
    spec_vsub(incidente, spec_vscale(normal, spec_add(d, d)))
}

pub fn reflector(incidente: &Vec3, normal: &Vec3) -> (v: Vec3)
    ensures
        v == spec_reflect(*incidente, *normal),
{
    let d = incidente.dot(normal);
    incidente.sub(&normal.scale(fx_add(d, d)))
}

/// The record of the nearest hit among the objects, scanned in order; a hit
/// replaces the best so far only when its distance is strictly smaller, so
/// among equally near hits the earliest in the collection wins. The empty
/// record, at the greatest representable distance, is the identity.
pub open spec fn spec_nearest_hit(objects: Seq<Object>, o: Vec3, d: Vec3) -> Intersect
    decreases objects.len(),
{
    if objects.len() == 0 {
        spec_empty_intersect()
    } else {
        let prev = spec_nearest_hit(objects.drop_last(), o, d);
        let last = spec_object_intersect(objects.last(), o, d);
        if last.is_intersecting && last.distance < prev.distance {
            last
        } else {
            prev
        }
    }
}

/// The color of a shaded hit point: the base color (sampled or flat
/// diffuse, plus any emissive color), a diffuse term
/// `diffuse · albedo[0] · max(0, N·L) · intensity` and a specular term
/// `light color · albedo[1] · max(0, V·R)^e · intensity`, summed with
/// saturation. The Phong cosine is clamped into the unit interval and the
/// exponent is applied through its nearest natural number.
pub open spec fn spec_shade(hit: Intersect, ray_origin: Vec3, luz: Light) -> Color {
    let flat = spec_diffuse_color(hit.material, hit.u as int, hit.v as int);
    let base = match hit.material.emisividad_color {
        Some(e) => spec_color_add(flat, e),
        None => flat,
    };
    let light_dir = spec_vnormalize(spec_vsub(luz.position, hit.point));
    let view_dir = spec_vnormalize(spec_vsub(ray_origin, hit.point));
    let reflect_dir = spec_reflect(spec_vneg(light_dir), hit.normal);

    let diff = smax(0, spec_dot(hit.normal, light_dir));
    let diffuse = spec_color_scale(
        spec_color_scale(
            spec_color_scale(hit.material.diffuse, hit.material.albedo[0] as int),
            diff,
        ),
        luz.intensity as int,
    );

    let cos = spec_clamp01(spec_dot(view_dir, reflect_dir));
    let phong = pow_unit(cos, round_exp(hit.material.specular as int));
    let specular = spec_color_scale(
        spec_color_scale(spec_color_scale(luz.color, hit.material.albedo[1] as int), phong),
        luz.intensity as int,
    );

    spec_color_add(base, spec_color_add(diffuse, specular))
}

/// What a ray returns: the background color on a miss, the shaded nearest
/// hit otherwise.
pub open spec fn spec_cast_ray(
    objects: Seq<Object>,
    o: Vec3,
    d: Vec3,
    luz: Light,
    fondo: Color,
) -> Color {
    let hit = spec_nearest_hit(objects, o, d);
    if !hit.is_intersecting {
        fondo
    } else {
        spec_shade(hit, o, luz)
    }
}

/// The nearest hit among the objects, scanned in order.
fn nearest_hit(objects: &[Object], ray_origin: &Vec3, ray_direction: &Vec3) -> (i: Intersect)
    ensures
        i == spec_nearest_hit(objects@, *ray_origin, *ray_direction),
{
    let mut intersect = Intersect::empty();
    let mut idx: usize = 0;

    while idx < objects.len()
        invariant
            idx <= objects.len(),
            intersect == spec_nearest_hit(
                objects@.take(idx as int),
                *ray_origin,
                *ray_direction,
            ),
        decreases objects.len() - idx,
    {
        let tmp = objects[idx].ray_intersect(ray_origin, ray_direction);
        if tmp.is_intersecting && tmp.distance < intersect.distance {
            intersect = tmp;
        }
        idx = idx + 1;
        proof {
            assert(objects@.take(idx as int).drop_last() =~= objects@.take(idx - 1));
            assert(objects@.take(idx as int).last() == objects@[idx - 1]);
        }
    }
    proof {
        assert(objects@.take(objects@.len() as int) =~= objects@);
    }
    intersect
}

/// The color seen along one ray: the scene is scanned linearly, the nearest
/// hit is kept and shaded, and the background color is returned when
/// nothing is hit.
pub fn cast_ray(
    ray_origin: &Vec3,
    ray_direction: &Vec3,
    objects: &[Object],
    luz: &Light,
    color_fondo: &Color,
) -> (c: Color)
    ensures
        c == spec_cast_ray(objects@, *ray_origin, *ray_direction, *luz, *color_fondo),
{
    let intersect = nearest_hit(objects, ray_origin, ray_direction);

    if !intersect.is_intersecting {
        return *color_fondo;
    }

    shade(&intersect, ray_origin, luz)
}

/// The Phong-style local illumination of one hit point.
fn shade(intersect: &Intersect, ray_origin: &Vec3, luz: &Light) -> (c: Color)
    ensures
        c == spec_shade(*intersect, *ray_origin, *luz),
{
    let mut color = intersect.material.get_diffuse_color(intersect.u, intersect.v);

    if let Some(emissive_color) = intersect.material.emisividad_color {
        color = color.add(emissive_color);
    }

    let light_dir = luz.position.sub(&intersect.point).normalize();
    let view_dir = ray_origin.sub(&intersect.point).normalize();
    let reflect_dir = reflector(&light_dir.neg(), &intersect.normal);

    let diff = fx_max(0, intersect.normal.dot(&light_dir));
    let diffuse = intersect.material.diffuse.mul(intersect.material.albedo[0]).mul(diff).mul(
        luz.intensity,
    );

    let cos = fx_clamp01(view_dir.dot(&reflect_dir));
    let phong = fx_pow_unit(cos, fx_round_exp(intersect.material.specular));
    let specular = luz.color.mul(intersect.material.albedo[1]).mul(phong).mul(luz.intensity);

    color.add(diffuse.add(specular))
}

proof fn lemma_scale_to_black(c: Color, s: int)
    ensures
        spec_color_scale(c, 0) == (Color { r: 0u8, g: 0u8, b: 0u8 }),
        spec_color_scale(Color { r: 0u8, g: 0u8, b: 0u8 }, s) == (Color { r: 0u8, g: 0u8, b: 0u8 }),
{
}

/// A material whose albedo is `[0, 0]` shades to its flat or
/// texture-sampled diffuse color plus its emissive color, whatever the
/// light: the diffuse and specular terms both vanish.
pub proof fn lemma_unlit_material_shade(hit: Intersect, o: Vec3, l1: Light, l2: Light)
    requires
        hit.material.albedo[0] == 0,
        hit.material.albedo[1] == 0,
    ensures
        spec_shade(hit, o, l1) == spec_shade(hit, o, l2),
        spec_shade(hit, o, l1) == (match hit.material.emisividad_color {
            Some(e) => spec_color_add(
                spec_diffuse_color(hit.material, hit.u as int, hit.v as int),
                e,
            ),
            None => spec_diffuse_color(hit.material, hit.u as int, hit.v as int),
        }),
{
    let black = Color { r: 0u8, g: 0u8, b: 0u8 };
    let flat = spec_diffuse_color(hit.material, hit.u as int, hit.v as int);
    let base = match hit.material.emisividad_color {
        Some(e) => spec_color_add(flat, e),
        None => flat,
    };
    assert forall|l: Light| spec_shade(hit, o, l) == base by {
        let light_dir = spec_vnormalize(spec_vsub(l.position, hit.point));
        let view_dir = spec_vnormalize(spec_vsub(o, hit.point));
        let reflect_dir = spec_reflect(spec_vneg(light_dir), hit.normal);
        let diff = smax(0, spec_dot(hit.normal, light_dir));
        let cos = spec_clamp01(spec_dot(view_dir, reflect_dir));
        let phong = pow_unit(cos, round_exp(hit.material.specular as int));
        lemma_scale_to_black(hit.material.diffuse, diff);
        lemma_scale_to_black(l.color, phong);
        lemma_scale_to_black(black, l.intensity as int);
        assert(spec_color_add(base, spec_color_add(black, black)) == base);
    }
}

/// Nearest-hit selection: the record `spec_nearest_hit` keeps never lies
/// farther than any object's own hit, it is intersecting whenever some
/// object reports a hit at a representable distance, and it is always one
/// of the objects' own records.
pub proof fn lemma_nearest_hit_minimal(objects: Seq<Object>, o: Vec3, d: Vec3)
    ensures
        forall|k: int|
            0 <= k < objects.len() && (#[trigger] spec_object_intersect(
                objects[k],
                o,
                d,
            )).is_intersecting ==> spec_nearest_hit(objects, o, d).distance
                <= spec_object_intersect(objects[k], o, d).distance,
        (exists|k: int|
            0 <= k < objects.len() && (#[trigger] spec_object_intersect(
                objects[k],
                o,
                d,
            )).is_intersecting && spec_object_intersect(objects[k], o, d).distance < i64::MAX)
            ==> spec_nearest_hit(objects, o, d).is_intersecting,
        spec_nearest_hit(objects, o, d).is_intersecting ==> exists|k: int|
            0 <= k < objects.len() && #[trigger] spec_object_intersect(objects[k], o, d)
                == spec_nearest_hit(objects, o, d),
        !spec_nearest_hit(objects, o, d).is_intersecting ==> spec_nearest_hit(objects, o, d)
            == spec_empty_intersect(),
    decreases objects.len(),
{
    if objects.len() > 0 {
        let head = objects.drop_last();
        lemma_nearest_hit_minimal(head, o, d);
        let prev = spec_nearest_hit(head, o, d);
        let last = spec_object_intersect(objects.last(), o, d);
        let near = spec_nearest_hit(objects, o, d);
        assert(objects.last() == objects[objects.len() - 1]);
        assert(forall|k: int| 0 <= k < objects.len() - 1 ==> objects[k] == head[k]);
        if near.is_intersecting {
            if last.is_intersecting && last.distance < prev.distance {
                assert(spec_object_intersect(objects[objects.len() - 1], o, d) == near);
            } else {
                let k = choose|k: int|
                    0 <= k < head.len() && #[trigger] spec_object_intersect(head[k], o, d)
                        == prev;
                assert(spec_object_intersect(objects[k], o, d) == near);
            }
        }
    }
}

/// The camera state the renderer consumes: an eye position and the basis
/// that maps a camera-space ray direction into world space.
pub struct Camera {
    pub eye: Vec3,
    pub right: Vec3,
    pub up: Vec3,
    pub forward: Vec3,
}

/// A camera-space direction carried into world space along the camera's
/// basis vectors.
pub open spec fn spec_base_change(cam: Camera, d: Vec3) -> Vec3 {
    spec_vadd(
        spec_vadd(spec_vscale(cam.right, d.x as int), spec_vscale(cam.up, d.y as int)),
        spec_vscale(cam.forward, d.z as int),
    )
}

impl Camera {
    pub fn new(eye: Vec3, right: Vec3, up: Vec3, forward: Vec3) -> (cam: Camera)
        ensures
            cam == (Camera { eye, right, up, forward }),
    {
        Camera { eye, right, up, forward }
    }

    pub fn base_change(&self, d: &Vec3) -> (v: Vec3)
        ensures
            v == spec_base_change(*self, *d),
    {
        self.right.scale(d.x).add(&self.up.scale(d.y)).add(&self.forward.scale(d.z))
    }
}

/// The packed color of the pixel at column `x`, row `y` of a `width` by
/// `height` buffer: normalized device coordinates scaled by the aspect
/// ratio and the field-of-view tangent give a camera-space direction, which
/// the camera's basis carries into the world for `cast_ray`.
#[verifier::opaque]
pub open spec fn spec_render_pixel(
    x: int,
    y: int,
    width: int,
    height: int,
    cam: Camera,
    objects: Seq<Object>,
    luz: Light,
    fondo: Color,
) -> u32 {
    let sx = spec_sub(spec_div(spec_from_int(2 * x), spec_from_int(width)), FX_ONE as int);
    let sy = spec_sub(FX_ONE as int, spec_div(spec_from_int(2 * y), spec_from_int(height)));
    let aspect = spec_div(spec_from_int(width), spec_from_int(height));
    let screen_x = spec_mul(spec_mul(sx, aspect), PERSPECTIVE_SCALE as int);
    let screen_y = spec_mul(sy, PERSPECTIVE_SCALE as int);
    let dir = spec_vnormalize(
        Vec3 { x: screen_x as i64, y: screen_y as i64, z: -0x100000i64 },
    );
    let rotated = spec_base_change(cam, dir);
    spec_color_hex(spec_cast_ray(objects, cam.eye, rotated, luz, fondo))
}

fn render_pixel(
    x: usize,
    y: usize,
    width: usize,
    height: usize,
    camera: &Camera,
    objects: &[Object],
    luz: &Light,
    color_fondo: &Color,
) -> (pixel: u32)
    requires
        1 <= width <= 0x8000,
        1 <= height <= 0x8000,
        x < width,
        y < height,
    ensures
        pixel == spec_render_pixel(
            x as int,
            y as int,
            width as int,
            height as int,
            *camera,
            objects@,
            *luz,
            *color_fondo,
        ),
{
    proof {
        reveal(spec_render_pixel);
    }
    let sx = fx_sub(fx_div(fx_from_int(2 * x as i64), fx_from_int(width as i64)), FX_ONE);
    let sy = fx_sub(FX_ONE, fx_div(fx_from_int(2 * y as i64), fx_from_int(height as i64)));
    let aspect = fx_div(fx_from_int(width as i64), fx_from_int(height as i64));
    let screen_x = fx_mul(fx_mul(sx, aspect), PERSPECTIVE_SCALE);
    let screen_y = fx_mul(sy, PERSPECTIVE_SCALE);

    let ray_direction = Vec3::new(screen_x, screen_y, -FX_ONE).normalize();
    let rotated_direction = camera.base_change(&ray_direction);

    let pixel_color = cast_ray(&camera.eye, &rotated_direction, objects, luz, color_fondo);
    pixel_color.to_hex()
}

/// A pixel of an earlier row lies below the start of the current row.
proof fn lemma_row_index_bound(px: int, py: int, width: int, rows: int)
    requires
        0 <= px < width,
        0 <= py < rows,
    ensures
        0 <= py * width + px < rows * width,
{
    assert(0 <= py * width + px < rows * width) by (nonlinear_arith)
        requires
            0 <= px < width,
            0 <= py < rows;
}

/// The whole frame, one packed `0xRRGGBB` pixel per entry, row-major.
pub fn render(
    width: usize,
    height: usize,
    objects: &[Object],
    camera: &Camera,
    light: &Light,
    color_fondo: &Color,
) -> (buffer: Vec<u32>)
    requires
        1 <= width <= 0x8000,
        1 <= height <= 0x8000,
    ensures
        buffer@.len() == width * height,
        forall|x: int, y: int|
            0 <= x < width && 0 <= y < height ==> buffer@[y * width + x] == spec_render_pixel(
                x,
                y,
                width as int,
                height as int,
                *camera,
                objects@,
                *light,
                *color_fondo,
            ),
{
    let mut buffer: Vec<u32> = Vec::new();
    let mut y: usize = 0;
    while y < height
        invariant
            y <= height,
            1 <= width <= 0x8000,
            1 <= height <= 0x8000,
            buffer@.len() == y * width,
            forall|px: int, py: int|
                0 <= px < width && 0 <= py < y ==> buffer@[py * width + px] == spec_render_pixel(
                    px,
                    py,
                    width as int,
                    height as int,
                    *camera,
                    objects@,
                    *light,
                    *color_fondo,
                ),
        decreases height - y,
    {
        let mut x: usize = 0;
        while x < width
            invariant
                x <= width,
                y < height,
                1 <= width <= 0x8000,
                1 <= height <= 0x8000,
                buffer@.len() == y * width + x,
                forall|px: int, py: int|
                    0 <= px < width && 0 <= py < y ==> buffer@[py * width + px]
                        == spec_render_pixel(
                        px,
                        py,
                        width as int,
                        height as int,
                        *camera,
                        objects@,
                        *light,
                        *color_fondo,
                    ),
                forall|px: int|
                    0 <= px < x ==> buffer@[y * width + px] == spec_render_pixel(
                        px,
                        y as int,
                        width as int,
                        height as int,
                        *camera,
                        objects@,
                        *light,
                        *color_fondo,
                    ),
            decreases width - x,
        {
            let pixel = render_pixel(x, y, width, height, camera, objects, light, color_fondo);
            buffer.push(pixel);
            x = x + 1;
            proof {
                assert forall|px2: int, py2: int|
                    0 <= px2 < width && 0 <= py2 < y implies buffer@[py2 * width + px2]
                    == spec_render_pixel(
                    px2,
                    py2,
                    width as int,
                    height as int,
                    *camera,
                    objects@,
                    *light,
                    *color_fondo,
                ) by {
                    lemma_row_index_bound(px2, py2, width as int, y as int);
                }
            }
        }
        proof {
            assert((y as int + 1) * width as int == y as int * width as int + width as int)
                by (nonlinear_arith);
        }
        y = y + 1;
    }
    proof {
        assert(height as int * width as int == width as int * height as int)
            by (nonlinear_arith);
    }
    buffer
}

} // verus!
