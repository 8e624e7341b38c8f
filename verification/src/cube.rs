//! Analytic ray/axis-aligned-cube intersection, with per-face materials and
//! per-face UV mapping.
//!
//! The slab method intersects the per-axis entry/exit intervals; a zero
//! direction component saturates the axis bounds, which is the role the
//! infinities of floating-point division play. The hit face is the first
//! box plane, in the fixed order x-min, x-max, y-min, y-max, z-min, z-max,
//! that the hit point lies within [`FACE_EPS`] of; ties at edges and
//! corners go to that same order.

use vstd::prelude::*;
use crate::fixed::{
    fx_clamp01, fx_div, fx_max, fx_min, fx_sub, iabs, spec_clamp01, spec_div, spec_sub, FX_ONE,
};
use crate::material::Material;
use crate::ray_intersect::{spec_empty_intersect, Intersect};
use crate::vec::{spec_vadd, spec_vscale, spec_vsub, Vec3};

verus! {

/// How close, in fixed-point units, a hit point must be to a box plane to
/// count as lying on that face: one thousandth.
pub const FACE_EPS: i64 = 1048;

/// An axis-aligned cube given by its center and fixed-point edge length,
/// with one material per face.
pub struct Cube {
    pub center: Vec3,
    pub size: i64,
    pub materials: [Material; 6],
}

/// Whether `a` lies within [`FACE_EPS`] of `b`.
pub open spec fn spec_near(a: int, b: int) -> bool {
    iabs(a - b) < FACE_EPS
}

pub open spec fn smin(a: int, b: int) -> int {
    if a <= b {
        a
    } else {
        b
    }
}

pub open spec fn smax(a: int, b: int) -> int {
    if a >= b {
        a
    } else {
        b
    }
}

/// The face index, outward normal and unclamped UV coordinates for a hit
/// point on the box `[min, max]`: the first axis plane, in the order x-min,
/// x-max, y-min, y-max, z-min, z-max, that the point lies near; the UVs
/// project the point onto the two axes orthogonal to that face, scaled by
/// the box extent. A point near no plane keeps face 0, a zero normal and
/// zero UVs.
pub open spec fn spec_face_uv(p: Vec3, min: Vec3, max: Vec3) -> (usize, Vec3, i64, i64) {
    let ux = spec_div(spec_sub(p.x as int, min.x as int), spec_sub(max.x as int, min.x as int));
    let uy = spec_div(spec_sub(p.y as int, min.y as int), spec_sub(max.y as int, min.y as int));
    let uz = spec_div(spec_sub(p.z as int, min.z as int), spec_sub(max.z as int, min.z as int));
    if spec_near(p.x as int, min.x as int) {
        (0usize, Vec3 { x: -0x100000i64, y: 0i64, z: 0i64 }, uz as i64, uy as i64)
    } else if spec_near(p.x as int, max.x as int) {
        (1usize, Vec3 { x: 0x100000i64, y: 0i64, z: 0i64 }, uz as i64, uy as i64)
    } else if spec_near(p.y as int, min.y as int) {
        (2usize, Vec3 { x: 0i64, y: -0x100000i64, z: 0i64 }, ux as i64, uz as i64)
    } else if spec_near(p.y as int, max.y as int) {
        (3usize, Vec3 { x: 0i64, y: 0x100000i64, z: 0i64 }, ux as i64, uz as i64)
    } else if spec_near(p.z as int, min.z as int) {
        (4usize, Vec3 { x: 0i64, y: 0i64, z: -0x100000i64 }, ux as i64, uy as i64)
    } else if spec_near(p.z as int, max.z as int) {
        (5usize, Vec3 { x: 0i64, y: 0i64, z: 0x100000i64 }, ux as i64, uy as i64)
    } else {
        (0usize, Vec3 { x: 0i64, y: 0i64, z: 0i64 }, 0i64, 0i64)
    }
}

/// The corner of the box at `center - size / 2` on every axis.
pub open spec fn spec_box_min(c: Cube) -> Vec3 {
    let mitad = spec_div(c.size as int, 0x200000);
    spec_vsub(c.center, Vec3 { x: mitad as i64, y: mitad as i64, z: mitad as i64 })
}

/// The corner of the box at `center + size / 2` on every axis.
pub open spec fn spec_box_max(c: Cube) -> Vec3 {
    let mitad = spec_div(c.size as int, 0x200000);
    spec_vadd(c.center, Vec3 { x: mitad as i64, y: mitad as i64, z: mitad as i64 })
}

/// The record a cube reports for a ray, by the slab method: entry parameter
/// `t1` as the greatest per-axis entry, exit parameter `t2` as the least
/// per-axis exit; a miss when `t1 > t2` or `t2 < 0`; the reported distance
/// is `t2` when the origin lies inside the box, `t1` otherwise.
#[verifier::opaque]
pub open spec fn spec_cube_intersect(c: Cube, o: Vec3, d: Vec3) -> Intersect {
    let min = spec_box_min(c);
    let max = spec_box_max(c);
    let tx0 = spec_div(spec_sub(min.x as int, o.x as int), d.x as int);
    let tx1 = spec_div(spec_sub(max.x as int, o.x as int), d.x as int);
    let ty0 = spec_div(spec_sub(min.y as int, o.y as int), d.y as int);
    let ty1 = spec_div(spec_sub(max.y as int, o.y as int), d.y as int);
    let tz0 = spec_div(spec_sub(min.z as int, o.z as int), d.z as int);
    let tz1 = spec_div(spec_sub(max.z as int, o.z as int), d.z as int);
    let t1 = smax(smax(smin(tx0, tx1), smin(ty0, ty1)), smin(tz0, tz1));
    let t2 = smin(smin(smax(tx0, tx1), smax(ty0, ty1)), smax(tz0, tz1));
    if t1 > t2 || t2 < 0 {
        spec_empty_intersect()
    } else {
        let t_hit = if t1 < 0 {
            t2
        } else {
            t1
        };
        let p = spec_vadd(o, spec_vscale(d, t_hit));
        let fuv = spec_face_uv(p, min, max);
        Intersect {
            point: p,
            normal: fuv.1,
            distance: t_hit as i64,
            material: c.materials[fuv.0 as int],
            u: spec_clamp01(fuv.2 as int) as i64,
            v: spec_clamp01(fuv.3 as int) as i64,
            is_intersecting: true,
        }
    }
}

impl Cube {
    pub fn new(center: Vec3, size: i64, materials: [Material; 6]) -> (c: Cube)
        ensures
            c == (Cube { center, size, materials }),
    {
        Cube { center, size, materials }
    }

    /// The unclamped UV coordinates of a point on this cube's surface, by
    /// the face the point lies on.
    pub fn get_uv(&self, punto_encuentro: &Vec3) -> (uv: (i64, i64))
        ensures
            uv.0 == spec_face_uv(
                *punto_encuentro,
                spec_box_min(*self),
                spec_box_max(*self),
            ).2,
            uv.1 == spec_face_uv(
                *punto_encuentro,
                spec_box_min(*self),
                spec_box_max(*self),
            ).3,
    {
        let mitad = fx_div(self.size, 0x200000);
        let half = Vec3::new(mitad, mitad, mitad);
        let min = self.center.sub(&half);
        let max = self.center.add(&half);
        let fuv = face_and_uv(punto_encuentro, &min, &max);
        (fuv.2, fuv.3)
    }

    /// The nearest forward intersection of the ray with this cube, or the
    /// empty record on a miss. On a hit the face index stays below 6 and
    /// the UV coordinates are clamped into the unit interval.
    #[verifier::rlimit(60)]
    pub fn ray_intersect(&self, ray_origin: &Vec3, ray_direction: &Vec3) -> (i: Intersect)
        ensures
            i == spec_cube_intersect(*self, *ray_origin, *ray_direction),
            i.is_intersecting ==> i.distance >= 0,
            i.is_intersecting ==> 0 <= i.u <= FX_ONE && 0 <= i.v <= FX_ONE,
            !i.is_intersecting ==> i == spec_empty_intersect(),
    {
        proof {
            reveal(spec_cube_intersect);
        }
        let mitad = fx_div(self.size, 0x200000);
        let half = Vec3::new(mitad, mitad, mitad);
        let min = self.center.sub(&half);
        let max = self.center.add(&half);

        let tx0 = fx_div(fx_sub(min.x, ray_origin.x), ray_direction.x);
        let tx1 = fx_div(fx_sub(max.x, ray_origin.x), ray_direction.x);
        let ty0 = fx_div(fx_sub(min.y, ray_origin.y), ray_direction.y);
        let ty1 = fx_div(fx_sub(max.y, ray_origin.y), ray_direction.y);
        let tz0 = fx_div(fx_sub(min.z, ray_origin.z), ray_direction.z);
        let tz1 = fx_div(fx_sub(max.z, ray_origin.z), ray_direction.z);

        let t1 = fx_max(fx_max(fx_min(tx0, tx1), fx_min(ty0, ty1)), fx_min(tz0, tz1));
        let t2 = fx_min(fx_min(fx_max(tx0, tx1), fx_max(ty0, ty1)), fx_max(tz0, tz1));

        if t1 > t2 || t2 < 0 {
            return Intersect::empty();
        }

        let t_hit = if t1 < 0 {
            t2
        } else {
            t1
        };
        let punto_encuentro = ray_origin.add(&ray_direction.scale(t_hit));

        let fuv = face_and_uv(&punto_encuentro, &min, &max);
        let face_index = fuv.0;
        let normal = fuv.1;
        let u = fx_clamp01(fuv.2);
        let v = fx_clamp01(fuv.3);

        Intersect::new(
            punto_encuentro,
            normal,
            t_hit,
            self.materials[face_index].clone(),
            u,
            v,
        )
    }
}

fn near(a: i64, b: i64) -> (r: bool)
    ensures
        r == spec_near(a as int, b as int),
{
    let d: i128 = a as i128 - b as i128;
    let m: i128 = if d < 0 {
        -d
    } else {
        d
    };
    m < FACE_EPS as i128
}

/// The face index, outward normal and unclamped UV coordinates for a hit
/// point on the box `[min, max]`.
fn face_and_uv(p: &Vec3, min: &Vec3, max: &Vec3) -> (r: (usize, Vec3, i64, i64))
    ensures
        r == spec_face_uv(*p, *min, *max),
        r.0 < 6,
{
    let ux = fx_div(fx_sub(p.x, min.x), fx_sub(max.x, min.x));
    let uy = fx_div(fx_sub(p.y, min.y), fx_sub(max.y, min.y));
    let uz = fx_div(fx_sub(p.z, min.z), fx_sub(max.z, min.z));
    if near(p.x, min.x) {
        (0, Vec3::new(-FX_ONE, 0, 0), uz, uy)
    } else if near(p.x, max.x) {
        (1, Vec3::new(FX_ONE, 0, 0), uz, uy)
    } else if near(p.y, min.y) {
        (2, Vec3::new(0, -FX_ONE, 0), ux, uz)
    } else if near(p.y, max.y) {
        (3, Vec3::new(0, FX_ONE, 0), ux, uz)
    } else if near(p.z, min.z) {
        (4, Vec3::new(0, 0, -FX_ONE), ux, uy)
    } else if near(p.z, max.z) {
        (5, Vec3::new(0, 0, FX_ONE), ux, uy)
    } else {
        (0, Vec3::new(0, 0, 0), 0, 0)
    }
}

/// The face index is a pure function of which plane matched, by the table
/// x-min 0, x-max 1, y-min 2, y-max 3, z-min 4, z-max 5, in that priority
/// order.
pub proof fn lemma_face_index_table(p: Vec3, min: Vec3, max: Vec3)
    ensures
        spec_near(p.x as int, min.x as int) ==> spec_face_uv(p, min, max).0 == 0,
        !spec_near(p.x as int, min.x as int) && spec_near(p.x as int, max.x as int)
            ==> spec_face_uv(p, min, max).0 == 1,
        !spec_near(p.x as int, min.x as int) && !spec_near(p.x as int, max.x as int)
            && spec_near(p.y as int, min.y as int) ==> spec_face_uv(p, min, max).0 == 2,
        !spec_near(p.x as int, min.x as int) && !spec_near(p.x as int, max.x as int)
            && !spec_near(p.y as int, min.y as int) && spec_near(p.y as int, max.y as int)
            ==> spec_face_uv(p, min, max).0 == 3,
        !spec_near(p.x as int, min.x as int) && !spec_near(p.x as int, max.x as int)
            && !spec_near(p.y as int, min.y as int) && !spec_near(p.y as int, max.y as int)
            && spec_near(p.z as int, min.z as int) ==> spec_face_uv(p, min, max).0 == 4,
        !spec_near(p.x as int, min.x as int) && !spec_near(p.x as int, max.x as int)
            && !spec_near(p.y as int, min.y as int) && !spec_near(p.y as int, max.y as int)
            && !spec_near(p.z as int, min.z as int) && spec_near(p.z as int, max.z as int)
            ==> spec_face_uv(p, min, max).0 == 5,
{
}

} // verus!
