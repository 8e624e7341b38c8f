//! Analytic ray/sphere intersection.

use vstd::prelude::*;
use vstd::arithmetic::div_mod::{lemma_div_is_ordered, lemma_div_multiples_vanish};
use crate::material::Material;
use crate::ray_intersect::{spec_empty_intersect, Intersect};
use crate::vec::{spec_dot, spec_vadd, spec_vnormalize, spec_vscale, spec_vsub, Vec3};
use crate::fixed::{fx_abs, fx_add, fx_div, fx_mul, fx_neg, fx_sqrt, fx_sub, iabs, spec_abs,
    spec_add, spec_div, spec_mul, spec_neg, spec_sqrt, spec_sub, FX_ONE};

verus! {

/// π in fixed-point units, to the nearest representable value.
pub const PI_FX: i64 = 3294199;

/// π / 2 in fixed-point units.
pub const HALF_PI_FX: i64 = 1647099;

/// π / 4 in fixed-point units, the leading coefficient of the arctangent
/// approximation below.
pub const ATAN_P_FX: i64 = 823550;

/// The correction coefficient 0.273 of the arctangent approximation below.
pub const ATAN_Q_FX: i64 = 286261;

/// A sphere given by its center and fixed-point radius.
pub struct Sphere {
    pub center: Vec3,
    pub radius: i64,
    pub material: Material,
}

/// The record a sphere reports for a ray: the smaller root of
/// `|O + tD - C|^2 = r^2` when the discriminant is positive and the root is
/// positive, the empty record otherwise. A tangent ray counts as a miss.
#[verifier::opaque]
pub open spec fn spec_sphere_intersect(s: Sphere, o: Vec3, d: Vec3) -> Intersect {
    let oc = spec_vsub(o, s.center);
    let a = spec_dot(d, d);
    let half_b = spec_dot(oc, d);
    let b = spec_add(half_b, half_b);
    let c = spec_sub(spec_dot(oc, oc), spec_mul(s.radius as int, s.radius as int));
    let disc = spec_sub(spec_mul(b, b), spec_mul(spec_mul(0x400000, a), c));
    if disc > 0 {
        let t = spec_div(spec_sub(spec_neg(b), spec_sqrt(disc)), spec_add(a, a));
        if t > 0 {
            let point = spec_vadd(o, spec_vscale(d, t));
            Intersect {
                point,
                normal: spec_vnormalize(spec_vsub(point, s.center)),
                distance: t as i64,
                material: s.material,
                u: 0i64,
                v: 0i64,
                is_intersecting: true,
            }
        } else {
            spec_empty_intersect()
        }
    } else {
        spec_empty_intersect()
    }
}

/// The arctangent of a unit-interval value, by the polynomial
/// approximation `atan(t) ≈ (π/4) t + 0.273 t (1 - t)`.
pub open spec fn spec_atan_unit(t: int) -> int {
    spec_add(
        spec_mul(ATAN_P_FX as int, t),
        spec_mul(ATAN_Q_FX as int, spec_mul(t, spec_sub(FX_ONE as int, t))),
    )
}

/// The angle of the point `(x, y)` from the positive x axis, in `(-π, π]`;
/// zero at the origin. Reduced to [`spec_atan_unit`] by octant.
pub open spec fn spec_atan2(y: int, x: int) -> int {
    if x == 0 {
        if y > 0 {
            HALF_PI_FX as int
        } else if y < 0 {
            -HALF_PI_FX as int
        } else {
            0
        }
    } else {
        let ax = spec_abs(x);
        let ay = spec_abs(y);
        let base = if ay <= ax {
            spec_atan_unit(spec_div(ay, ax))
        } else {
            HALF_PI_FX - spec_atan_unit(spec_div(ax, ay))
        };
        if x > 0 {
            if y >= 0 {
                base
            } else {
                -base
            }
        } else {
            if y >= 0 {
                PI_FX - base
            } else {
                base - PI_FX
            }
        }
    }
}

/// The arcsine of a fixed-point value, as `atan2(y, sqrt(1 - y²))`; a value
/// beyond the unit interval saturates to `± π / 2`.
pub open spec fn spec_asin(y: int) -> int {
    spec_atan2(y, spec_sqrt(spec_sub(FX_ONE as int, spec_mul(y, y))))
}

fn atan_unit(t: i64) -> (r: i64)
    requires
        0 <= t <= FX_ONE,
    ensures
        r == spec_atan_unit(t as int),
        0 <= r < HALF_PI_FX,
{
    let a = fx_mul(ATAN_P_FX, t);
    let m = fx_mul(t, fx_sub(FX_ONE, t));
    let k = fx_mul(ATAN_Q_FX, m);
    proof {
        assert(0 <= t * (0x100000 - t) && 0 <= (823550 * t) / 0x100000 <= 823550 && 0 <= (t
            * (0x100000 - t)) / 0x100000 <= 0x40000) by (nonlinear_arith)
            requires
                0 <= t <= 0x100000;
        assert(0 <= (286261 * m) / 0x100000 <= 71565) by (nonlinear_arith)
            requires
                0 <= m <= 0x40000;
    }
    fx_add(a, k)
}

pub fn atan2_fx(y: i64, x: i64) -> (r: i64)
    ensures
        r == spec_atan2(y as int, x as int),
        -PI_FX <= r <= PI_FX,
        x >= 0 ==> -HALF_PI_FX <= r <= HALF_PI_FX,
{
    if x == 0 {
        if y > 0 {
            HALF_PI_FX
        } else if y < 0 {
            -HALF_PI_FX
        } else {
            0
        }
    } else {
        let ax = fx_abs(x);
        let ay = fx_abs(y);
        let base = if ay <= ax {
            proof {
                lemma_div_is_ordered(ay as int * FX_ONE, ax as int * FX_ONE, ax as int);
                lemma_div_multiples_vanish(FX_ONE as int, ax as int);
            }
            atan_unit(fx_div(ay, ax))
        } else {
            proof {
                lemma_div_is_ordered(ax as int * FX_ONE, ay as int * FX_ONE, ay as int);
                lemma_div_multiples_vanish(FX_ONE as int, ay as int);
            }
            HALF_PI_FX - atan_unit(fx_div(ax, ay))
        };
        if x > 0 {
            if y >= 0 {
                base
            } else {
                -base
            }
        } else {
            if y >= 0 {
                PI_FX - base
            } else {
                base - PI_FX
            }
        }
    }
}

pub fn asin_fx(y: i64) -> (r: i64)
    ensures
        r == spec_asin(y as int),
        -HALF_PI_FX <= r <= HALF_PI_FX,
{
    let c = fx_sqrt(fx_sub(FX_ONE, fx_mul(y, y)));
    atan2_fx(y, c)
}

/// The spherical UV coordinates of a point on this sphere's surface:
/// `u = 0.5 + atan2(z, x) / 2π` and `v = 0.5 - asin(y) / π` on the
/// normalized offset from the center, both in the unit interval.
pub open spec fn spec_sphere_uv(s: Sphere, point: Vec3) -> (i64, i64) {
    let r = spec_vnormalize(spec_vsub(point, s.center));
    let theta = spec_atan2(r.z as int, r.x as int);
    let phi = spec_asin(r.y as int);
    (
        spec_add(FX_ONE as int / 2, spec_div(theta, 2 * PI_FX as int)) as i64,
        spec_sub(FX_ONE as int / 2, spec_div(phi, PI_FX as int)) as i64,
    )
}

impl Sphere {
    /// The nearest forward intersection of the ray with this sphere, or the
    /// empty record on a miss.
    pub fn ray_intersect(&self, ray_origin: &Vec3, ray_direction: &Vec3) -> (i: Intersect)
        ensures
            i == spec_sphere_intersect(*self, *ray_origin, *ray_direction),
            i.is_intersecting ==> i.distance > 0,
            !i.is_intersecting ==> i == spec_empty_intersect(),
    {
        proof {
            reveal(spec_sphere_intersect);
        }
        let oc = ray_origin.sub(&self.center);

        let a = ray_direction.dot(ray_direction);
        let half_b = oc.dot(ray_direction);
        let b = fx_add(half_b, half_b);
        let c = fx_sub(oc.dot(&oc), fx_mul(self.radius, self.radius));

        let discriminant = fx_sub(fx_mul(b, b), fx_mul(fx_mul(0x400000, a), c));

        if discriminant > 0 {
            let t = fx_div(fx_sub(fx_neg(b), fx_sqrt(discriminant)), fx_add(a, a));
            if t > 0 {
                let point = ray_origin.add(&ray_direction.scale(t));
                let normal = point.sub(&self.center).normalize();

                return Intersect::new(point, normal, t, self.material.clone(), 0, 0);
            }
        }

        Intersect::empty()
    }

    /// The spherical UV coordinates of a point on this sphere's surface,
    /// both in the unit interval.
    pub fn get_uv(&self, point: &Vec3) -> (uv: (i64, i64))
        ensures
            uv == spec_sphere_uv(*self, *point),
            0 <= uv.0 <= FX_ONE,
            0 <= uv.1 <= FX_ONE,
    {
        let r = point.sub(&self.center).normalize();
        let theta = atan2_fx(r.z, r.x);
        let phi = asin_fx(r.y);
        let u = fx_add(FX_ONE / 2, fx_div(theta, 2 * PI_FX));
        let v = fx_sub(FX_ONE / 2, fx_div(phi, PI_FX));
        proof {
            assert(iabs(theta as int * FX_ONE) == iabs(theta as int) * FX_ONE);
            assert(iabs(phi as int * FX_ONE) == iabs(phi as int) * FX_ONE);
            lemma_div_is_ordered(
                iabs(theta as int) * FX_ONE,
                (PI_FX as int) * FX_ONE,
                2 * PI_FX as int,
            );
            lemma_div_is_ordered(
                iabs(phi as int) * FX_ONE,
                (HALF_PI_FX as int) * FX_ONE,
                PI_FX as int,
            );
        }
        (u, v)
    }
}

} // verus!
