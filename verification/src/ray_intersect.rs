//! The ray/object test record and the closed set of scene objects.

use vstd::prelude::*;
use crate::color::Color;
use crate::cube::{spec_box_max, spec_box_min, spec_cube_intersect, spec_face_uv, Cube};
use crate::material::Material;
use crate::sphere::{spec_sphere_intersect, spec_sphere_uv, Sphere};
use crate::vec::Vec3;

verus! {

/// The result of testing one ray against one object: hit point, outward
/// surface normal, hit distance along the ray, the surface's material and
/// its UV coordinates. `is_intersecting` is false on a miss.
pub struct Intersect {
    pub point: Vec3,
    pub normal: Vec3,
    pub distance: i64,
    pub material: Material,
    pub u: i64,
    pub v: i64,
    pub is_intersecting: bool,
}

/// The canonical miss: not intersecting, at the greatest representable
/// distance, so that it is the identity of nearest-hit selection.
pub open spec fn spec_empty_intersect() -> Intersect {
    Intersect {
        point: Vec3 { x: 0i64, y: 0i64, z: 0i64 },
        normal: Vec3 { x: 0i64, y: 0i64, z: 0i64 },
        distance: i64::MAX,
        material: Material {
            diffuse: Color { r: 0u8, g: 0u8, b: 0u8 },
            specular: 0i64,
            albedo: [0i64, 0i64],
            textura: None,
            emisividad_color: None,
        },
        u: 0i64,
        v: 0i64,
        is_intersecting: false,
    }
}

impl Intersect {
    pub fn new(point: Vec3, normal: Vec3, distance: i64, material: Material, u: i64, v: i64) -> (i:
        Intersect)
        ensures
            i == (Intersect { point, normal, distance, material, u, v, is_intersecting: true }),
    {
        Intersect { point, normal, distance, material, u, v, is_intersecting: true }
    }

    pub fn empty() -> (i: Intersect)
        ensures
            i == spec_empty_intersect(),
    {
        Intersect {
            point: Vec3::zero(),
            normal: Vec3::zero(),
            distance: i64::MAX,
            material: Material::black(),
            u: 0,
            v: 0,
            is_intersecting: false,
        }
    }
}

/// A scene object: the closed set of shapes a ray can be tested against.
pub enum Object {
    Sphere(Sphere),
    Cube(Cube),
}

/// The intersect record an object reports for a ray.
pub open spec fn spec_object_intersect(obj: Object, origin: Vec3, direction: Vec3) -> Intersect {
    match obj {
        Object::Sphere(s) => spec_sphere_intersect(s, origin, direction),
        Object::Cube(c) => spec_cube_intersect(c, origin, direction),
    }
}

/// The surface UV coordinates an object recomputes for a known point on
/// its surface.
pub open spec fn spec_object_uv(obj: Object, point: Vec3) -> (i64, i64) {
    match obj {
        Object::Sphere(s) => spec_sphere_uv(s, point),
        Object::Cube(c) => {
            let fuv = spec_face_uv(point, spec_box_min(c), spec_box_max(c));
            (fuv.2, fuv.3)
        },
    }
}

impl Object {
    /// The nearest forward intersection of the ray with this object, or the
    /// empty record on a miss.
    pub fn ray_intersect(&self, ray_origin: &Vec3, ray_direction: &Vec3) -> (i: Intersect)
        ensures
            i == spec_object_intersect(*self, *ray_origin, *ray_direction),
            i.is_intersecting ==> i.distance >= 0,
            !i.is_intersecting ==> i == spec_empty_intersect(),
    {
        match self {
            Object::Sphere(s) => s.ray_intersect(ray_origin, ray_direction),
            Object::Cube(c) => c.ray_intersect(ray_origin, ray_direction),
        }
    }

    /// The surface UV coordinates for a known point on this object's
    /// surface.
    pub fn get_uv(&self, point: &Vec3) -> (uv: (i64, i64))
        ensures
            uv == spec_object_uv(*self, *point),
    {
        match self {
            Object::Sphere(s) => s.get_uv(point),
            Object::Cube(c) => c.get_uv(point),
        }
    }
}

} // verus!
