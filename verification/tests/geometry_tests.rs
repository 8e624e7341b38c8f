use diorama::color::Color;
use diorama::cube::Cube;
use diorama::fixed::FX_ONE;
use diorama::material::Material;
use diorama::ray_intersect::{Intersect, Object};
use diorama::sphere::Sphere;
use diorama::vec::Vec3;

fn flat(r: u8, g: u8, b: u8) -> Material {
    Material::new(Color::new(r, g, b), 0, [0, 0], None, None)
}

fn unit_cube_at_origin() -> Cube {
    Cube::new(
        Vec3::new(0, 0, 0),
        FX_ONE,
        [
            flat(0, 0, 0),
            flat(1, 0, 0),
            flat(2, 0, 0),
            flat(3, 0, 0),
            flat(4, 0, 0),
            flat(5, 0, 0),
        ],
    )
}

#[test]
fn sphere_head_on_hit_reports_exact_distance() {
    let s = Sphere {
        center: Vec3::new(0, 0, 0),
        radius: FX_ONE,
        material: flat(80, 0, 0),
    };
    let i = s.ray_intersect(&Vec3::new(0, 0, 5 * FX_ONE), &Vec3::new(0, 0, -FX_ONE));
    assert!(i.is_intersecting);
    assert_eq!(i.distance, 4 * FX_ONE);
    assert_eq!(i.point, Vec3::new(0, 0, FX_ONE));
    assert_eq!(i.normal, Vec3::new(0, 0, FX_ONE));
    assert_eq!(i.material.diffuse, Color::new(80, 0, 0));
}

#[test]
fn sphere_miss_reports_empty() {
    let s = Sphere {
        center: Vec3::new(0, 0, 0),
        radius: FX_ONE,
        material: flat(80, 0, 0),
    };
    let i = s.ray_intersect(&Vec3::new(0, 0, 5 * FX_ONE), &Vec3::new(0, FX_ONE, 0));
    assert!(!i.is_intersecting);
    assert_eq!(i.distance, i64::MAX);
}

#[test]
fn sphere_behind_origin_is_a_miss() {
    let s = Sphere {
        center: Vec3::new(0, 0, 0),
        radius: FX_ONE,
        material: flat(80, 0, 0),
    };
    let i = s.ray_intersect(&Vec3::new(0, 0, 5 * FX_ONE), &Vec3::new(0, 0, FX_ONE));
    assert!(!i.is_intersecting);
}

#[test]
fn cube_head_on_hit_gets_z_max_face() {
    let c = unit_cube_at_origin();
    let i = c.ray_intersect(&Vec3::new(0, 0, 5 * FX_ONE), &Vec3::new(0, 0, -FX_ONE));
    assert!(i.is_intersecting);
    assert_eq!(i.distance, 9 * FX_ONE / 2);
    assert_eq!(i.normal, Vec3::new(0, 0, FX_ONE));
    assert_eq!(i.material.diffuse, Color::new(5, 0, 0));
    assert!(0 <= i.u && i.u <= FX_ONE);
    assert!(0 <= i.v && i.v <= FX_ONE);
    assert_eq!(i.u, FX_ONE / 2);
    assert_eq!(i.v, FX_ONE / 2);
}

#[test]
fn cube_face_table_for_all_six_approaches() {
    let c = unit_cube_at_origin();
    let far = 5 * FX_ONE;
    let cases = [
        (Vec3::new(-far, 0, 0), Vec3::new(FX_ONE, 0, 0), 0u8, Vec3::new(-FX_ONE, 0, 0)),
        (Vec3::new(far, 0, 0), Vec3::new(-FX_ONE, 0, 0), 1u8, Vec3::new(FX_ONE, 0, 0)),
        (Vec3::new(0, -far, 0), Vec3::new(0, FX_ONE, 0), 2u8, Vec3::new(0, -FX_ONE, 0)),
        (Vec3::new(0, far, 0), Vec3::new(0, -FX_ONE, 0), 3u8, Vec3::new(0, FX_ONE, 0)),
        (Vec3::new(0, 0, -far), Vec3::new(0, 0, FX_ONE), 4u8, Vec3::new(0, 0, -FX_ONE)),
        (Vec3::new(0, 0, far), Vec3::new(0, 0, -FX_ONE), 5u8, Vec3::new(0, 0, FX_ONE)),
    ];
    for (origin, dir, face, normal) in cases {
        let i = c.ray_intersect(&origin, &dir);
        assert!(i.is_intersecting);
        assert_eq!(i.material.diffuse, Color::new(face, 0, 0));
        assert_eq!(i.normal, normal);
    }
}

#[test]
fn cube_ray_from_inside_reports_exit_face() {
    let c = unit_cube_at_origin();
    let i = c.ray_intersect(&Vec3::new(0, 0, 0), &Vec3::new(0, 0, -FX_ONE));
    assert!(i.is_intersecting);
    assert_eq!(i.distance, FX_ONE / 2);
    assert_eq!(i.normal, Vec3::new(0, 0, -FX_ONE));
    assert_eq!(i.material.diffuse, Color::new(4, 0, 0));
}

#[test]
fn cube_miss_reports_empty() {
    let c = unit_cube_at_origin();
    let i = c.ray_intersect(&Vec3::new(0, 0, 5 * FX_ONE), &Vec3::new(0, FX_ONE, 0));
    assert!(!i.is_intersecting);
    assert_eq!(i.distance, i64::MAX);
}

#[test]
fn cube_get_uv_projects_onto_face_axes() {
    let c = unit_cube_at_origin();
    let uv = c.get_uv(&Vec3::new(-FX_ONE / 2, 0, 0));
    assert_eq!(uv, (FX_ONE / 2, FX_ONE / 2));
    let corner = c.get_uv(&Vec3::new(-FX_ONE / 2, -FX_ONE / 2, -FX_ONE / 2));
    assert_eq!(corner, (0, 0));
}

#[test]
fn sphere_uv_equator_and_poles() {
    let s = Sphere {
        center: Vec3::new(0, 0, 0),
        radius: FX_ONE,
        material: flat(80, 0, 0),
    };
    // the +x equator point maps to the middle of the texture
    assert_eq!(s.get_uv(&Vec3::new(FX_ONE, 0, 0)), (FX_ONE / 2, FX_ONE / 2));
    // the -x equator point is the seam, u = 1
    assert_eq!(s.get_uv(&Vec3::new(-FX_ONE, 0, 0)), (FX_ONE, FX_ONE / 2));
    // the +z equator point sits a quarter turn along, within the
    // resolution of the fixed-point value of pi
    let (u, v) = s.get_uv(&Vec3::new(0, 0, FX_ONE));
    assert_eq!(u, 3 * FX_ONE / 4 - 1);
    assert_eq!(v, FX_ONE / 2);
    // the poles map to the top and bottom texture rows
    let (u, v) = s.get_uv(&Vec3::new(0, FX_ONE, 0));
    assert_eq!(u, FX_ONE / 2);
    assert_eq!(v, 1);
    let (_, v) = s.get_uv(&Vec3::new(0, -FX_ONE, 0));
    assert_eq!(v, FX_ONE - 1);
}

#[test]
fn object_dispatch_matches_shapes() {
    let s = Sphere {
        center: Vec3::new(0, 0, 0),
        radius: FX_ONE,
        material: flat(7, 0, 0),
    };
    let o = Vec3::new(0, 0, 5 * FX_ONE);
    let d = Vec3::new(0, 0, -FX_ONE);
    let from_sphere = s.ray_intersect(&o, &d);
    let from_object = Object::Sphere(s).ray_intersect(&o, &d);
    assert_eq!(from_object.distance, from_sphere.distance);
    assert_eq!(from_object.point, from_sphere.point);

    let c = unit_cube_at_origin();
    let from_cube = c.ray_intersect(&o, &d);
    let from_object = Object::Cube(c).ray_intersect(&o, &d);
    assert_eq!(from_object.distance, from_cube.distance);
    assert_eq!(from_object.normal, from_cube.normal);
}

#[test]
fn object_get_uv_dispatches() {
    let c = unit_cube_at_origin();
    let p = Vec3::new(-FX_ONE / 2, 0, 0);
    let direct = c.get_uv(&p);
    let through = Object::Cube(c).get_uv(&p);
    assert_eq!(direct, through);
}

#[test]
fn empty_intersect_is_the_identity_sentinel() {
    let e = Intersect::empty();
    assert!(!e.is_intersecting);
    assert_eq!(e.distance, i64::MAX);
    let m = Material::black();
    assert_eq!(m.diffuse, Color::new(0, 0, 0));
    assert_eq!(m.albedo, [0, 0]);
    assert!(m.textura.is_none());
    assert!(m.emisividad_color.is_none());
}
