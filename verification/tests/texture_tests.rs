use diorama::color::Color;
use diorama::fixed::FX_ONE;
use diorama::material::Material;
use diorama::texture::Texture;

fn red() -> Color {
    Color::new(255, 0, 0)
}

fn green() -> Color {
    Color::new(0, 255, 0)
}

fn blue() -> Color {
    Color::new(0, 0, 255)
}

fn white() -> Color {
    Color::new(255, 255, 255)
}

/// A 2 x 2 RGBA image: red, green across the top row; blue, white across
/// the bottom row.
fn two_by_two() -> Texture {
    let data: Vec<u8> = vec![
        255, 0, 0, 255, // (0, 0)
        0, 255, 0, 255, // (1, 0)
        0, 0, 255, 255, // (0, 1)
        255, 255, 255, 255, // (1, 1)
    ];
    Texture::from_rgba(2, 2, data)
}

fn textured_material() -> Material {
    Material::new(Color::new(1, 2, 3), 0, [0, 0], Some(two_by_two()), None)
}

#[test]
fn texture_reports_dimensions_and_pixels() {
    let t = two_by_two();
    assert_eq!(t.width(), 2);
    assert_eq!(t.height(), 2);
    assert_eq!(t.pixel(0, 0), (255, 0, 0));
    assert_eq!(t.pixel(1, 0), (0, 255, 0));
    assert_eq!(t.pixel(0, 1), (0, 0, 255));
    assert_eq!(t.pixel(1, 1), (255, 255, 255));
}

#[test]
fn sampling_flips_v_once() {
    let m = textured_material();
    // the UV origin is bottom-left, the texture origin top-left
    assert_eq!(m.get_diffuse_color(0, 0), blue());
    assert_eq!(m.get_diffuse_color(0, FX_ONE), red());
    assert_eq!(m.get_diffuse_color(FX_ONE, 0), white());
    assert_eq!(m.get_diffuse_color(FX_ONE, FX_ONE), green());
}

#[test]
fn call_site_flip_round_trip_samples_once() {
    let m = textured_material();
    for v in [0, FX_ONE / 4, FX_ONE / 2, FX_ONE] {
        // flipping twice lands on the same row
        assert_eq!(m.get_diffuse_color(0, FX_ONE - (FX_ONE - v)), m.get_diffuse_color(0, v));
    }
    // flipping once mirrors the sampled row
    assert_eq!(m.get_diffuse_color(0, 0), blue());
    assert_eq!(m.get_diffuse_color(0, FX_ONE - 0), red());
    assert_eq!(m.get_diffuse_color(FX_ONE, FX_ONE), green());
    assert_eq!(m.get_diffuse_color(FX_ONE, FX_ONE - FX_ONE), white());
}

#[test]
fn sampling_is_nearest_neighbor_by_truncation() {
    let m = textured_material();
    // u * (width - 1) truncates: a coordinate short of the last texel
    // stays on the first one
    assert_eq!(m.get_diffuse_color(2 * FX_ONE / 5, FX_ONE), red());
    assert_eq!(m.get_diffuse_color(3 * FX_ONE / 5, FX_ONE), red());
    assert_eq!(m.get_diffuse_color(FX_ONE, 3 * FX_ONE / 5), green());
}

#[test]
fn sampling_clamps_out_of_range_coordinates() {
    let m = textured_material();
    assert_eq!(m.get_diffuse_color(-FX_ONE, 2 * FX_ONE), red());
    assert_eq!(m.get_diffuse_color(2 * FX_ONE, -FX_ONE), white());
}

#[test]
fn untextured_material_returns_flat_diffuse() {
    let m = Material::new(Color::new(64, 164, 223), 0, [0, 0], None, None);
    assert_eq!(m.get_diffuse_color(FX_ONE / 2, FX_ONE / 2), Color::new(64, 164, 223));
}

#[test]
fn empty_texture_falls_back_to_flat_diffuse() {
    let t = Texture::from_rgba(0, 0, Vec::new());
    let m = Material::new(Color::new(80, 0, 0), 0, [0, 0], Some(t), None);
    assert_eq!(m.get_diffuse_color(0, 0), Color::new(80, 0, 0));
}

#[test]
fn cloned_material_shares_the_texture() {
    let m = textured_material();
    let copy = m.clone();
    assert_eq!(copy.diffuse, m.diffuse);
    assert_eq!(copy.get_diffuse_color(0, 0), m.get_diffuse_color(0, 0));
    assert_eq!(copy.get_diffuse_color(FX_ONE, FX_ONE), m.get_diffuse_color(FX_ONE, FX_ONE));
}
