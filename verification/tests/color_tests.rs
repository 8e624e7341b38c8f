use diorama::color::{transicion_color, Color};
use diorama::fixed::FX_ONE;

#[test]
fn new_and_getters() {
    let c = Color::new(10, 20, 30);
    assert_eq!(c.r(), 10);
    assert_eq!(c.g(), 20);
    assert_eq!(c.b(), 30);
}

#[test]
fn from_hex_unpacks_channels() {
    let c = Color::from_hex(0xAABBCC);
    assert_eq!(c.r(), 0xAA);
    assert_eq!(c.g(), 0xBB);
    assert_eq!(c.b(), 0xCC);
}

#[test]
fn to_hex_packs_channels() {
    assert_eq!(Color::new(1, 2, 3).to_hex(), 0x010203);
    assert_eq!(Color::new(255, 255, 255).to_hex(), 0xFFFFFF);
}

#[test]
fn hex_round_trip() {
    let c = Color::new(4, 12, 36);
    assert_eq!(Color::from_hex(c.to_hex()), c);
}

#[test]
fn add_saturates_per_channel() {
    let a = Color::new(200, 200, 200);
    let b = Color::new(100, 1, 55);
    assert_eq!(a.add(b), Color::new(255, 201, 255));
    let black = Color::new(0, 0, 0);
    assert_eq!(a.add(black), a);
    let white = Color::new(255, 255, 255);
    assert_eq!(white.add(white), white);
}

#[test]
fn mul_scales_and_clamps() {
    let c = Color::new(100, 50, 10);
    assert_eq!(c.mul(FX_ONE / 2), Color::new(50, 25, 5));
    assert_eq!(c.mul(0), Color::new(0, 0, 0));
    assert_eq!(c.mul(-FX_ONE), Color::new(0, 0, 0));
    assert_eq!(c.mul(10 * FX_ONE), Color::new(255, 255, 100));
}

#[test]
fn lerp_at_zero_returns_first() {
    let c1 = Color::new(4, 12, 36);
    let c2 = Color::new(135, 206, 235);
    assert_eq!(c1.lerp(&c2, 0), c1);
}

#[test]
fn lerp_at_one_returns_second() {
    let c1 = Color::new(4, 12, 36);
    let c2 = Color::new(135, 206, 235);
    assert_eq!(c1.lerp(&c2, FX_ONE), c2);
}

#[test]
fn lerp_midpoint_truncates() {
    let c1 = Color::new(0, 0, 0);
    let c2 = Color::new(255, 255, 255);
    assert_eq!(c1.lerp(&c2, FX_ONE / 2), Color::new(127, 127, 127));
}

#[test]
fn transicion_color_matches_lerp() {
    let c1 = Color::new(255, 234, 100);
    let c2 = Color::new(255, 255, 255);
    let t = FX_ONE / 3;
    assert_eq!(transicion_color(&c1, &c2, t), c1.lerp(&c2, t));
    assert_eq!(transicion_color(&c1, &c2, 0), c1);
    assert_eq!(transicion_color(&c1, &c2, FX_ONE), c2);
}
