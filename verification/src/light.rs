//! The scene's single point light.

use vstd::prelude::*;
use crate::color::Color;
use crate::vec::Vec3;

verus! {

/// A point light; the radius only sizes a visual sphere proxy, it plays no
/// part in shading.
pub struct Light {
    pub position: Vec3,
    pub color: Color,
    pub intensity: i64,
    pub radius: i64,
}

impl Light {
    pub fn new(position: Vec3, color: Color, intensity: i64, radius: i64) -> (l: Light)
        ensures
            l == (Light { position, color, intensity, radius }),
    {
        Light { position, color, intensity, radius }
    }
}

} // verus!
