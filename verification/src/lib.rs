//! A software ray tracer core: analytic ray/sphere and ray/cube intersection,
//! per-face UV mapping, nearest-neighbor texture sampling and Phong-style
//! shading, rendered into a packed-pixel buffer.
//!
//! All geometry is carried by saturating fixed-point scalars with
//! [`fixed::FX_ONE`] as the unit, so every numeric step of the pipeline has an
//! exact, machine-checked meaning. Window presentation, camera kinematics and
//! texture decoding live outside the library; texture pixels are read through
//! a small trusted boundary around the `image` crate.

pub mod color;
pub mod cube;
pub mod fixed;
pub mod light;
pub mod ray_intersect;
pub mod render;
pub mod sphere;
pub mod material;
pub mod texture;
pub mod vec;
