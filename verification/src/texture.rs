//! Trusted boundary around the `image` crate's RGBA buffers.
//!
//! A [`Texture`] is a shared, already-decoded RGBA image; decoding files
//! happens outside the library, which only ever receives the raw bytes.
//! The buffer's dimensions and pixel contents are named by uninterpreted
//! spec functions, pinned down by the constructor's contract over the
//! row-major byte layout, and the methods below are the only places where
//! the library touches the buffer.

use vstd::prelude::*;
use std::sync::Arc;
use image::RgbaImage;

verus! {

/// A shared, read-only, already-decoded RGBA image.
#[verifier::external_body]
pub struct Texture {
    img: Arc<RgbaImage>,
}

/// The width, in pixels, of a texture.
pub uninterp spec fn image_width(t: Texture) -> u32;

/// The height, in pixels, of a texture.
pub uninterp spec fn image_height(t: Texture) -> u32;

/// The red, green and blue channels of each pixel of a texture, keyed by
/// column and row.
pub uninterp spec fn image_rgb(t: Texture) -> Map<(int, int), (u8, u8, u8)>;

impl Texture {
    /// Relies on `image::ImageBuffer::from_raw`, which lays the buffer out
    /// row-major with four bytes per pixel: the pixel at column `x`, row `y`
    /// starts at byte `4 * (y * width + x)`.
    #[verifier::external_body]
    pub fn from_rgba(width: u32, height: u32, data: Vec<u8>) -> (t: Texture)
        requires
            data@.len() == 4 * width * height,
        ensures
            image_width(t) == width,
            image_height(t) == height,
            forall|x: int, y: int|
                0 <= x < width && 0 <= y < height ==> image_rgb(t)[(x, y)] == (
                    data@[4 * (y * width + x)],
                    data@[4 * (y * width + x) + 1],
                    data@[4 * (y * width + x) + 2],
                ),
    {
        let img = RgbaImage::from_raw(width, height, data).unwrap();
        Texture { img: Arc::new(img) }
    }

    /// Relies on `image::ImageBuffer::width`: the stored width.
    #[verifier::external_body]
    pub fn width(&self) -> (w: u32)
        ensures
            w == image_width(*self),
    {
        self.img.width()
    }

    /// Relies on `image::ImageBuffer::height`: the stored height.
    #[verifier::external_body]
    pub fn height(&self) -> (h: u32)
        ensures
            h == image_height(*self),
    {
        self.img.height()
    }

    /// Relies on `image::ImageBuffer::get_pixel`, which panics outside the
    /// width × height bounds: the channels of the pixel at column `x`, row
    /// `y`, alpha dropped.
    #[verifier::external_body]
    pub fn pixel(&self, x: u32, y: u32) -> (rgb: (u8, u8, u8))
        requires
            x < image_width(*self),
            y < image_height(*self),
        ensures
            rgb == image_rgb(*self)[(x as int, y as int)],
    {
        let p = self.img.get_pixel(x, y);
        (p.0[0], p.0[1], p.0[2])
    }

    /// Relies on `Arc::clone`: the clone shares the same image.
    #[verifier::external_body]
    pub fn clone(&self) -> (t: Texture)
        ensures
            t == *self,
    {
        Texture { img: Arc::clone(&self.img) }
    }
}

} // verus!
