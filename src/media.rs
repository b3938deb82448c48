//! Decoded images as the canvas receives them.

use vstd::prelude::*;

verus! {

/// A decoded image: `width` by `height` pixels, four RGBA bytes per pixel,
/// row by row.
pub struct LoadedImage {
    pub width: u32,
    pub height: u32,
    pub pixels: Vec<u8>,
}

/// Number of bytes in an RGBA buffer of `width` by `height` pixels.
fn byte_count(width: u32, height: u32) -> (r: u128)
    ensures
        r == 4 * width * height,
{
    let w = width as u128;
    let h = height as u128;
    assert(w * h <= 0xffff_ffff * 0xffff_ffff) by (nonlinear_arith)
        requires
            w <= 0xffff_ffff,
            h <= 0xffff_ffff,
    ;
    let area = w * h;
    assert(area * 4 == 4 * width * height) by (nonlinear_arith)
        requires
            area == w * h,
            w == width,
            h == height,
    ;
    area * 4
}

impl LoadedImage {
    /// The buffer holds exactly four bytes per pixel.
    pub open spec fn wf(&self) -> bool {
        self.pixels@.len() == 4 * self.width * self.height
    }

    /// An image of the given size over `pixels`, or `None` when the buffer
    /// does not hold exactly four bytes per pixel.
    pub fn new(width: u32, height: u32, pixels: Vec<u8>) -> (r: Option<LoadedImage>)
        ensures
            r is Some <==> pixels@.len() == 4 * width * height,
            r matches Some(img) ==> img.width == width && img.height == height && img.pixels
                == pixels && img.wf(),
    {
        let bytes = byte_count(width, height);
        if pixels.len() as u128 == bytes {
            Some(LoadedImage { width, height, pixels })
        } else {
            None
        }
    }

    /// Whether the buffer holds exactly four bytes per pixel.
    pub fn is_well_formed(&self) -> (r: bool)
        ensures
            r == self.wf(),
    {
        let bytes = byte_count(self.width, self.height);
        self.pixels.len() as u128 == bytes
    }
}

} // verus!
