//! Image-mapped texture: pixel storage and addressing.
//!
//! An image texture samples an already-decoded RGB image by nearest
//! neighbor. Mapping the surface coordinates `(u, v)` to a pixel column and
//! row is floating point and happens outside this library; the storage, the
//! clamping of the column and row to the image, and the pixel fetch are
//! verified here.

use vstd::prelude::*;

verus! {

/// Bytes per pixel of the decoded image: one each for red, green, blue.
pub const BYTES_PER_PIXEL: usize = 3;

/// A coordinate clamped to `0 .. len`: `x` itself when in range, else the
/// last valid value. Guards the boundary where a surface coordinate of
/// exactly one would map to `len`.
pub open spec fn clamp_below(x: int, len: int) -> int {
    if x < len - 1 {
        x
    } else {
        len - 1
    }
}

/// A texture that samples a decoded RGB image, rows stored top to bottom.
#[derive(Clone)]
pub struct ImageTexture {
    pub data: Vec<u8>,
    pub width: usize,
    pub height: usize,
}

impl ImageTexture {
    /// The bytes hold exactly one RGB triple per pixel.
    pub open spec fn wf(self) -> bool {
        self.data@.len() == BYTES_PER_PIXEL * self.width * self.height
    }

    /// Wraps already-decoded RGB bytes with their dimensions, as given.
    pub fn new(data: Vec<u8>, width: usize, height: usize) -> (texture: Self)
        ensures
            texture.data@ == data@,
            texture.width == width,
            texture.height == height,
    {
        ImageTexture { data, width, height }
    }

    /// Position of the first byte of the pixel in column `i`, row `j`,
    /// after both are clamped to the image.
    pub open spec fn texel_start(self, i: int, j: int) -> int {
        clamp_below(j, self.height as int) * (BYTES_PER_PIXEL * self.width as int) + clamp_below(
            i,
            self.width as int,
        ) * BYTES_PER_PIXEL
    }

    /// The RGB triple of the pixel in column `i`, row `j`, each clamped to
    /// the image; never out of bounds.
    pub fn texel(&self, i: usize, j: usize) -> (rgb: (u8, u8, u8))
        requires
            self.wf(),
            0 < self.width,
            0 < self.height,
        ensures
            rgb.0 == self.data@[self.texel_start(i as int, j as int)],
            rgb.1 == self.data@[self.texel_start(i as int, j as int) + 1],
            rgb.2 == self.data@[self.texel_start(i as int, j as int) + 2],
    {
        let i = if i < self.width - 1 {
            i
        } else {
            self.width - 1
        };
        let j = if j < self.height - 1 {
            j
        } else {
            self.height - 1
        };
        let n = self.data.len();
        proof {
            let w = self.width as int;
            let h = self.height as int;
            assert(3 * w <= 3 * w * h && (j as int) * (3 * w) + (i as int) * 3 + 3 <= 3 * w * h)
                by (nonlinear_arith)
                requires
                    0 <= j as int <= h - 1,
                    0 <= i as int <= w - 1,
                    0 < w,
                    0 < h,
            ;
        }
        let bytes_per_scanline = BYTES_PER_PIXEL * self.width;
        let index = j * bytes_per_scanline + i * BYTES_PER_PIXEL;
        (self.data[index], self.data[index + 1], self.data[index + 2])
    }
}

} // verus!
