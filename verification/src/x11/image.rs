use vstd::prelude::*;

use crate::color::RGB;
use crate::x11::errors::ImageError;

verus! {

/// The color channels packed into one native pixel word: blue in the low
/// eight bits, green above it, red above that.
pub open spec fn spec_rgb_of_word(p: u64) -> RGB {
    RGB { r: ((p >> 16) & 0xFF) as u8, g: ((p >> 8) & 0xFF) as u8, b: (p & 0xFF) as u8 }
}

/// One captured snapshot of a window's pixel contents.
///
/// The native layer keeps a snapshot as an opaque buffer whose per-pixel
/// read checks nothing and corrupts or crashes on a coordinate outside the
/// grid. This model owns the pixel words themselves, row by row, so a read
/// is checked here and an out-of-range request is refused before anything
/// reaches a buffer. Width and height are fixed at capture time; the
/// unverified edge that talks to the native layer releases the native
/// buffer exactly once, after copying the words out.
pub struct Image {
    /// The pixel words, row-major: the word for `(x, y)` sits at
    /// `y * width + x`. A well-formed snapshot holds exactly
    /// `width * height` of them (see [`Image::wf`]).
    pub pixels: Vec<u64>,
    /// Number of addressable columns.
    pub width: u32,
    /// Number of addressable rows.
    pub height: u32,
}

impl Image {
    /// The captured pixel words, row-major.
    pub open spec fn spec_pixels(self) -> Seq<u64> {
        self.pixels@
    }

    /// A snapshot holds exactly one word per cell of its grid.
    pub open spec fn wf(self) -> bool {
        self.spec_pixels().len() == self.width * self.height
    }

    /// Whether `(x, y)` lies on the captured grid.
    pub open spec fn spec_in_bounds(self, x: int, y: int) -> bool {
        0 <= x < self.width && 0 <= y < self.height
    }

    /// The pixel word captured at `(x, y)`.
    pub open spec fn spec_pixel_word(self, x: int, y: int) -> u64 {
        self.spec_pixels()[y * self.width + x]
    }

    /// What a read at `(x, y)` returns: the decoded color on the grid, a
    /// bounds error off it.
    pub open spec fn spec_get_pixel(self, x: int, y: int) -> Result<RGB, ImageError> {
        if self.spec_in_bounds(x, y) {
            Ok(spec_rgb_of_word(self.spec_pixel_word(x, y)))
        } else {
            Err(ImageError::OutOfBounds)
        }
    }

    /// Binds a grid of captured pixel words to its dimensions. The caller
    /// hands exactly one word per cell, row-major.
    pub fn new(pixels: Vec<u64>, width: u32, height: u32) -> (img: Image)
        requires
            pixels@.len() == width * height,
        ensures
            img.spec_pixels() == pixels@,
            img.width == width,
            img.height == height,
            img.wf(),
    {
        Image { pixels, width, height }
    }

    /// Reads one pixel. Coordinates on the grid yield its captured color;
    /// coordinates off the grid are refused with a bounds error, and no
    /// read of any buffer happens for them.
    pub fn get_pixel(&self, x: i32, y: i32) -> (r: Result<RGB, ImageError>)
        requires
            self.wf(),
        ensures
            r == self.spec_get_pixel(x as int, y as int),
    {
        if x < 0 || y < 0 || (x as u32) >= self.width || (y as u32) >= self.height {
            return Err(ImageError::OutOfBounds);
        }
        let xi: usize = x as usize;
        let yi: usize = y as usize;
        let wi: usize = self.width as usize;
        let len: usize = self.pixels.len();
        proof {
            assert(yi * wi + xi < wi * (self.height as int)) by (nonlinear_arith)
                requires
                    xi < wi,
                    yi < self.height as int,
            ;
            assert(yi * wi + xi < len);
            assert(yi * wi + xi == y * self.width + x);
        }
        let p: u64 = self.pixels[yi * wi + xi];
        let red: u64 = (p >> 16) & 0xFF;
        let green: u64 = (p >> 8) & 0xFF;
        let blue: u64 = p & 0xFF;
        proof {
            assert((p >> 16) & 0xFF < 256 && (p >> 8) & 0xFF < 256 && p & 0xFF < 256)
                by (bit_vector);
        }
        Ok(RGB { r: red as u8, g: green as u8, b: blue as u8 })
    }
}

/// Law: a pixel read is a pure function of the snapshot and the
/// coordinates, so repeated reads of the same coordinate of the same
/// snapshot yield identical results.
pub proof fn lemma_pixel_read_idempotent(
    img: Image,
    x: i32,
    y: i32,
    r1: Result<RGB, ImageError>,
    r2: Result<RGB, ImageError>,
)
    requires
        r1 == img.spec_get_pixel(x as int, y as int),
        r2 == img.spec_get_pixel(x as int, y as int),
    ensures
        r1 == r2,
{
}

} // verus!
