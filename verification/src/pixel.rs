//! Pixel buffers: four channels of eight bits per pixel, rows from the top,
//! pixels from the left.

use crate::error::{AppError, Failure};
use vstd::prelude::*;

verus! {

/// The alpha of a pixel that covers what is below it.
pub const OPAQUE: u8 = 255;

/// The alpha of a pixel that leaves what is below it untouched.
pub const TRANSPARENT: u8 = 0;

/// One pixel.
#[derive(Clone, Copy, Debug, PartialEq, Eq, Structural)]
pub struct Rgba {
    pub red: u8,
    pub green: u8,
    pub blue: u8,
    pub alpha: u8,
}

/// The mathematical value of a pixel buffer: its size and its bytes in row
/// order.
pub struct Raster {
    pub width: u32,
    pub height: u32,
    pub pixels: Seq<u8>,
}

impl Raster {
    /// There are exactly four bytes for each pixel.
    pub open spec fn wf(self) -> bool {
        self.pixels.len() == 4 * self.width * self.height
    }

    /// The number of pixels.
    pub open spec fn area(self) -> int {
        self.width * self.height
    }

    /// Both rasters have the same width and the same height.
    pub open spec fn same_size(self, other: Raster) -> bool {
        self.width == other.width && self.height == other.height
    }

    /// The pixel at position `i` in row order.
    pub open spec fn pixel(self, i: int) -> Rgba {
        Rgba {
            red: self.pixels[4 * i],
            green: self.pixels[4 * i + 1],
            blue: self.pixels[4 * i + 2],
            alpha: self.pixels[4 * i + 3],
        }
    }

    /// The pixel in column `x` of row `y`.
    pub open spec fn pixel_at(self, x: int, y: int) -> Rgba {
        self.pixel(y * self.width + x)
    }
}

/// An RGBA image in memory. Its byte count always matches its size.
#[derive(Debug, PartialEq, Eq)]
pub struct PixelBuffer {
    pub(crate) width: u32,
    pub(crate) height: u32,
    pub(crate) pixels: Vec<u8>,
}

impl View for PixelBuffer {
    type V = Raster;

    closed spec fn view(&self) -> Raster {
        Raster { width: self.width, height: self.height, pixels: self.pixels@ }
    }
}

/// The mathematical value of a stage's result: the buffer and the failure
/// by their views.
pub open spec fn outcome(r: Result<PixelBuffer, AppError>) -> Result<Raster, Failure> {
    match r {
        Ok(buffer) => Ok(buffer@),
        Err(e) => Err(e@),
    }
}

/// Positions inside a raster index its bytes: pixel `y * width + x` lies
/// within the area whenever `x` and `y` lie within the sides.
pub proof fn lemma_position_in_area(width: int, height: int, x: int, y: int)
    requires
        0 <= x < width,
        0 <= y < height,
    ensures
        0 <= y * width + x < width * height,
{
    assert(y * width + x < (y + 1) * width) by (nonlinear_arith)
        requires
            x < width,
    ;
    assert((y + 1) * width <= height * width) by (nonlinear_arith)
        requires
            y + 1 <= height,
            0 <= width,
    ;
    assert(0 <= y * width) by (nonlinear_arith)
        requires
            0 <= y,
            0 <= width,
    ;
    assert(height * width == width * height) by (nonlinear_arith);
}

/// A raster is its pixels: two well-formed rasters of one size that agree
/// at every pixel are the same raster.
pub proof fn lemma_same_pixels_same_raster(first: Raster, second: Raster)
    requires
        first.wf(),
        second.wf(),
        first.same_size(second),
        forall|i: int| 0 <= i < first.area() ==> #[trigger] first.pixel(i) == second.pixel(i),
    ensures
        first == second,
{
    assert(4 * first.width * first.height == 4 * (first.width * first.height))
        by (nonlinear_arith);
    assert forall|k: int| 0 <= k < first.pixels.len() implies first.pixels[k]
        == second.pixels[k] by {
        let i = k / 4;
        assert(first.pixel(i) == second.pixel(i));
    }
    assert(first.pixels =~= second.pixels);
}

impl Clone for PixelBuffer {
    /// A copy with the same size and the same bytes.
    fn clone(&self) -> (copy: Self)
        ensures
            copy@ == self@,
    {
        proof {
            use_type_invariant(self);
        }
        let pixels = self.pixels.clone();
        assert(pixels@ =~= self.pixels@);
        PixelBuffer { width: self.width, height: self.height, pixels }
    }
}

impl PixelBuffer {
    #[verifier::type_invariant]
    pub(crate) open spec fn well_formed(&self) -> bool {
        self@.wf()
    }

    /// Takes bytes in row order as an image of the given size; `None`
    /// unless there are exactly four bytes for each pixel.
    pub fn from_raw(width: u32, height: u32, pixels: Vec<u8>) -> (r: Option<PixelBuffer>)
        ensures
            r is Some <==> pixels@.len() == 4 * width * height,
            r matches Some(buffer) ==> buffer@ == (Raster { width, height, pixels: pixels@ }),
    {
        assert(4 * width * height <= 4 * 0xffff_ffff * 0xffff_ffff) by (nonlinear_arith)
            requires
                0 <= width <= 0xffff_ffff,
                0 <= height <= 0xffff_ffff,
        ;
        assert(4 * width <= 4 * 0xffff_ffff);
        let expected: u128 = 4 * (width as u128) * (height as u128);
        if pixels.len() as u128 == expected {
            Some(PixelBuffer { width, height, pixels })
        } else {
            None
        }
    }

    /// The number of pixels in a row.
    pub fn width(&self) -> (w: u32)
        ensures
            w == self@.width,
    {
        self.width
    }

    /// The number of rows.
    pub fn height(&self) -> (h: u32)
        ensures
            h == self@.height,
    {
        self.height
    }

    /// The bytes in row order.
    pub fn as_raw(&self) -> (bytes: &Vec<u8>)
        ensures
            bytes@ == self@.pixels,
            self@.wf(),
    {
        proof {
            use_type_invariant(self);
        }
        &self.pixels
    }

    /// Gives the bytes up.
    pub fn into_raw(self) -> (bytes: Vec<u8>)
        ensures
            bytes@ == self@.pixels,
            self@.wf(),
    {
        proof {
            use_type_invariant(&self);
        }
        self.pixels
    }

    /// The pixel in column `x` of row `y`, if there is one.
    pub fn get_pixel(&self, x: u32, y: u32) -> (p: Option<Rgba>)
        ensures
            p == if x < self@.width && y < self@.height {
                Some(self@.pixel_at(x as int, y as int))
            } else {
                None
            },
    {
        proof {
            use_type_invariant(self);
        }
        if x < self.width && y < self.height {
            proof {
                lemma_position_in_area(self.width as int, self.height as int, x as int, y as int);
                assert(4 * self.width * self.height == 4 * (self.width * self.height))
                    by (nonlinear_arith);
                assert(0 <= y * self.width) by (nonlinear_arith)
                    requires
                        0 <= y,
                        0 <= self.width,
                ;
            }
            assert(self.pixels.len() == 4 * (self.width * self.height));
            let i: usize = y as usize * self.width as usize + x as usize;
            Some(
                Rgba {
                    red: self.pixels[4 * i],
                    green: self.pixels[4 * i + 1],
                    blue: self.pixels[4 * i + 2],
                    alpha: self.pixels[4 * i + 3],
                },
            )
        } else {
            None
        }
    }
}

} // verus!
