//! Forcing a decoded layer to the size of the canvas.

use crate::error::{AppError, Failure};
use crate::pixel::{outcome, PixelBuffer, Raster, Rgba};
use imageproc::image::imageops::{resize, FilterType};
use imageproc::image::ImageBuffer;
use vstd::prelude::*;

verus! {

/// The bytes that the `image` crate's nearest-neighbour resampling makes of
/// `source` for a target of `width` by `height`.
pub uninterp spec fn nearest_resized(source: Raster, width: u32, height: u32) -> Seq<u8>;

/// The resampler holds `source_width * height` pixels of sixteen bytes
/// between its two passes and hands back `width * height` pixels of four
/// bytes. Both must be allocatable.
pub open spec fn resize_fits(source_width: u32, width: u32, height: u32) -> bool {
    &&& 16 * source_width * height <= isize::MAX
    &&& 4 * width * height <= isize::MAX
}

/// `pixel` occurs in `source`.
pub open spec fn is_pixel_of(source: Raster, pixel: Rgba) -> bool {
    exists|j: int| 0 <= j < source.area() && #[trigger] source.pixel(j) == pixel
}

/// Every pixel of `out` is a pixel of `source`: resampling picks pixels
/// and never mixes them.
pub open spec fn picked_from(source: Raster, out: Raster) -> bool {
    forall|i: int| 0 <= i < out.area() ==> is_pixel_of(source, #[trigger] out.pixel(i))
}

/// `imageops::resize` with `FilterType::Nearest`, on a borrowed view of the
/// source. It returns a buffer of exactly the requested size, whatever the
/// size of the source. With this filter each target pixel is computed from
/// one source pixel with weight one, so it is a pixel of the source, as
/// long as the source has any; which one it is, `nearest_resized` leaves
/// open. The precondition keeps its two allocations within what a vector
/// can hold.
#[verifier::external_body]
fn resize_nearest(source: &PixelBuffer, width: u32, height: u32) -> (pixels: Vec<u8>)
    requires
        resize_fits(source@.width, width, height),
    ensures
        pixels@ == nearest_resized(source@, width, height),
        pixels@.len() == 4 * width * height,
        source@.area() > 0 ==> picked_from(source@, (Raster { width, height, pixels: pixels@ })),
{
    let view = ImageBuffer::<imageproc::image::Rgba<u8>, &[u8]>::from_raw(
        source.width,
        source.height,
        source.pixels.as_slice(),
    ).unwrap();
    resize(&view, width, height, FilterType::Nearest).into_raw()
}

/// A layer resampled to `width` by `height`.
pub open spec fn normalized(source: Raster, width: u32, height: u32) -> Raster {
    Raster { width, height, pixels: nearest_resized(source, width, height) }
}

/// The result of normalizing: the resampled layer, or `InvalidSize` where
/// the resampler's buffers could not be allocated.
pub open spec fn normalize_outcome(source: Raster, width: u32, height: u32) -> Result<
    Raster,
    Failure,
> {
    if resize_fits(source.width, width, height) {
        Ok(normalized(source, width, height))
    } else {
        Err(Failure::InvalidSize)
    }
}

/// `out` is what normalizing `source` to `width` by `height` gives: the
/// outcome above, and a layer that holds nothing but pixels of a source
/// that has any.
pub open spec fn normalizes_to(
    source: Raster,
    width: u32,
    height: u32,
    out: Result<Raster, Failure>,
) -> bool {
    &&& out == normalize_outcome(source, width, height)
    &&& out matches Ok(layer) ==> (source.area() > 0 ==> picked_from(source, layer))
}

/// Whether the resampler's buffers for this resize can be allocated.
pub fn can_resize(source_width: u32, width: u32, height: u32) -> (fits: bool)
    ensures
        fits == resize_fits(source_width, width, height),
{
    assert(16 * source_width * height <= 16 * 0xffff_ffff * 0xffff_ffff) by (nonlinear_arith)
        requires
            0 <= source_width <= 0xffff_ffff,
            0 <= height <= 0xffff_ffff,
    ;
    assert(4 * width * height <= 4 * 0xffff_ffff * 0xffff_ffff) by (nonlinear_arith)
        requires
            0 <= width <= 0xffff_ffff,
            0 <= height <= 0xffff_ffff,
    ;
    let limit: u128 = isize::MAX as u128;
    let between: u128 = 16 * (source_width as u128) * (height as u128);
    let after: u128 = 4 * (width as u128) * (height as u128);
    between <= limit && after <= limit
}

/// Resizes a buffer to exactly `width` by `height` by nearest-neighbour
/// sampling. The aspect ratio is not kept and nothing is padded: whatever
/// the size of the input, the output has the requested size.
pub fn normalize(buffer: &PixelBuffer, width: u32, height: u32) -> (r: Result<
    PixelBuffer,
    AppError,
>)
    ensures
        normalizes_to(buffer@, width, height, outcome(r)),
        r is Ok <==> resize_fits(buffer@.width, width, height),
        r matches Ok(layer) ==> layer@.width == width && layer@.height == height && layer@.wf(),
{
    if !can_resize(buffer.width(), width, height) {
        return Err(AppError::InvalidSize);
    }
    let pixels = resize_nearest(buffer, width, height);
    match PixelBuffer::from_raw(width, height, pixels) {
        Some(layer) => Ok(layer),
        None => Err(AppError::InvalidSize),
    }
}

/// A layer of one colour keeps that colour when it is normalized: if
/// every pixel of the source is `colour` and the normalized layer only
/// holds pixels of the source, every pixel of the normalized layer is
/// `colour`.
pub proof fn lemma_solid_stays_solid(source: Raster, layer: Raster, colour: Rgba)
    requires
        picked_from(source, layer),
        forall|j: int| 0 <= j < source.area() ==> #[trigger] source.pixel(j) == colour,
    ensures
        forall|i: int| 0 <= i < layer.area() ==> #[trigger] layer.pixel(i) == colour,
{
    assert forall|i: int| 0 <= i < layer.area() implies #[trigger] layer.pixel(i) == colour by {
        assert(is_pixel_of(source, layer.pixel(i)));
    }
}

} // verus!
