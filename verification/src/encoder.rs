//! Serializing the finished canvas.

use crate::error::{AppError, Failure};
use crate::pixel::{PixelBuffer, Raster};
use imageproc::image::codecs::jpeg::JpegEncoder;
use imageproc::image::{DynamicImage, ImageError, RgbaImage};
use vstd::prelude::*;

verus! {

/// The content type of what [`encode`] returns.
pub const JPEG_MIME_TYPE: &'static str = "image/jpeg";

/// The longest side that a JPEG frame header can record.
pub const MAX_JPEG_SIDE: u32 = 65535;

/// The bytes that the `image` crate's JPEG encoder writes for `canvas` at
/// its default quality, or `None` where it reports an error.
pub uninterp spec fn jpeg_encoded(canvas: Raster) -> Option<Seq<u8>>;

/// The sizes that the JPEG encoder takes: both sides at least one and at
/// most [`MAX_JPEG_SIDE`].
pub open spec fn jpeg_size_ok(width: u32, height: u32) -> bool {
    1 <= width <= MAX_JPEG_SIDE && 1 <= height <= MAX_JPEG_SIDE
}

/// `DynamicImage::write_with_encoder` with `JpegEncoder::new` on a growing
/// vector. The encoder is created with its default quality and drops the
/// alpha channel. It returns an error exactly when a side of the image is
/// zero or does not fit the sixteen bits of the frame header; writing into
/// a vector does not fail.
#[verifier::external_body]
fn write_jpeg(canvas: &PixelBuffer) -> (r: Result<Vec<u8>, ImageError>)
    ensures
        match r {
            Ok(bytes) => jpeg_encoded(canvas@) == Some(bytes@),
            Err(_) => jpeg_encoded(canvas@) is None,
        },
        r is Ok <==> jpeg_size_ok(canvas@.width, canvas@.height),
{
    let image = RgbaImage::from_raw(canvas.width, canvas.height, canvas.pixels.clone()).unwrap();
    let mut bytes = Vec::new();
    DynamicImage::ImageRgba8(image).write_with_encoder(JpegEncoder::new(&mut bytes))?;
    Ok(bytes)
}

/// The result of encoding: the JPEG bytes, or `EncodingFailure` where the
/// encoder rejects the canvas.
pub open spec fn encode_outcome(canvas: Raster) -> Result<Seq<u8>, Failure> {
    match jpeg_encoded(canvas) {
        Some(bytes) => Ok(bytes),
        None => Err(Failure::EncodingFailure),
    }
}

/// The mathematical value of an encoder's result.
pub open spec fn bytes_outcome(r: Result<Vec<u8>, AppError>) -> Result<Seq<u8>, Failure> {
    match r {
        Ok(bytes) => Ok(bytes@),
        Err(e) => Err(e@),
    }
}

/// Serializes the canvas as a JPEG at the encoder's default quality. The
/// bytes depend on the canvas alone, so encoding a canvas twice gives the
/// same bytes twice. A canvas with a side of zero, or one longer than
/// [`MAX_JPEG_SIDE`], is an `EncodingFailure`; every other canvas encodes.
pub fn encode(canvas: &PixelBuffer) -> (r: Result<Vec<u8>, AppError>)
    ensures
        bytes_outcome(r) == encode_outcome(canvas@),
        r is Ok <==> jpeg_size_ok(canvas@.width, canvas@.height),
        r matches Err(e) ==> e@ == Failure::EncodingFailure,
{
    match write_jpeg(canvas) {
        Ok(bytes) => Ok(bytes),
        Err(_) => Err(AppError::EncodingFailure),
    }
}

/// Encoding is repeatable: canvases of the same size and the same bytes
/// encode to the same bytes, or are both rejected.
pub proof fn lemma_encode_is_repeatable(first: Raster, second: Raster)
    requires
        first.same_size(second),
        first.pixels =~= second.pixels,
    ensures
        encode_outcome(first) == encode_outcome(second),
{
    assert(first == second);
}

} // verus!
