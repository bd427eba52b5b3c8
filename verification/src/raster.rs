//! Decoding raster payloads of a known codec.

use crate::error::{AppError, Failure};
use crate::mime::Codec;
use crate::pixel::{outcome, PixelBuffer, Raster};
use imageproc::image::{ImageError, ImageFormat, ImageReader};
use std::io::Cursor;
use vstd::prelude::*;

verus! {

/// The error type of the `image` crate, carried from its decoder and its
/// encoders to the place where it is mapped to an [`AppError`].
#[verifier::external_type_specification]
#[verifier::external_body]
pub struct ExImageError(ImageError);

/// What the `image` crate makes of `bytes` read as an image of `codec` and
/// converted to eight-bit RGBA: its size and bytes, or `None` where the
/// decoder reports an error.
pub uninterp spec fn decoded_image(bytes: Seq<u8>, codec: Codec) -> Option<Raster>;

/// `ImageReader::decode` on an in-memory reader made by
/// `ImageReader::with_format` with the format that `codec` stands for,
/// followed by `DynamicImage::into_rgba8`. The contract only says that
/// the outcome is `decoded_image` of the bytes and the codec: the same
/// bytes and codec always decode alike. Nothing is claimed of the size or
/// the byte count of what comes back.
#[verifier::external_body]
fn read_image(bytes: &[u8], codec: Codec) -> (r: Result<(u32, u32, Vec<u8>), ImageError>)
    ensures
        match r {
            Ok((width, height, pixels)) => decoded_image(bytes@, codec) == Some(
                (Raster { width, height, pixels: pixels@ }),
            ),
            Err(_) => decoded_image(bytes@, codec) is None,
        },
{
    let format = match codec {
        Codec::Png => ImageFormat::Png,
        Codec::Jpeg => ImageFormat::Jpeg,
        Codec::Gif => ImageFormat::Gif,
        Codec::Bmp => ImageFormat::Bmp,
        Codec::WebP => ImageFormat::WebP,
        Codec::Tiff => ImageFormat::Tiff,
    };
    let image = ImageReader::with_format(Cursor::new(bytes), format).decode()?.into_rgba8();
    Ok((image.width(), image.height(), image.into_raw()))
}

/// The result of decoding: the decoded image where the decoder accepts the
/// bytes and hands back four bytes per pixel, `DecodingFailure` otherwise.
pub open spec fn decode_outcome(bytes: Seq<u8>, codec: Codec) -> Result<Raster, Failure> {
    match decoded_image(bytes, codec) {
        Some(image) => if image.wf() {
            Ok(image)
        } else {
            Err(Failure::DecodingFailure)
        },
        None => Err(Failure::DecodingFailure),
    }
}

/// Decodes raster bytes with the codec that their content type selected.
/// The image keeps the size that the bytes encode. Bytes that are not a
/// valid image of that codec are a `DecodingFailure`.
pub fn decode(bytes: &[u8], codec: Codec) -> (r: Result<PixelBuffer, AppError>)
    ensures
        outcome(r) == decode_outcome(bytes@, codec),
        r matches Err(e) ==> e@ == Failure::DecodingFailure,
{
    match read_image(bytes, codec) {
        Ok((width, height, pixels)) => match PixelBuffer::from_raw(width, height, pixels) {
            Some(buffer) => Ok(buffer),
            None => Err(AppError::DecodingFailure),
        },
        Err(_) => Err(AppError::DecodingFailure),
    }
}

} // verus!
