//! From a declared content type to a decode strategy.
//!
//! The strategy follows from the declared string alone. The bytes of the
//! payload are never looked at here.

use crate::error::{AppError, Failure};
use vstd::prelude::*;

verus! {

/// A raster codec that a payload can be declared in.
#[derive(Clone, Copy, Debug, PartialEq, Eq, Structural)]
pub enum Codec {
    Png,
    Jpeg,
    Gif,
    Bmp,
    WebP,
    Tiff,
}

/// How the bytes of a payload are turned into pixels.
#[derive(Clone, Copy, Debug, PartialEq, Eq, Structural)]
pub enum DecodeStrategy {
    /// The payload is an SVG document and is rasterized.
    Vector,
    /// The payload is a raster image of the given codec and is decoded.
    Raster(Codec),
}

/// The content type that selects the vector path.
pub const SVG_MIME_TYPE: &'static str = "image/svg+xml";

/// Equality of string slices is equality of their characters. Specifies
/// `str::eq` of the standard library.
pub assume_specification[ <str as PartialEq<str>>::eq ](a: &str, b: &str) -> (same: bool)
    ensures
        same == (a@ == b@),
;

/// The table of raster content types. Matching is exact: no trimming, no
/// case folding, no parameters.
pub open spec fn codec_of(mime: Seq<char>) -> Option<Codec> {
    if mime == "image/png"@ {
        Some(Codec::Png)
    } else if mime == "image/jpeg"@ {
        Some(Codec::Jpeg)
    } else if mime == "image/gif"@ {
        Some(Codec::Gif)
    } else if mime == "image/bmp"@ {
        Some(Codec::Bmp)
    } else if mime == "image/webp"@ {
        Some(Codec::WebP)
    } else if mime == "image/tiff"@ {
        Some(Codec::Tiff)
    } else {
        None
    }
}

/// The strategy for a declared content type, or the failure that rejects
/// it: nothing declared is `MissingMimeType`, the SVG type is the vector
/// path, a type of the raster table is that codec, anything else is
/// `InvalidMimeType` with the declared string.
pub open spec fn resolved(declared: Option<Seq<char>>) -> Result<DecodeStrategy, Failure> {
    match declared {
        None => Err(Failure::MissingMimeType),
        Some(mime) => if mime == SVG_MIME_TYPE@ {
            Ok(DecodeStrategy::Vector)
        } else {
            match codec_of(mime) {
                Some(codec) => Ok(DecodeStrategy::Raster(codec)),
                None => Err(Failure::InvalidMimeType(mime)),
            }
        },
    }
}

/// The mathematical value of a stage's result: the failure by its view.
pub open spec fn strategy_outcome(r: Result<DecodeStrategy, AppError>) -> Result<
    DecodeStrategy,
    Failure,
> {
    match r {
        Ok(strategy) => Ok(strategy),
        Err(e) => Err(e@),
    }
}

impl Codec {
    /// Looks a content type up in the raster table.
    pub fn from_mime_type(mime: &str) -> (codec: Option<Codec>)
        ensures
            codec == codec_of(mime@),
    {
        if mime.eq("image/png") {
            Some(Codec::Png)
        } else if mime.eq("image/jpeg") {
            Some(Codec::Jpeg)
        } else if mime.eq("image/gif") {
            Some(Codec::Gif)
        } else if mime.eq("image/bmp") {
            Some(Codec::Bmp)
        } else if mime.eq("image/webp") {
            Some(Codec::WebP)
        } else if mime.eq("image/tiff") {
            Some(Codec::Tiff)
        } else {
            None
        }
    }
}

/// Classifies a declared content type.
pub fn resolve(declared: Option<&str>) -> (r: Result<DecodeStrategy, AppError>)
    ensures
        strategy_outcome(r) == resolved(
            match declared {
                Some(mime) => Some(mime@),
                None => None,
            },
        ),
{
    match declared {
        None => Err(AppError::MissingMimeType),
        Some(mime) => {
            if mime.eq(SVG_MIME_TYPE) {
                Ok(DecodeStrategy::Vector)
            } else {
                match Codec::from_mime_type(mime) {
                    Some(codec) => Ok(DecodeStrategy::Raster(codec)),
                    None => Err(AppError::InvalidMimeType(mime.to_owned())),
                }
            }
        },
    }
}

} // verus!
