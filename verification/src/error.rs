//! The failure taxonomy of the compositing pipeline and the plain values
//! (status, title, details) by which a failure is reported.

use vstd::prelude::*;
use vstd::string::StringExecFns;

verus! {

/// Why a request could not be turned into an image.
#[derive(Debug, PartialEq, Eq)]
pub enum AppError {
    /// A payload came without a declared content type.
    MissingMimeType,
    /// A payload declared a content type that no decoder is known for.
    InvalidMimeType(String),
    /// The bytes of a raster payload are not an image of the declared codec.
    DecodingFailure,
    /// The canvas could not be serialized.
    EncodingFailure,
    /// The bytes of a vector payload are not an SVG document.
    SvgParserFailure,
    /// A canvas, a document or a render target has a side of length zero,
    /// or a buffer of the size asked for cannot be allocated.
    InvalidSize,
    /// The vector renderer failed on a document that it had parsed. No
    /// stage reports this today: rendering has no failure of its own.
    RenderFailure,
}

/// The mathematical value of an [`AppError`]: the same variants, the
/// offending content type as a sequence of characters.
pub enum Failure {
    MissingMimeType,
    InvalidMimeType(Seq<char>),
    DecodingFailure,
    EncodingFailure,
    SvgParserFailure,
    InvalidSize,
    RenderFailure,
}

impl View for AppError {
    type V = Failure;

    open spec fn view(&self) -> Failure {
        match self {
            AppError::MissingMimeType => Failure::MissingMimeType,
            AppError::InvalidMimeType(mime) => Failure::InvalidMimeType(mime@),
            AppError::DecodingFailure => Failure::DecodingFailure,
            AppError::EncodingFailure => Failure::EncodingFailure,
            AppError::SvgParserFailure => Failure::SvgParserFailure,
            AppError::InvalidSize => Failure::InvalidSize,
            AppError::RenderFailure => Failure::RenderFailure,
        }
    }
}

/// Status of a request that the caller got wrong.
pub const BAD_REQUEST: u16 = 400;

/// Status of a request that failed while it was worked on.
pub const INTERNAL_SERVER_ERROR: u16 = 500;

impl Failure {
    /// The status class of a failure: a missing or unknown content type and
    /// an invalid size are the caller's fault, everything else is ours.
    pub open spec fn status_code(self) -> u16 {
        match self {
            Failure::MissingMimeType => BAD_REQUEST,
            Failure::InvalidMimeType(_) => BAD_REQUEST,
            Failure::InvalidSize => BAD_REQUEST,
            Failure::DecodingFailure => INTERNAL_SERVER_ERROR,
            Failure::EncodingFailure => INTERNAL_SERVER_ERROR,
            Failure::SvgParserFailure => INTERNAL_SERVER_ERROR,
            Failure::RenderFailure => INTERNAL_SERVER_ERROR,
        }
    }

    /// The short title under which a failure is reported.
    pub open spec fn title(self) -> Seq<char> {
        match self {
            Failure::DecodingFailure => "Decoding-Error"@,
            Failure::MissingMimeType => "MimeType-Error"@,
            Failure::InvalidMimeType(_) => "MimeType-Error"@,
            Failure::EncodingFailure => "Encoding-Error"@,
            Failure::SvgParserFailure => "Svg-Error"@,
            Failure::InvalidSize => "Transform-Error"@,
            Failure::RenderFailure => "Svg-Error"@,
        }
    }

    /// The sentence that explains a failure; an unknown content type is
    /// quoted in it.
    pub open spec fn details(self) -> Seq<char> {
        match self {
            Failure::DecodingFailure => "Failed to decode one of the overlays"@,
            Failure::MissingMimeType => "Missing mime type for one of the overlays"@,
            Failure::InvalidMimeType(mime) => "Invalid mime type ("@ + mime
                + ")for one of the overlays"@,
            Failure::EncodingFailure => "Failed to encode the image"@,
            Failure::SvgParserFailure => "Failed to parse one of the svg-overlays"@,
            Failure::InvalidSize => "The image or overlay has an invalid size"@,
            Failure::RenderFailure => "Failed to parse one of the svg-overlays"@,
        }
    }
}

impl Clone for AppError {
    /// A copy of the same kind, with the same content type if it has one.
    fn clone(&self) -> (copy: Self)
        ensures
            copy@ == self@,
    {
        match self {
            AppError::MissingMimeType => AppError::MissingMimeType,
            AppError::InvalidMimeType(mime) => AppError::InvalidMimeType(mime.clone()),
            AppError::DecodingFailure => AppError::DecodingFailure,
            AppError::EncodingFailure => AppError::EncodingFailure,
            AppError::SvgParserFailure => AppError::SvgParserFailure,
            AppError::InvalidSize => AppError::InvalidSize,
            AppError::RenderFailure => AppError::RenderFailure,
        }
    }
}

impl AppError {
    /// The numeric status to answer with.
    pub fn status_code(&self) -> (code: u16)
        ensures
            code == self@.status_code(),
            code == BAD_REQUEST || code == INTERNAL_SERVER_ERROR,
    {
        match self {
            AppError::MissingMimeType | AppError::InvalidMimeType(_) | AppError::InvalidSize => {
                BAD_REQUEST
            },
            AppError::DecodingFailure
            | AppError::EncodingFailure
            | AppError::SvgParserFailure
            | AppError::RenderFailure => INTERNAL_SERVER_ERROR,
        }
    }

    /// The title of the error report.
    pub fn title(&self) -> (title: &'static str)
        ensures
            title@ == self@.title(),
    {
        match self {
            AppError::DecodingFailure => "Decoding-Error",
            AppError::MissingMimeType | AppError::InvalidMimeType(_) => "MimeType-Error",
            AppError::EncodingFailure => "Encoding-Error",
            AppError::SvgParserFailure | AppError::RenderFailure => "Svg-Error",
            AppError::InvalidSize => "Transform-Error",
        }
    }

    /// The details of the error report.
    pub fn details(&self) -> (details: String)
        ensures
            details@ == self@.details(),
    {
        match self {
            AppError::DecodingFailure => "Failed to decode one of the overlays".to_owned(),
            AppError::MissingMimeType => "Missing mime type for one of the overlays".to_owned(),
            AppError::InvalidMimeType(mime) => {
                let mut text = "Invalid mime type (".to_owned();
                text.append(mime.as_str());
                text.append(")for one of the overlays");
                text
            },
            AppError::EncodingFailure => "Failed to encode the image".to_owned(),
            AppError::SvgParserFailure => "Failed to parse one of the svg-overlays".to_owned(),
            AppError::InvalidSize => "The image or overlay has an invalid size".to_owned(),
            AppError::RenderFailure => "Failed to parse one of the svg-overlays".to_owned(),
        }
    }
}

} // verus!
