use layer_compositor::error::AppError;
use layer_compositor::mime::{resolve, Codec, DecodeStrategy, SVG_MIME_TYPE};

#[test]
fn svg_is_routed_to_the_vector_path() {
    assert_eq!(resolve(Some("image/svg+xml")), Ok(DecodeStrategy::Vector));
    assert_eq!(resolve(Some(SVG_MIME_TYPE)), Ok(DecodeStrategy::Vector));
}

#[test]
fn raster_types_select_their_codec() {
    assert_eq!(resolve(Some("image/png")), Ok(DecodeStrategy::Raster(Codec::Png)));
    assert_eq!(resolve(Some("image/jpeg")), Ok(DecodeStrategy::Raster(Codec::Jpeg)));
    assert_eq!(resolve(Some("image/gif")), Ok(DecodeStrategy::Raster(Codec::Gif)));
    assert_eq!(resolve(Some("image/bmp")), Ok(DecodeStrategy::Raster(Codec::Bmp)));
    assert_eq!(resolve(Some("image/webp")), Ok(DecodeStrategy::Raster(Codec::WebP)));
    assert_eq!(resolve(Some("image/tiff")), Ok(DecodeStrategy::Raster(Codec::Tiff)));
}

#[test]
fn absent_type_is_missing() {
    assert_eq!(resolve(None), Err(AppError::MissingMimeType));
}

#[test]
fn unknown_type_is_invalid_and_quoted() {
    assert_eq!(
        resolve(Some("text/plain")),
        Err(AppError::InvalidMimeType("text/plain".to_string()))
    );
    assert_eq!(resolve(Some("")), Err(AppError::InvalidMimeType(String::new())));
}

#[test]
fn matching_is_exact() {
    assert_eq!(
        resolve(Some("IMAGE/PNG")),
        Err(AppError::InvalidMimeType("IMAGE/PNG".to_string()))
    );
    assert_eq!(
        resolve(Some("image/svg+xml; charset=utf-8")),
        Err(AppError::InvalidMimeType("image/svg+xml; charset=utf-8".to_string()))
    );
    assert_eq!(
        resolve(Some(" image/png")),
        Err(AppError::InvalidMimeType(" image/png".to_string()))
    );
    assert_eq!(
        resolve(Some("image/svg")),
        Err(AppError::InvalidMimeType("image/svg".to_string()))
    );
}

#[test]
fn codec_table_lookup() {
    assert_eq!(Codec::from_mime_type("image/png"), Some(Codec::Png));
    assert_eq!(Codec::from_mime_type("image/jpeg"), Some(Codec::Jpeg));
    assert_eq!(Codec::from_mime_type("image/jpg"), None);
    assert_eq!(Codec::from_mime_type("image/svg+xml"), None);
    assert_eq!(Codec::from_mime_type("png"), None);
}
