use imageproc::image::{ImageFormat, Rgba, RgbaImage};
use layer_compositor::encoder::encode;
use layer_compositor::error::AppError;
use layer_compositor::pipeline::{
    compose_layers, create_document, decode_base, prepare_layer, prepare_parsed, Payload,
    TransformRequest,
};
use layer_compositor::pixel::{PixelBuffer, Rgba as Pixel};
use resvg::usvg::{Options, Tree};
use std::io::Cursor;

const RED: [u8; 4] = [255, 0, 0, 255];
const GREEN: [u8; 4] = [0, 255, 0, 255];
const BLUE: [u8; 4] = [0, 0, 255, 255];
const CLEAR: [u8; 4] = [0, 0, 0, 0];

const GREEN_SVG: &str = "<svg xmlns=\"http://www.w3.org/2000/svg\" width=\"10\" height=\"10\">\
<rect width=\"10\" height=\"10\" fill=\"#00ff00\"/></svg>";

fn png(width: u32, height: u32, colour: [u8; 4]) -> Vec<u8> {
    let image = RgbaImage::from_pixel(width, height, Rgba(colour));
    let mut bytes = Cursor::new(Vec::new());
    image.write_to(&mut bytes, ImageFormat::Png).unwrap();
    bytes.into_inner()
}

fn payload(contents: Vec<u8>, content_type: &str) -> Payload {
    Payload { contents, content_type: Some(content_type.to_string()) }
}

fn untyped(contents: Vec<u8>) -> Payload {
    Payload { contents, content_type: None }
}

fn solid(width: u32, height: u32, colour: [u8; 4]) -> PixelBuffer {
    PixelBuffer::from_raw(width, height, vec![colour; (width * height) as usize].concat()).unwrap()
}

fn decoded(jpeg: &[u8]) -> imageproc::image::RgbImage {
    imageproc::image::load_from_memory_with_format(jpeg, ImageFormat::Jpeg).unwrap().into_rgb8()
}

fn close_to(pixel: &imageproc::image::Rgb<u8>, colour: [u8; 4]) -> bool {
    (0..3).all(|c| (pixel[c] as i32 - colour[c] as i32).abs() <= 12)
}

#[test]
fn blue_overlay_covers_red_base() {
    let request = TransformRequest {
        image: payload(png(100, 100, RED), "image/png"),
        layers: vec![payload(png(50, 50, BLUE), "image/png")],
    };
    let jpeg = create_document(&request, &Options::default()).unwrap();
    let image = decoded(&jpeg);
    assert_eq!((image.width(), image.height()), (100, 100));
    for pixel in image.pixels() {
        assert!(close_to(pixel, BLUE));
    }
}

#[test]
fn blue_overlay_is_resized_to_the_canvas_before_it_is_drawn() {
    let base = decode_base(&payload(png(100, 100, RED), "image/png")).unwrap();
    let layers = vec![payload(png(50, 50, BLUE), "image/png")];
    let layer = prepare_layer(&layers[0], &Options::default(), 100, 100).unwrap();
    assert_eq!(layer, solid(100, 100, BLUE));
    let canvas = compose_layers(&base, &layers, &Options::default()).unwrap();
    assert_eq!(canvas, solid(100, 100, BLUE));
    assert_eq!(base, solid(100, 100, RED));
}

#[test]
fn no_layers_gives_the_base_re_encoded() {
    let request =
        TransformRequest { image: payload(png(100, 100, RED), "image/png"), layers: Vec::new() };
    let jpeg = create_document(&request, &Options::default()).unwrap();
    assert_eq!(jpeg, encode(&solid(100, 100, RED)).unwrap());
    let image = decoded(&jpeg);
    assert_eq!((image.width(), image.height()), (100, 100));
    for pixel in image.pixels() {
        assert!(close_to(pixel, RED));
    }
}

#[test]
fn no_layers_folds_to_the_base() {
    let base = solid(3, 2, GREEN);
    assert_eq!(compose_layers(&base, &[], &Options::default()), Ok(solid(3, 2, GREEN)));
}

#[test]
fn swapping_opaque_layers_changes_the_top_left_pixel() {
    let base = solid(4, 4, RED);
    let green = payload(png(2, 2, GREEN), "image/png");
    let blue = payload(png(8, 8, BLUE), "image/png");
    let options = Options::default();
    let one = compose_layers(&base, &vec![green.clone(), blue.clone()], &options).unwrap();
    let other = compose_layers(&base, &vec![blue, green], &options).unwrap();
    assert_eq!(one.get_pixel(0, 0), Some(Pixel { red: 0, green: 0, blue: 255, alpha: 255 }));
    assert_eq!(other.get_pixel(0, 0), Some(Pixel { red: 0, green: 255, blue: 0, alpha: 255 }));
}

#[test]
fn swapping_opaque_layers_changes_the_document() {
    let green = payload(png(2, 2, GREEN), "image/png");
    let blue = payload(png(8, 8, BLUE), "image/png");
    let options = Options::default();
    let one = create_document(
        &TransformRequest {
            image: payload(png(16, 16, RED), "image/png"),
            layers: vec![green.clone(), blue.clone()],
        },
        &options,
    )
    .unwrap();
    let other = create_document(
        &TransformRequest {
            image: payload(png(16, 16, RED), "image/png"),
            layers: vec![blue, green],
        },
        &options,
    )
    .unwrap();
    assert!(close_to(decoded(&one).get_pixel(0, 0), BLUE));
    assert!(close_to(decoded(&other).get_pixel(0, 0), GREEN));
}

#[test]
fn an_opaque_layer_shows_through_transparent_ones_above_it() {
    let base = solid(6, 6, RED);
    let layers = vec![
        payload(png(2, 2, BLUE), "image/png"),
        payload(png(3, 3, GREEN), "image/png"),
        payload(png(4, 4, CLEAR), "image/png"),
        payload(png(1, 1, CLEAR), "image/png"),
    ];
    assert_eq!(compose_layers(&base, &layers, &Options::default()), Ok(solid(6, 6, GREEN)));
}

#[test]
fn payloads_are_cloned_with_their_content_type() {
    let typed = payload(vec![1, 2, 3], "image/png");
    assert_eq!(typed.clone(), typed);
    assert_eq!(typed.clone().content_type, Some("image/png".to_string()));
    let bare = untyped(vec![4, 5]);
    assert_eq!(bare.clone(), bare);
    assert_eq!(bare.clone().contents, vec![4, 5]);
}

#[test]
fn a_transparent_layer_changes_nothing() {
    let base = solid(5, 5, RED);
    let layers = vec![payload(png(3, 9, CLEAR), "image/png")];
    assert_eq!(compose_layers(&base, &layers, &Options::default()), Ok(solid(5, 5, RED)));
}

#[test]
fn an_svg_layer_is_rasterized_and_drawn() {
    let request = TransformRequest {
        image: payload(png(20, 20, RED), "image/png"),
        layers: vec![payload(GREEN_SVG.as_bytes().to_vec(), "image/svg+xml")],
    };
    let jpeg = create_document(&request, &Options::default()).unwrap();
    let image = decoded(&jpeg);
    assert_eq!((image.width(), image.height()), (20, 20));
    for pixel in image.pixels() {
        assert!(close_to(pixel, GREEN));
    }
}

#[test]
fn prepared_layers_have_the_size_of_the_canvas() {
    let options = Options::default();
    for (width, height) in [(100, 100), (30, 20), (7, 13), (1, 1), (10, 10)] {
        let raster = prepare_layer(&payload(png(50, 50, BLUE), "image/png"), &options, width, height)
            .unwrap();
        assert_eq!((raster.width(), raster.height()), (width, height));
        let vector = prepare_layer(
            &payload(GREEN_SVG.as_bytes().to_vec(), "image/svg+xml"),
            &options,
            width,
            height,
        )
        .unwrap();
        assert_eq!((vector.width(), vector.height()), (width, height));
    }
}

#[test]
fn a_corrupt_overlay_is_a_decoding_failure() {
    let request = TransformRequest {
        image: payload(png(10, 10, RED), "image/png"),
        layers: vec![payload(b"\x89PNG but not really".to_vec(), "image/png")],
    };
    assert_eq!(
        create_document(&request, &Options::default()),
        Err(AppError::DecodingFailure)
    );
}

#[test]
fn a_corrupt_base_is_a_decoding_failure() {
    let request = TransformRequest {
        image: payload(vec![1, 2, 3], "image/jpeg"),
        layers: vec![payload(png(5, 5, BLUE), "image/png")],
    };
    assert_eq!(
        create_document(&request, &Options::default()),
        Err(AppError::DecodingFailure)
    );
}

#[test]
fn an_overlay_without_content_type_is_missing_its_mime_type() {
    let request = TransformRequest {
        image: payload(png(10, 10, RED), "image/png"),
        layers: vec![untyped(png(5, 5, BLUE))],
    };
    assert_eq!(
        create_document(&request, &Options::default()),
        Err(AppError::MissingMimeType)
    );
    assert_eq!(
        prepare_layer(&untyped(png(5, 5, BLUE)), &Options::default(), 10, 10),
        Err(AppError::MissingMimeType)
    );
}

#[test]
fn the_first_failing_overlay_decides() {
    let good = payload(png(5, 5, BLUE), "image/png");
    let corrupt = payload(vec![0; 16], "image/png");
    let unknown = payload(png(5, 5, BLUE), "application/pdf");
    let not_svg = payload(png(5, 5, BLUE), "image/svg+xml");
    let base = solid(10, 10, RED);
    let options = Options::default();
    assert_eq!(
        compose_layers(
            &base,
            &vec![good.clone(), untyped(Vec::new()), corrupt.clone(), unknown.clone()],
            &options
        ),
        Err(AppError::MissingMimeType)
    );
    assert_eq!(
        compose_layers(&base, &vec![corrupt.clone(), untyped(Vec::new())], &options),
        Err(AppError::DecodingFailure)
    );
    assert_eq!(
        compose_layers(&base, &vec![good.clone(), unknown, corrupt, not_svg.clone()], &options),
        Err(AppError::InvalidMimeType("application/pdf".to_string()))
    );
    assert_eq!(
        compose_layers(&base, &vec![good, not_svg, untyped(Vec::new())], &options),
        Err(AppError::SvgParserFailure)
    );
}

#[test]
fn an_svg_declaration_is_never_sniffed() {
    let png_as_svg = payload(png(5, 5, BLUE), "image/svg+xml");
    assert_eq!(
        prepare_layer(&png_as_svg, &Options::default(), 10, 10),
        Err(AppError::SvgParserFailure)
    );
    let svg_as_png = payload(GREEN_SVG.as_bytes().to_vec(), "image/png");
    assert_eq!(
        prepare_layer(&svg_as_png, &Options::default(), 10, 10),
        Err(AppError::DecodingFailure)
    );
}

#[test]
fn the_base_must_be_a_declared_raster_image() {
    assert_eq!(decode_base(&untyped(png(5, 5, RED))), Err(AppError::MissingMimeType));
    assert_eq!(
        decode_base(&payload(GREEN_SVG.as_bytes().to_vec(), "image/svg+xml")),
        Err(AppError::InvalidMimeType("image/svg+xml".to_string()))
    );
    assert_eq!(
        decode_base(&payload(png(5, 5, RED), "image/x-unknown")),
        Err(AppError::InvalidMimeType("image/x-unknown".to_string()))
    );
    assert_eq!(decode_base(&payload(png(5, 3, RED), "image/png")), Ok(solid(5, 3, RED)));
}

#[test]
fn a_failing_base_comes_before_the_overlays() {
    let request = TransformRequest {
        image: untyped(png(5, 5, RED)),
        layers: vec![payload(vec![0; 4], "image/png")],
    };
    assert_eq!(
        create_document(&request, &Options::default()),
        Err(AppError::MissingMimeType)
    );
}

#[test]
fn the_same_request_gives_the_same_bytes() {
    let request = TransformRequest {
        image: payload(png(12, 9, RED), "image/png"),
        layers: vec![
            payload(png(3, 3, [0, 0, 255, 100]), "image/png"),
            payload(GREEN_SVG.as_bytes().to_vec(), "image/svg+xml"),
        ],
    };
    let options = Options::default();
    assert_eq!(create_document(&request, &options), create_document(&request, &options));
}

#[test]
fn a_base_too_wide_for_a_jpeg_is_an_encoding_failure() {
    let request = TransformRequest {
        image: payload(png(65536, 1, RED), "image/png"),
        layers: vec![payload(png(2, 2, BLUE), "image/png")],
    };
    assert_eq!(
        create_document(&request, &Options::default()),
        Err(AppError::EncodingFailure)
    );
}

#[test]
fn a_vector_layer_for_a_canvas_without_pixels_is_an_invalid_size() {
    let layer = payload(GREEN_SVG.as_bytes().to_vec(), "image/svg+xml");
    let options = Options::default();
    assert_eq!(prepare_layer(&layer, &options, 0, 10), Err(AppError::InvalidSize));
    assert_eq!(prepare_layer(&layer, &options, 10, 0), Err(AppError::InvalidSize));
    assert_eq!(
        compose_layers(&solid(0, 0, RED), &[layer], &options),
        Err(AppError::InvalidSize)
    );
}

#[test]
fn a_raster_layer_for_a_canvas_without_pixels_is_empty() {
    let layer = payload(png(3, 3, BLUE), "image/png");
    let prepared = prepare_layer(&layer, &Options::default(), 0, 0).unwrap();
    assert_eq!((prepared.width(), prepared.height()), (0, 0));
    assert_eq!(compose_layers(&solid(0, 0, RED), &[layer], &Options::default()), Ok(solid(0, 0, RED)));
}

#[test]
fn a_wide_svg_layer_comes_back_at_the_size_of_the_canvas() {
    let wide = "<svg xmlns='http://www.w3.org/2000/svg' width='20' height='10'>\
<rect width='20' height='10' fill='#0000ff'/></svg>";
    let layer = payload(wide.as_bytes().to_vec(), "image/svg+xml");
    let prepared = prepare_layer(&layer, &Options::default(), 100, 100).unwrap();
    assert_eq!((prepared.width(), prepared.height()), (100, 100));
}

#[test]
fn a_png_declared_as_svg_is_a_parser_failure() {
    let image = imageproc::image::RgbImage::from_pixel(4, 4, imageproc::image::Rgb([0, 0, 255]));
    let mut bytes = Cursor::new(Vec::new());
    image.write_to(&mut bytes, ImageFormat::Png).unwrap();
    let layer = payload(bytes.into_inner(), "image/svg+xml");
    assert_eq!(
        prepare_layer(&layer, &Options::default(), 4, 4),
        Err(AppError::SvgParserFailure)
    );
}

#[test]
fn parsing_comes_before_the_size_check() {
    let options = Options::default();
    let empty = "<svg xmlns='http://www.w3.org/2000/svg' width='4' height='4'/>";
    let layer = payload(empty.as_bytes().to_vec(), "image/svg+xml");
    assert_eq!(prepare_layer(&layer, &options, 0, 10), Err(AppError::InvalidSize));
    let bad = payload(b"<svg".to_vec(), "image/svg+xml");
    assert_eq!(prepare_layer(&bad, &options, 0, 10), Err(AppError::SvgParserFailure));
    assert_eq!(prepare_layer(&bad, &options, 10, 10), Err(AppError::SvgParserFailure));
}

#[test]
fn what_follows_parsing_is_fixed_by_its_result() {
    let options = Options::default();
    assert_eq!(
        prepare_parsed(Tree::from_data(b"no document", &options), 8, 8),
        Err(AppError::SvgParserFailure)
    );
    assert_eq!(
        prepare_parsed(Tree::from_data(b"no document", &options), 0, 0),
        Err(AppError::SvgParserFailure)
    );
    assert_eq!(
        prepare_parsed(Tree::from_data(GREEN_SVG.as_bytes(), &options), 0, 8),
        Err(AppError::InvalidSize)
    );
    assert_eq!(
        prepare_parsed(Tree::from_data(GREEN_SVG.as_bytes(), &options), 8, 6),
        Ok(solid(8, 6, GREEN))
    );
}

#[test]
fn transparent_overlays_do_not_change_the_bytes() {
    let options = Options::default();
    let clear = payload(png(3, 5, CLEAR), "image/png");
    let request = |layers: Vec<Payload>| TransformRequest {
        image: payload(png(16, 12, [200, 40, 90, 255]), "image/png"),
        layers,
    };
    let none = create_document(&request(Vec::new()), &options).unwrap();
    let one = create_document(&request(vec![clear.clone()]), &options).unwrap();
    let three =
        create_document(&request(vec![clear.clone(), clear.clone(), clear]), &options).unwrap();
    assert_eq!(none, one);
    assert_eq!(none, three);
}
