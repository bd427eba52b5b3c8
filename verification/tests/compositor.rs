use imageproc::image::imageops::overlay;
use imageproc::image::RgbaImage;
use layer_compositor::compositor::accumulate;
use layer_compositor::pixel::{PixelBuffer, Rgba};

const RED: [u8; 4] = [255, 0, 0, 255];
const BLUE: [u8; 4] = [0, 0, 255, 255];
const GREEN: [u8; 4] = [0, 255, 0, 255];
const CLEAR: [u8; 4] = [9, 9, 9, 0];
const HALF_BLUE: [u8; 4] = [0, 0, 255, 128];

fn canvas_of(width: u32, height: u32, pixels: &[[u8; 4]]) -> PixelBuffer {
    PixelBuffer::from_raw(width, height, pixels.concat()).unwrap()
}

#[test]
fn an_opaque_layer_replaces_the_canvas() {
    let mut canvas = canvas_of(2, 1, &[RED, RED]);
    accumulate(&mut canvas, &canvas_of(2, 1, &[BLUE, GREEN]));
    assert_eq!(canvas, canvas_of(2, 1, &[BLUE, GREEN]));
}

#[test]
fn a_transparent_layer_leaves_the_canvas() {
    let mut canvas = canvas_of(2, 1, &[RED, HALF_BLUE]);
    accumulate(&mut canvas, &canvas_of(2, 1, &[CLEAR, CLEAR]));
    assert_eq!(canvas, canvas_of(2, 1, &[RED, HALF_BLUE]));
}

#[test]
fn each_pixel_goes_by_its_own_alpha() {
    let mut canvas = canvas_of(2, 2, &[RED, RED, RED, RED]);
    accumulate(&mut canvas, &canvas_of(2, 2, &[BLUE, CLEAR, CLEAR, GREEN]));
    assert_eq!(canvas, canvas_of(2, 2, &[BLUE, RED, RED, GREEN]));
}

#[test]
fn a_translucent_layer_is_mixed_in() {
    let mut canvas = canvas_of(1, 1, &[RED]);
    accumulate(&mut canvas, &canvas_of(1, 1, &[HALF_BLUE]));
    let pixel = canvas.get_pixel(0, 0).unwrap();
    assert!(pixel.red >= 126 && pixel.red <= 128);
    assert_eq!(pixel.green, 0);
    assert!(pixel.blue >= 127 && pixel.blue <= 129);
    assert!(pixel.alpha >= 254);
}

#[test]
fn the_blend_is_the_image_crates_overlay() {
    let bottom: Vec<u8> = (0u8..64).map(|v| v.wrapping_mul(37)).collect();
    let top: Vec<u8> = (0u8..64).map(|v| v.wrapping_mul(101).wrapping_add(13)).collect();
    let mut canvas = PixelBuffer::from_raw(4, 4, bottom.clone()).unwrap();
    accumulate(&mut canvas, &PixelBuffer::from_raw(4, 4, top.clone()).unwrap());
    let mut expected = RgbaImage::from_raw(4, 4, bottom).unwrap();
    overlay(&mut expected, &RgbaImage::from_raw(4, 4, top).unwrap(), 0, 0);
    assert_eq!(canvas.into_raw(), expected.into_raw());
}

#[test]
fn the_canvas_keeps_its_size() {
    let mut canvas = canvas_of(3, 1, &[RED, RED, RED]);
    accumulate(&mut canvas, &canvas_of(3, 1, &[HALF_BLUE, CLEAR, GREEN]));
    assert_eq!((canvas.width(), canvas.height()), (3, 1));
    assert_eq!(canvas.as_raw().len(), 12);
}

#[test]
fn the_layer_drawn_last_wins() {
    let mut one = canvas_of(1, 1, &[RED]);
    accumulate(&mut one, &canvas_of(1, 1, &[BLUE]));
    accumulate(&mut one, &canvas_of(1, 1, &[GREEN]));
    let mut other = canvas_of(1, 1, &[RED]);
    accumulate(&mut other, &canvas_of(1, 1, &[GREEN]));
    accumulate(&mut other, &canvas_of(1, 1, &[BLUE]));
    assert_eq!(
        one.get_pixel(0, 0),
        Some(Rgba { red: 0, green: 255, blue: 0, alpha: 255 })
    );
    assert_eq!(
        other.get_pixel(0, 0),
        Some(Rgba { red: 0, green: 0, blue: 255, alpha: 255 })
    );
    assert_ne!(one, other);
}

#[test]
fn an_empty_canvas_stays_empty() {
    let mut canvas = canvas_of(0, 0, &[]);
    accumulate(&mut canvas, &canvas_of(0, 0, &[]));
    assert_eq!(canvas, canvas_of(0, 0, &[]));
}
