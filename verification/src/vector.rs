//! Rasterizing SVG payloads for a canvas of a given size.

use crate::error::{AppError, Failure};
use crate::pixel::{outcome, PixelBuffer, Raster};
use resvg::tiny_skia::{IntSize, Pixmap, Transform};
use resvg::usvg::{Error, Options, Tree};
use vstd::prelude::*;

verus! {

/// A parsed SVG document of `usvg`.
#[verifier::external_type_specification]
#[verifier::external_body]
pub struct ExTree(Tree);

/// The parsing options of `usvg`: fonts, default size, resource lookup.
#[verifier::external_type_specification]
#[verifier::external_body]
pub struct ExOptions<'a>(Options<'a>);

/// The parse error of `usvg`.
#[verifier::external_type_specification]
#[verifier::external_body]
pub struct ExError(Error);

/// An affine transform of `tiny_skia`.
#[verifier::external_type_specification]
#[verifier::external_body]
pub struct ExTransform(Transform);

/// `usvg::Tree::from_data`: parses SVG text, plain or gzip-compressed.
/// What it accepts is left to it.
pub assume_specification[ Tree::from_data ](data: &[u8], opt: &Options) -> Result<Tree, Error>;

/// `Tree::size` rounded by `Size::to_int_size`: the intrinsic size of the
/// document in whole pixels. An `IntSize` has no side of zero.
#[verifier::external_body]
fn intrinsic_size(tree: &Tree) -> (size: (u32, u32))
    ensures
        size.0 >= 1,
        size.1 >= 1,
{
    let size = tree.size().to_int_size();
    (size.width(), size.height())
}

/// The size that `tiny_skia` fits a document of the first size into a box
/// of the second size with, keeping the aspect ratio.
pub uninterp spec fn scaled_to_fit(document: (u32, u32), canvas: (u32, u32)) -> (u32, u32);

/// `IntSize::scale_to`. The result is an `IntSize` again, so neither side
/// is zero. Sizes with a side of zero cannot be made into an `IntSize` and
/// are left out.
#[verifier::external_body]
fn scale_to_fit(document: (u32, u32), canvas: (u32, u32)) -> (size: (u32, u32))
    requires
        document.0 >= 1 && document.1 >= 1,
        canvas.0 >= 1 && canvas.1 >= 1,
    ensures
        size == scaled_to_fit(document, canvas),
        size.0 >= 1,
        size.1 >= 1,
{
    let from = IntSize::from_wh(document.0, document.1).unwrap();
    let size = from.scale_to(IntSize::from_wh(canvas.0, canvas.1).unwrap());
    (size.width(), size.height())
}

/// The transform that takes the box of the document onto the box of the
/// canvas, both at the origin: `Transform::from_bbox` of the document's
/// box, inverted by `Transform::invert`, followed through
/// `Transform::post_concat` by `Transform::from_bbox` of the canvas's box.
/// A transform that only scales by sides of at least one always has an
/// inverse. Nothing is claimed of the transform.
#[verifier::external_body]
fn scale_between(document: (u32, u32), canvas: (u32, u32)) -> Transform
    requires
        document.0 >= 1 && document.1 >= 1,
        canvas.0 >= 1 && canvas.1 >= 1,
{
    let origin = Default::default();
    let from = IntSize::from_wh(document.0, document.1).unwrap().to_size();
    let to = IntSize::from_wh(canvas.0, canvas.1).unwrap().to_size();
    let onto_unit = Transform::from_bbox(from.to_non_zero_rect(origin, origin)).invert().unwrap();
    onto_unit.post_concat(Transform::from_bbox(to.to_non_zero_rect(origin, origin)))
}

/// The sizes that `tiny_skia` allocates a render target for: no side of
/// zero, a row of at most `i32::MAX` bytes, and all rows together within
/// what a vector can hold.
pub open spec fn pixmap_fits(width: u32, height: u32) -> bool {
    &&& 1 <= width && 1 <= height
    &&& 4 * width <= i32::MAX
    &&& 4 * width * height <= isize::MAX
}

/// `resvg::render` onto a fresh target: `Pixmap::new` allocates a
/// transparent target of `width` by `height`, which it does for exactly the
/// sizes of the precondition; the document is drawn onto it under the root
/// transform; `Pixmap::take_demultiplied` hands out its bytes with straight
/// alpha. A target holds four bytes for each of its pixels. Nothing is
/// claimed of what is drawn.
#[verifier::external_body]
fn draw(tree: &Tree, transform: Transform, width: u32, height: u32) -> (pixels: Vec<u8>)
    requires
        pixmap_fits(width, height),
    ensures
        pixels@.len() == 4 * width * height,
{
    let mut target = Pixmap::new(width, height).unwrap();
    resvg::render(tree, transform, &mut target.as_mut());
    target.take_demultiplied()
}

/// The size of the intermediate render target, or the failure that
/// forbids rendering.
pub open spec fn target_size(document: (u32, u32), canvas: (u32, u32)) -> Result<
    (u32, u32),
    Failure,
> {
    if canvas.0 == 0 || canvas.1 == 0 || document.0 == 0 || document.1 == 0 {
        Err(Failure::InvalidSize)
    } else {
        Ok(scaled_to_fit(document, canvas))
    }
}

/// The mathematical value of a size computation's result.
pub open spec fn size_outcome(r: Result<(u32, u32), AppError>) -> Result<(u32, u32), Failure> {
    match r {
        Ok(size) => Ok(size),
        Err(e) => Err(e@),
    }
}

/// Decides the size of the intermediate render target for a document of
/// intrinsic size `document` and a canvas of size `canvas`: `InvalidSize`
/// if any of the four sides is zero, else the document's size scaled to
/// fit the canvas with its aspect ratio kept.
pub fn render_target_size(document: (u32, u32), canvas: (u32, u32)) -> (r: Result<
    (u32, u32),
    AppError,
>)
    ensures
        size_outcome(r) == target_size(document, canvas),
        r matches Ok(size) ==> size.0 >= 1 && size.1 >= 1,
{
    if canvas.0 == 0 || canvas.1 == 0 || document.0 == 0 || document.1 == 0 {
        Err(AppError::InvalidSize)
    } else {
        Ok(scale_to_fit(document, canvas))
    }
}

/// Whether a render target of this size can be allocated.
pub fn can_allocate(width: u32, height: u32) -> (fits: bool)
    ensures
        fits == pixmap_fits(width, height),
{
    assert(4 * width * height <= 4 * 0xffff_ffff * 0xffff_ffff) by (nonlinear_arith)
        requires
            0 <= width <= 0xffff_ffff,
            0 <= height <= 0xffff_ffff,
    ;
    let row: u128 = 4 * (width as u128);
    let all: u128 = row * (height as u128);
    width >= 1 && height >= 1 && row <= i32::MAX as u128 && all <= isize::MAX as u128
}

/// Whether a document of intrinsic size `document` can be rendered for a
/// canvas of `width` by `height`: none of the four sides is zero, and a
/// target of the fitted size can be allocated.
pub open spec fn renderable(document: (u32, u32), width: u32, height: u32) -> bool {
    target_size(document, (width, height)) matches Ok(size) && pixmap_fits(size.0, size.1)
}

/// `out` is what rendering a document of intrinsic size `document` for a
/// canvas of `width` by `height` gives: where it can be rendered, a
/// well-formed buffer of exactly the fitted size; where not,
/// `InvalidSize`. Rendering itself does not fail.
pub open spec fn renders(
    document: (u32, u32),
    width: u32,
    height: u32,
    out: Result<Raster, Failure>,
) -> bool {
    if renderable(document, width, height) {
        out matches Ok(rendered) && rendered.wf() && target_size(document, (width, height))
            == Ok::<(u32, u32), Failure>((rendered.width, rendered.height))
    } else {
        out == Err::<Raster, Failure>(Failure::InvalidSize)
    }
}

/// `out` is what rendering a parsed document gives for the intrinsic size
/// that the document reports, which has no side of zero.
pub open spec fn renders_some(width: u32, height: u32, out: Result<Raster, Failure>) -> bool {
    exists|document: (u32, u32)|
        document.0 >= 1 && document.1 >= 1 && #[trigger] renders(document, width, height, out)
}

/// What rasterizing for a canvas of `width` by `height` may yield. Whether
/// the bytes parse, and to a document of which size, depends on the bytes,
/// the fonts and the files that the document refers to, so it is
/// described, not computed: `SvgParserFailure`, or what rendering a parsed
/// document gives.
pub open spec fn rasterize_allows(width: u32, height: u32, out: Result<Raster, Failure>) -> bool {
    out == Err::<Raster, Failure>(Failure::SvgParserFailure) || renders_some(width, height, out)
}

/// Renders a parsed document, whose intrinsic size is `document`, for a
/// canvas of `width` by `height`: into a target of the fitted size, under
/// the transform that takes the box of the document onto the box of the
/// canvas, each axis scaled on its own. It succeeds exactly when none of
/// the four sides is zero and the target can be allocated, and is
/// `InvalidSize` otherwise.
pub fn render_at(tree: &Tree, document: (u32, u32), width: u32, height: u32) -> (r: Result<
    PixelBuffer,
    AppError,
>)
    ensures
        renders(document, width, height, outcome(r)),
        r is Ok <==> renderable(document, width, height),
        r matches Err(e) ==> e@ == Failure::InvalidSize,
{
    let size = match render_target_size(document, (width, height)) {
        Ok(size) => size,
        Err(e) => {
            return Err(e);
        },
    };
    if !can_allocate(size.0, size.1) {
        return Err(AppError::InvalidSize);
    }
    let pixels = draw(tree, scale_between(document, (width, height)), size.0, size.1);
    match PixelBuffer::from_raw(size.0, size.1, pixels) {
        Some(rendered) => Ok(rendered),
        None => Err(AppError::InvalidSize),
    }
}

/// Renders a parsed document for a canvas of `width` by `height`, at the
/// intrinsic size that the document reports. A canvas with a side of zero
/// is `InvalidSize`.
pub fn render_document(tree: &Tree, width: u32, height: u32) -> (r: Result<PixelBuffer, AppError>)
    ensures
        renders_some(width, height, outcome(r)),
        r matches Err(e) ==> e@ == Failure::InvalidSize,
        width == 0 || height == 0 ==> r is Err,
{
    let document = intrinsic_size(tree);
    let r = render_at(tree, document, width, height);
    assert(renders(document, width, height, outcome(r)));
    r
}

/// What follows parsing: a parse error is `SvgParserFailure`, whatever the
/// size of the canvas; a parsed document is rendered, which never gives
/// `SvgParserFailure` and gives `InvalidSize` for a canvas with a side of
/// zero.
pub fn render_parsed(parsed: Result<Tree, Error>, width: u32, height: u32) -> (r: Result<
    PixelBuffer,
    AppError,
>)
    ensures
        parsed is Err ==> outcome(r) == Err::<Raster, Failure>(Failure::SvgParserFailure),
        parsed is Ok ==> renders_some(width, height, outcome(r)),
        parsed is Ok ==> (r matches Err(e) ==> e@ == Failure::InvalidSize),
        parsed is Ok && (width == 0 || height == 0) ==> r is Err,
{
    match parsed {
        Ok(tree) => render_document(&tree, width, height),
        Err(_) => Err(AppError::SvgParserFailure),
    }
}

/// Parses `bytes` as an SVG document and renders it for a canvas of
/// `width` by `height`. The buffer that comes back has the fitted size,
/// not yet that of the canvas. Whether the bytes parse is the parser's to
/// say; what follows from its answer is fixed by [`render_parsed`].
pub fn rasterize(bytes: &[u8], options: &Options, width: u32, height: u32) -> (r: Result<
    PixelBuffer,
    AppError,
>)
    ensures
        rasterize_allows(width, height, outcome(r)),
        r matches Err(e) ==> e@ == Failure::SvgParserFailure || e@ == Failure::InvalidSize,
        width == 0 || height == 0 ==> r is Err,
{
    render_parsed(Tree::from_data(bytes, options), width, height)
}

} // verus!
