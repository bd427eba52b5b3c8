//! Drawing normalized layers onto the canvas, bottom to top.

use crate::error::Failure;
use crate::pixel::{PixelBuffer, Raster, Rgba, OPAQUE, TRANSPARENT};
use imageproc::image::imageops::overlay;
use imageproc::image::ImageBuffer;
use vstd::prelude::*;

verus! {

/// The bytes of `bottom` after the `image` crate has drawn `top` over it,
/// origin on origin.
pub uninterp spec fn overlaid(bottom: Raster, top: Raster) -> Seq<u8>;

/// What is known of every pixel of a source-over blend whatever the
/// colours: where the layer is fully transparent the canvas keeps its
/// pixel, where the layer is fully opaque the canvas takes the layer's.
pub open spec fn respects_alpha(bottom: Raster, top: Raster, out: Raster) -> bool {
    &&& forall|i: int|
        0 <= i < bottom.area() && top.pixel(i).alpha == TRANSPARENT ==> #[trigger] out.pixel(i)
            == bottom.pixel(i)
    &&& forall|i: int|
        0 <= i < bottom.area() && top.pixel(i).alpha == OPAQUE ==> #[trigger] out.pixel(i)
            == top.pixel(i)
}

/// The canvas `bottom` with the layer `top` drawn over it.
pub open spec fn drawn_over(bottom: Raster, top: Raster) -> Raster {
    Raster { width: bottom.width, height: bottom.height, pixels: overlaid(bottom, top) }
}

/// `imageops::overlay` at `(0, 0)`, on borrowed views of two buffers of one
/// size. It visits every pixel once and replaces the canvas pixel by its
/// blend with the layer pixel; the blend returns at once for a layer alpha
/// of zero, copies the layer pixel for a layer alpha of 255, and mixes in
/// floating point otherwise. The canvas keeps its size and byte count.
#[verifier::external_body]
fn overlay_at_origin(canvas: &mut PixelBuffer, layer: &PixelBuffer)
    requires
        old(canvas)@.same_size(layer@),
    ensures
        final(canvas)@.pixels == overlaid(old(canvas)@, layer@),
        final(canvas)@.width == old(canvas)@.width,
        final(canvas)@.height == old(canvas)@.height,
        final(canvas)@.pixels.len() == old(canvas)@.pixels.len(),
        respects_alpha(old(canvas)@, layer@, final(canvas)@),
{
    let (width, height) = (canvas.width, canvas.height);
    let mut bottom = ImageBuffer::<imageproc::image::Rgba<u8>, &mut [u8]>::from_raw(
        width,
        height,
        canvas.pixels.as_mut_slice(),
    ).unwrap();
    let top = ImageBuffer::<imageproc::image::Rgba<u8>, &[u8]>::from_raw(
        width,
        height,
        layer.pixels.as_slice(),
    ).unwrap();
    overlay(&mut bottom, &top, 0, 0);
}

/// `after` is the canvas `before` with `layer` drawn over it.
pub open spec fn accumulated(before: Raster, layer: Raster, after: Raster) -> bool {
    &&& after == drawn_over(before, layer)
    &&& after.pixels.len() == before.pixels.len()
    &&& respects_alpha(before, layer, after)
}

/// Draws a normalized layer over the canvas at the origin by source-over
/// alpha compositing. The layer must have the size of the canvas: sizes
/// are reconciled before compositing, never here.
pub fn accumulate(canvas: &mut PixelBuffer, layer: &PixelBuffer)
    requires
        old(canvas)@.same_size(layer@),
    ensures
        accumulated(old(canvas)@, layer@, final(canvas)@),
        final(canvas)@.wf(),
{
    proof {
        use_type_invariant(&*canvas);
    }
    overlay_at_origin(canvas, layer);
}

/// The canvas after a left fold over prepared layers, bottom to top,
/// starting from `base`. A prepared layer is a normalized buffer or the
/// failure that preparing it ended in, and the first failure in input order
/// is the result of the whole fold.
pub open spec fn composite(base: Raster, layers: Seq<Result<Raster, Failure>>) -> Result<
    Raster,
    Failure,
>
    decreases layers.len(),
{
    if layers.len() == 0 {
        Ok(base)
    } else {
        match composite(base, layers.drop_last()) {
            Err(e) => Err(e),
            Ok(canvas) => match layers.last() {
                Err(e) => Err(e),
                Ok(layer) => Ok(drawn_over(canvas, layer)),
            },
        }
    }
}

/// Every layer before position `i` was prepared.
pub open spec fn all_prepared(layers: Seq<Result<Raster, Failure>>, i: int) -> bool {
    forall|j: int| 0 <= j < i ==> (#[trigger] layers[j]) is Ok
}

/// Layer `k` shows at pixel `i`: it is opaque there, and every layer above
/// it is fully transparent there.
pub open spec fn shows_at(layers: Seq<Result<Raster, Failure>>, k: int, i: int) -> bool {
    &&& layers[k] matches Ok(layer) && layer.pixel(i).alpha == OPAQUE
    &&& forall|j: int|
        k < j < layers.len() ==> ((#[trigger] layers[j]) matches Ok(above) && above.pixel(i).alpha
            == TRANSPARENT)
}

/// Every layer is fully transparent at pixel `i`.
pub open spec fn clear_at(layers: Seq<Result<Raster, Failure>>, i: int) -> bool {
    forall|j: int|
        0 <= j < layers.len() ==> ((#[trigger] layers[j]) matches Ok(layer) && layer.pixel(i).alpha
            == TRANSPARENT)
}

/// What the fold guarantees of single pixels of its canvas: a layer that
/// shows at a pixel gives the canvas its pixel there, and where every layer
/// is clear the canvas has the pixel of the base.
pub open spec fn top_layer_shows(
    base: Raster,
    layers: Seq<Result<Raster, Failure>>,
    canvas: Raster,
) -> bool {
    &&& forall|k: int, i: int|
        0 <= k < layers.len() && 0 <= i < base.area() && #[trigger] shows_at(layers, k, i)
            ==> canvas.pixel(i) == layers[k]->Ok_0.pixel(i)
    &&& forall|i: int|
        0 <= i < base.area() && #[trigger] clear_at(layers, i) ==> canvas.pixel(i) == base.pixel(
            i,
        )
}

/// Drawing one more layer keeps the guarantee of the fold: if it held of
/// the canvas before and the layers so far, it holds of the canvas after
/// and the layers with the new one on top.
pub proof fn lemma_top_layer_shows_step(
    base: Raster,
    layers: Seq<Result<Raster, Failure>>,
    before: Raster,
    layer: Raster,
    after: Raster,
)
    requires
        before.same_size(base),
        top_layer_shows(base, layers, before),
        accumulated(before, layer, after),
    ensures
        top_layer_shows(base, layers.push(Ok(layer)), after),
{
    let next = layers.push(Ok(layer));
    let top = layers.len() as int;
    assert forall|k: int, i: int|
        0 <= k < next.len() && 0 <= i < base.area() && #[trigger] shows_at(
            next,
            k,
            i,
        ) implies after.pixel(i) == next[k]->Ok_0.pixel(i) by {
        if k < top {
            assert(next[top] == Ok::<Raster, Failure>(layer));
            assert(layer.pixel(i).alpha == TRANSPARENT);
            assert forall|j: int| k < j < layers.len() implies ((#[trigger] layers[j]) matches Ok(
                above,
            ) && above.pixel(i).alpha == TRANSPARENT) by {
                assert(next[j] == layers[j]);
            }
            assert(next[k] == layers[k]);
            assert(shows_at(layers, k, i));
            assert(after.pixel(i) == before.pixel(i));
        } else {
            assert(after.pixel(i) == layer.pixel(i));
        }
    }
    assert forall|i: int| 0 <= i < base.area() && #[trigger] clear_at(next, i) implies after.pixel(
        i,
    ) == base.pixel(i) by {
        assert(next[top] == Ok::<Raster, Failure>(layer));
        assert forall|j: int| 0 <= j < layers.len() implies ((#[trigger] layers[j]) matches Ok(
            below,
        ) && below.pixel(i).alpha == TRANSPARENT) by {
            assert(next[j] == layers[j]);
        }
        assert(clear_at(layers, i));
        assert(after.pixel(i) == before.pixel(i));
    }
}

/// Folding no layers leaves the base as it is.
pub proof fn lemma_composite_nothing(base: Raster)
    ensures
        composite(base, Seq::empty()) == Ok::<Raster, Failure>(base),
{
}

/// The fold keeps the size of the base: every canvas it yields is as wide
/// and as high as the canvas it started from.
pub proof fn lemma_composite_keeps_size(base: Raster, layers: Seq<Result<Raster, Failure>>)
    ensures
        composite(base, layers) matches Ok(canvas) ==> canvas.same_size(base),
    decreases layers.len(),
{
    if layers.len() > 0 {
        lemma_composite_keeps_size(base, layers.drop_last());
    }
}

/// The fold yields a canvas exactly when every layer was prepared.
pub proof fn lemma_composite_of_prepared(base: Raster, layers: Seq<Result<Raster, Failure>>)
    ensures
        composite(base, layers) is Ok <==> all_prepared(layers, layers.len() as int),
    decreases layers.len(),
{
    if layers.len() > 0 {
        let front = layers.drop_last();
        lemma_composite_of_prepared(base, front);
        if all_prepared(layers, layers.len() as int) {
            assert forall|j: int| 0 <= j < front.len() implies (#[trigger] front[j]) is Ok by {
                assert(layers[j] is Ok);
            }
            assert(layers.last() is Ok);
        }
        if composite(base, layers) is Ok {
            assert forall|j: int| 0 <= j < layers.len() implies (#[trigger] layers[j]) is Ok by {
                if j < front.len() {
                    assert(front[j] is Ok);
                }
            }
        }
    }
}

/// The fold does not look past the first failure: two sequences of
/// prepared layers that agree at every position before which all layers
/// were prepared fold alike.
pub proof fn lemma_composite_until_failure(
    base: Raster,
    first: Seq<Result<Raster, Failure>>,
    second: Seq<Result<Raster, Failure>>,
)
    requires
        first.len() == second.len(),
        forall|i: int|
            0 <= i < first.len() && #[trigger] all_prepared(first, i) ==> first[i] == second[i],
    ensures
        composite(base, first) == composite(base, second),
    decreases first.len(),
{
    if first.len() > 0 {
        let front = first.drop_last();
        let other = second.drop_last();
        assert forall|i: int| 0 <= i < front.len() && #[trigger] all_prepared(
            front,
            i,
        ) implies front[i] == other[i] by {
            assert forall|j: int| 0 <= j < i implies (#[trigger] first[j]) is Ok by {
                assert(front[j] is Ok);
            }
            assert(all_prepared(first, i));
        }
        lemma_composite_until_failure(base, front, other);
        if composite(base, front) is Ok {
            lemma_composite_of_prepared(base, front);
            assert forall|j: int| 0 <= j < first.len() - 1 implies (#[trigger] first[j]) is Ok by {
                assert(front[j] is Ok);
            }
            assert(all_prepared(first, first.len() - 1));
        }
    }
}

/// The first failure aborts the fold: if the layers before position `k`
/// fold to a canvas and layer `k` is a failure, the whole fold is that
/// failure, whatever follows position `k`.
pub proof fn lemma_first_failure_aborts(
    base: Raster,
    layers: Seq<Result<Raster, Failure>>,
    k: int,
)
    requires
        0 <= k < layers.len(),
        composite(base, layers.take(k)) is Ok,
        layers[k] is Err,
    ensures
        composite(base, layers) == Err::<Raster, Failure>(layers[k]->Err_0),
    decreases layers.len(),
{
    let front = layers.drop_last();
    if k == layers.len() - 1 {
        assert(front == layers.take(k));
    } else {
        assert(front.take(k) == layers.take(k));
        lemma_first_failure_aborts(base, front, k);
    }
}

/// The topmost opaque layer wins: when two layers are drawn one after the
/// other onto a canvas, a pixel at which the second is opaque ends up as
/// the pixel of the second, whatever the first drew there.
pub proof fn lemma_topmost_opaque_wins(
    base: Raster,
    first: Raster,
    second: Raster,
    after_first: Raster,
    after_second: Raster,
    i: int,
)
    requires
        base.same_size(first),
        base.same_size(second),
        accumulated(base, first, after_first),
        accumulated(after_first, second, after_second),
        0 <= i < base.area(),
        second.pixel(i).alpha == OPAQUE,
    ensures
        after_second.pixel(i) == second.pixel(i),
{
}

/// An opaque layer of one colour covers the canvas: after it is drawn,
/// every pixel of the canvas has that colour, whatever was there before.
pub proof fn lemma_opaque_layer_covers(base: Raster, layer: Raster, after: Raster, colour: Rgba)
    requires
        base.same_size(layer),
        accumulated(base, layer, after),
        colour.alpha == OPAQUE,
        forall|i: int| 0 <= i < layer.area() ==> #[trigger] layer.pixel(i) == colour,
    ensures
        forall|i: int| 0 <= i < after.area() ==> #[trigger] after.pixel(i) == colour,
{
}

/// A fully transparent layer changes nothing: after it is drawn, every
/// pixel of the canvas is what it was before.
pub proof fn lemma_transparent_layer_keeps(base: Raster, layer: Raster, after: Raster)
    requires
        base.same_size(layer),
        accumulated(base, layer, after),
        forall|i: int| 0 <= i < layer.area() ==> (#[trigger] layer.pixel(i)).alpha == TRANSPARENT,
    ensures
        forall|i: int| 0 <= i < after.area() ==> #[trigger] after.pixel(i) == base.pixel(i),
{
}

/// Order matters: for two layers that are both opaque at a pixel and
/// differ there, drawing them in one order and in the other gives two
/// canvases that differ at that pixel, each showing the layer drawn last.
pub proof fn lemma_order_sensitivity(
    base: Raster,
    a: Raster,
    b: Raster,
    a_then_b: (Raster, Raster),
    b_then_a: (Raster, Raster),
    i: int,
)
    requires
        base.same_size(a),
        base.same_size(b),
        accumulated(base, a, a_then_b.0),
        accumulated(a_then_b.0, b, a_then_b.1),
        accumulated(base, b, b_then_a.0),
        accumulated(b_then_a.0, a, b_then_a.1),
        0 <= i < base.area(),
        a.pixel(i).alpha == OPAQUE,
        b.pixel(i).alpha == OPAQUE,
        a.pixel(i) != b.pixel(i),
    ensures
        a_then_b.1.pixel(i) == b.pixel(i),
        b_then_a.1.pixel(i) == a.pixel(i),
        a_then_b.1.pixel(i) != b_then_a.1.pixel(i),
{
    lemma_topmost_opaque_wins(base, a, b, a_then_b.0, a_then_b.1, i);
    lemma_topmost_opaque_wins(base, b, a, b_then_a.0, b_then_a.1, i);
}

} // verus!
