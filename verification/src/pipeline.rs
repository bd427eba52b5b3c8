//! The whole request: decode the base, prepare and draw each overlay in
//! input order, encode the canvas.

use crate::compositor::{
    accumulate, all_prepared, clear_at, composite, lemma_composite_keeps_size,
    lemma_composite_of_prepared, lemma_composite_until_failure, lemma_first_failure_aborts,
    lemma_top_layer_shows_step, shows_at, top_layer_shows,
};
use crate::encoder::{bytes_outcome, encode, encode_outcome, jpeg_size_ok};
use crate::error::{AppError, Failure};
use crate::mime::{resolve, resolved, Codec, DecodeStrategy, SVG_MIME_TYPE};
use crate::normalize::{lemma_solid_stays_solid, normalize, normalizes_to, picked_from};
use crate::pixel::{lemma_same_pixels_same_raster, outcome, PixelBuffer, Raster, Rgba, OPAQUE};
use crate::raster::{decode, decode_outcome};
use crate::vector::{rasterize_allows, render_parsed, renders_some};
use resvg::usvg::{Error, Options, Tree};
use vstd::prelude::*;

verus! {

/// One uploaded part: its bytes and the content type declared for them.
#[derive(Debug, PartialEq, Eq)]
pub struct Payload {
    pub contents: Vec<u8>,
    pub content_type: Option<String>,
}

/// The mathematical value of a [`Payload`].
pub struct PayloadView {
    pub contents: Seq<u8>,
    pub content_type: Option<Seq<char>>,
}

impl View for Payload {
    type V = PayloadView;

    open spec fn view(&self) -> PayloadView {
        PayloadView {
            contents: self.contents@,
            content_type: match self.content_type {
                Some(mime) => Some(mime@),
                None => None,
            },
        }
    }
}

impl Clone for Payload {
    /// A copy with the same bytes and the same declared content type.
    fn clone(&self) -> (copy: Self)
        ensures
            copy@ == self@,
    {
        let contents = self.contents.clone();
        assert(contents@ =~= self.contents@);
        let content_type = match &self.content_type {
            Some(mime) => Some(mime.clone()),
            None => None,
        };
        Payload { contents, content_type }
    }
}

/// A base image and the overlays to draw onto it. The order of the
/// overlays is their z-order, bottom to top.
#[derive(Debug, PartialEq, Eq)]
pub struct TransformRequest {
    pub image: Payload,
    pub layers: Vec<Payload>,
}

/// The mathematical value of a [`TransformRequest`].
pub struct RequestView {
    pub image: PayloadView,
    pub layers: Seq<PayloadView>,
}

impl View for TransformRequest {
    type V = RequestView;

    open spec fn view(&self) -> RequestView {
        RequestView { image: self.image@, layers: layer_views(self.layers@) }
    }
}

/// The values of a sequence of payloads, in order.
pub open spec fn layer_views(layers: Seq<Payload>) -> Seq<PayloadView> {
    Seq::new(layers.len(), |i: int| layers[i]@)
}

/// The canvas that a base payload decodes to, or the failure that rejects
/// it. The base is a raster image: an SVG base is rejected by its content
/// type.
pub open spec fn base_outcome(image: PayloadView) -> Result<Raster, Failure> {
    match resolved(image.content_type) {
        Err(e) => Err(e),
        Ok(DecodeStrategy::Vector) => Err(Failure::InvalidMimeType(SVG_MIME_TYPE@)),
        Ok(DecodeStrategy::Raster(codec)) => decode_outcome(image.contents, codec),
    }
}

/// `out` is what normalizing a decoded or rasterized layer gives; a
/// failure to decode or rasterize stays what it is.
pub open spec fn normalizes(
    decoded: Result<Raster, Failure>,
    width: u32,
    height: u32,
    out: Result<Raster, Failure>,
) -> bool {
    match decoded {
        Ok(image) => normalizes_to(image, width, height, out),
        Err(e) => out == Err::<Raster, Failure>(e),
    }
}

/// What preparing `layer` for a canvas of `width` by `height` may yield.
/// A rejected content type gives its failure; a raster layer gives its
/// decoded image, normalized, or the failure on the way; a vector layer
/// gives the normalization of one of the outcomes that rasterizing allows.
pub open spec fn prepare_allows(
    layer: PayloadView,
    width: u32,
    height: u32,
    out: Result<Raster, Failure>,
) -> bool {
    match resolved(layer.content_type) {
        Err(e) => out == Err::<Raster, Failure>(e),
        Ok(DecodeStrategy::Raster(codec)) => normalizes(
            decode_outcome(layer.contents, codec),
            width,
            height,
            out,
        ),
        Ok(DecodeStrategy::Vector) => exists|rendered: Result<Raster, Failure>|
            #[trigger] rasterize_allows(width, height, rendered) && normalizes(
                rendered,
                width,
                height,
                out,
            ),
    }
}

/// The declared content type of a payload as a string slice.
fn declared_type(payload: &Payload) -> (declared: Option<&str>)
    ensures
        payload@.content_type == match declared {
            Some(mime) => Some(mime@),
            None => None::<Seq<char>>,
        },
{
    match &payload.content_type {
        Some(mime) => Some(mime.as_str()),
        None => None,
    }
}

/// Decodes the base payload into the canvas. Its decoded size is the size
/// of the canvas from here on.
pub fn decode_base(image: &Payload) -> (r: Result<PixelBuffer, AppError>)
    ensures
        outcome(r) == base_outcome(image@),
        r matches Ok(canvas) ==> canvas@.wf(),
{
    match resolve(declared_type(image)) {
        Err(e) => Err(e),
        Ok(DecodeStrategy::Vector) => Err(AppError::InvalidMimeType(SVG_MIME_TYPE.to_owned())),
        Ok(DecodeStrategy::Raster(codec)) => decode(image.contents.as_slice(), codec),
    }
}

/// What follows parsing for a vector overlay: a parse error is
/// `SvgParserFailure`, whatever the canvas; a parsed document is rendered
/// and the rendering normalized, which gives a layer of the size of the
/// canvas, or `InvalidSize` where the canvas has a side of zero or a buffer
/// cannot be allocated.
pub fn prepare_parsed(parsed: Result<Tree, Error>, width: u32, height: u32) -> (r: Result<
    PixelBuffer,
    AppError,
>)
    ensures
        parsed is Err ==> outcome(r) == Err::<Raster, Failure>(Failure::SvgParserFailure),
        parsed is Ok ==> exists|rendered: Result<Raster, Failure>|
            #[trigger] renders_some(width, height, rendered) && normalizes(
                rendered,
                width,
                height,
                outcome(r),
            ),
        parsed is Ok ==> (r matches Err(e) ==> e@ == Failure::InvalidSize),
        parsed is Ok && (width == 0 || height == 0) ==> r is Err,
        r matches Ok(prepared) ==> prepared@.width == width && prepared@.height == height
            && prepared@.wf(),
{
    let rendered = render_parsed(parsed, width, height);
    assert(parsed is Ok ==> renders_some(width, height, outcome(rendered)));
    match rendered {
        Ok(image) => normalize(&image, width, height),
        Err(e) => Err(e),
    }
}

/// Prepares one overlay for a canvas of `width` by `height`: resolves its
/// content type, decodes or rasterizes its bytes accordingly, and
/// normalizes the result. A layer that comes back has exactly the size of
/// the canvas, whatever size its bytes encode. Which path runs follows
/// from the declared content type alone.
pub fn prepare_layer(layer: &Payload, options: &Options, width: u32, height: u32) -> (r: Result<
    PixelBuffer,
    AppError,
>)
    ensures
        prepare_allows(layer@, width, height, outcome(r)),
        r matches Ok(prepared) ==> prepared@.width == width && prepared@.height == height
            && prepared@.wf(),
        layer@.content_type is None ==> (r matches Err(e) && e@ == Failure::MissingMimeType),
        resolved(layer@.content_type) == Ok::<DecodeStrategy, Failure>(DecodeStrategy::Vector)
            ==> (r matches Err(e) ==> e@ == Failure::SvgParserFailure || e@
            == Failure::InvalidSize),
        resolved(layer@.content_type) == Ok::<DecodeStrategy, Failure>(DecodeStrategy::Vector)
            && (width == 0 || height == 0) ==> r is Err,
        resolved(layer@.content_type) matches Ok(DecodeStrategy::Raster(_)) ==> (r matches Err(
            e,
        ) ==> e@ == Failure::DecodingFailure || e@ == Failure::InvalidSize),
{
    match resolve(declared_type(layer)) {
        Err(e) => Err(e),
        Ok(DecodeStrategy::Raster(codec)) => match decode(layer.contents.as_slice(), codec) {
            Ok(image) => normalize(&image, width, height),
            Err(e) => Err(e),
        },
        Ok(DecodeStrategy::Vector) => {
            let parsed = Tree::from_data(layer.contents.as_slice(), options);
            let r = prepare_parsed(parsed, width, height);
            proof {
                if parsed is Err {
                    let rendered = Err::<Raster, Failure>(Failure::SvgParserFailure);
                    assert(rasterize_allows(width, height, rendered));
                    assert(normalizes(rendered, width, height, outcome(r)));
                } else {
                    let rendered = choose|rendered: Result<Raster, Failure>|
                        #[trigger] renders_some(width, height, rendered) && normalizes(
                            rendered,
                            width,
                            height,
                            outcome(r),
                        );
                    assert(rasterize_allows(width, height, rendered));
                }
            }
            r
        },
    }
}

/// `prepared` holds, for each layer in input order, an outcome that
/// preparing it for a canvas of `width` by `height` allows, up to and
/// including the first failure. Nothing is said of the positions after a
/// failure: those layers are never prepared.
pub open spec fn prepared_from(
    layers: Seq<PayloadView>,
    width: u32,
    height: u32,
    prepared: Seq<Result<Raster, Failure>>,
) -> bool {
    &&& prepared.len() == layers.len()
    &&& forall|i: int|
        0 <= i < layers.len() && #[trigger] all_prepared(prepared, i) ==> prepare_allows(
            layers[i],
            width,
            height,
            prepared[i],
        )
}

/// Folds the overlays onto a copy of the base in input order: each is
/// prepared for the size of the canvas and drawn over what the earlier ones
/// left. The first overlay that cannot be prepared ends the fold with its
/// failure; the overlays after it are not looked at and no partial canvas
/// comes back. The base itself is left as it is. On the canvas that comes
/// back, a layer that is opaque at a pixel where every later layer is
/// fully transparent has its pixel there.
pub fn compose_layers(base: &PixelBuffer, layers: &[Payload], options: &Options) -> (r: Result<
    PixelBuffer,
    AppError,
>)
    ensures
        exists|prepared: Seq<Result<Raster, Failure>>|
            {
                &&& prepared_from(layer_views(layers@), base@.width, base@.height, prepared)
                &&& outcome(r) == #[trigger] composite(base@, prepared)
                &&& r matches Ok(canvas) ==> top_layer_shows(base@, prepared, canvas@)
            },
        r matches Ok(canvas) ==> canvas@.same_size(base@) && canvas@.wf(),
{
    let width = base.width();
    let height = base.height();
    let ghost start = base@;
    let ghost views = layer_views(layers@);
    let ghost mut seen: Seq<Result<Raster, Failure>> = Seq::empty();
    let mut canvas = base.clone();
    proof {
        use_type_invariant(&canvas);
    }
    let mut i: usize = 0;
    while i < layers.len()
        invariant
            0 <= i <= layers.len(),
            views == layer_views(layers@),
            start == base@,
            start.width == width && start.height == height,
            seen.len() == i,
            all_prepared(seen, i as int),
            forall|j: int|
                0 <= j < i ==> prepare_allows(views[j], width, height, #[trigger] seen[j]),
            composite(start, seen) == Ok::<Raster, Failure>(canvas@),
            top_layer_shows(start, seen, canvas@),
            canvas@.same_size(start),
            canvas@.wf(),
        decreases layers.len() - i,
    {
        match prepare_layer(&layers[i], options, width, height) {
            Err(e) => {
                proof {
                    let failed = Err::<Raster, Failure>(e@);
                    let prepared = Seq::new(
                        views.len(),
                        |j: int|
                            if j < i {
                                seen[j]
                            } else {
                                failed
                            },
                    );
                    assert forall|j: int|
                        0 <= j < views.len() && #[trigger] all_prepared(
                            prepared,
                            j,
                        ) implies prepare_allows(views[j], width, height, prepared[j]) by {
                        if j > i {
                            assert(prepared[i as int] is Err);
                        }
                    }
                    assert(prepared.take(i as int) == seen);
                    lemma_first_failure_aborts(start, prepared, i as int);
                }
                return Err(e);
            },
            Ok(layer) => {
                let ghost before = canvas@;
                accumulate(&mut canvas, &layer);
                proof {
                    let next = seen.push(Ok(layer@));
                    assert(next.drop_last() == seen);
                    lemma_top_layer_shows_step(start, seen, before, layer@, canvas@);
                    seen = next;
                }
            },
        }
        i += 1;
    }
    Ok(canvas)
}

/// The bytes that a request results in, given what preparing its overlays
/// yielded: the failure of the base, else the first failure among the
/// overlays, else the encoding of the canvas after the fold.
pub open spec fn document(request: RequestView, prepared: Seq<Result<Raster, Failure>>) -> Result<
    Seq<u8>,
    Failure,
> {
    match base_outcome(request.image) {
        Err(e) => Err(e),
        Ok(base) => match composite(base, prepared) {
            Err(e) => Err(e),
            Ok(canvas) => encode_outcome(canvas),
        },
    }
}

/// `prepared` holds outcomes of preparing the overlays of the request, in
/// input order, for the canvas that its base decodes to.
pub open spec fn prepared_for(request: RequestView, prepared: Seq<Result<Raster, Failure>>)
    -> bool {
    &&& prepared.len() == request.layers.len()
    &&& base_outcome(request.image) matches Ok(base) ==> prepared_from(
        request.layers,
        base.width,
        base.height,
        prepared,
    )
}

/// Whether a request comes out as an image, given what preparing its
/// overlays yielded: the base decodes to a size that the encoder takes,
/// and every overlay was prepared.
pub open spec fn succeeds(request: RequestView, prepared: Seq<Result<Raster, Failure>>) -> bool {
    &&& base_outcome(request.image) matches Ok(base) && jpeg_size_ok(base.width, base.height)
    &&& all_prepared(prepared, prepared.len() as int)
}

/// What is known of the canvas that is encoded, given what preparing the
/// overlays yielded: it is well-formed, a layer that is opaque at a pixel
/// where every later layer is fully transparent has its pixel there, and
/// where every layer is fully transparent the base shows.
pub open spec fn canvas_shows(request: RequestView, prepared: Seq<Result<Raster, Failure>>)
    -> bool {
    base_outcome(request.image) matches Ok(base) ==> (composite(base, prepared) matches Ok(
        canvas,
    ) ==> canvas.wf() && top_layer_shows(base, prepared, canvas))
}

/// Composites a request into one JPEG image: decodes the base, which
/// fixes the size of the canvas, folds the overlays onto it in input
/// order, and encodes the canvas. The first failure anywhere ends the
/// request; there is no partial image. A base that does not decode fails
/// the request whatever the overlays are, and a request without overlays
/// gives the base re-encoded. What is encoded is the canvas of the fold,
/// of which [`canvas_shows`] holds.
pub fn create_document(request: &TransformRequest, options: &Options) -> (r: Result<
    Vec<u8>,
    AppError,
>)
    ensures
        exists|prepared: Seq<Result<Raster, Failure>>|
            {
                &&& prepared_for(request@, prepared)
                &&& bytes_outcome(r) == #[trigger] document(request@, prepared)
                &&& r is Ok <==> succeeds(request@, prepared)
                &&& canvas_shows(request@, prepared)
            },
        base_outcome(request@.image) matches Err(e) ==> bytes_outcome(r) == Err::<
            Seq<u8>,
            Failure,
        >(e),
        request@.layers.len() == 0 ==> bytes_outcome(r) == match base_outcome(request@.image) {
            Err(e) => Err(e),
            Ok(base) => encode_outcome(base),
        },
{
    let base = match decode_base(&request.image) {
        Ok(base) => base,
        Err(e) => {
            proof {
                let prepared = Seq::new(
                    request@.layers.len(),
                    |j: int| Err::<Raster, Failure>(e@),
                );
                assert(prepared_for(request@, prepared));
                assert(document(request@, prepared) == Err::<Seq<u8>, Failure>(e@));
            }
            return Err(e);
        },
    };
    let ghost start = base@;
    let composed = compose_layers(&base, request.layers.as_slice(), options);
    let ghost prepared = choose|prepared: Seq<Result<Raster, Failure>>|
        {
            &&& prepared_from(layer_views(request.layers@), start.width, start.height, prepared)
            &&& outcome(composed) == #[trigger] composite(start, prepared)
            &&& composed matches Ok(canvas) ==> top_layer_shows(start, prepared, canvas@)
        };
    proof {
        assert(prepared_for(request@, prepared));
        lemma_composite_of_prepared(start, prepared);
        lemma_composite_keeps_size(start, prepared);
    }
    match composed {
        Err(e) => {
            assert(document(request@, prepared) == Err::<Seq<u8>, Failure>(e@));
            Err(e)
        },
        Ok(canvas) => {
            let encoded = encode(&canvas);
            assert(document(request@, prepared) == bytes_outcome(encoded));
            encoded
        },
    }
}

/// With no overlays the result is the base image re-encoded: the request
/// fails as decoding the base fails, and otherwise gives the encoding of
/// the decoded base.
pub proof fn lemma_zero_layers(request: RequestView, prepared: Seq<Result<Raster, Failure>>)
    requires
        request.layers.len() == 0,
        prepared_for(request, prepared),
    ensures
        document(request, prepared) == match base_outcome(request.image) {
            Err(e) => Err(e),
            Ok(base) => encode_outcome(base),
        },
{
}

/// The first overlay that fails decides the request: if the base decodes,
/// every overlay before position `k` was prepared and overlay `k` was not,
/// the request fails with the failure of overlay `k`, whatever the
/// overlays after it are.
pub proof fn lemma_first_failure_decides(
    request: RequestView,
    prepared: Seq<Result<Raster, Failure>>,
    k: int,
)
    requires
        prepared_for(request, prepared),
        base_outcome(request.image) is Ok,
        0 <= k < prepared.len(),
        all_prepared(prepared, k),
        prepared[k] is Err,
    ensures
        document(request, prepared) == Err::<Seq<u8>, Failure>(prepared[k]->Err_0),
{
    let base = base_outcome(request.image)->Ok_0;
    let front = prepared.take(k);
    assert forall|j: int| 0 <= j < front.len() implies (#[trigger] front[j]) is Ok by {
        assert(prepared[j] is Ok);
    }
    lemma_composite_of_prepared(base, front);
    lemma_first_failure_aborts(base, prepared, k);
}

/// An overlay without a declared content type fails the request with
/// `MissingMimeType` as soon as the fold reaches it: if the base decodes
/// and every overlay before it was prepared, that is the result, and no
/// overlay after it is looked at.
pub proof fn lemma_missing_type_fails(
    request: RequestView,
    prepared: Seq<Result<Raster, Failure>>,
    k: int,
)
    requires
        prepared_for(request, prepared),
        base_outcome(request.image) is Ok,
        0 <= k < prepared.len(),
        all_prepared(prepared, k),
        request.layers[k].content_type is None,
    ensures
        document(request, prepared) == Err::<Seq<u8>, Failure>(Failure::MissingMimeType),
{
    assert(prepared[k] == Err::<Raster, Failure>(Failure::MissingMimeType));
    lemma_first_failure_decides(request, prepared, k);
}

/// A raster overlay whose bytes do not decode fails with
/// `DecodingFailure`, whatever the canvas is.
pub proof fn lemma_corrupt_raster_fails(
    layer: PayloadView,
    codec: Codec,
    width: u32,
    height: u32,
    out: Result<Raster, Failure>,
)
    requires
        resolved(layer.content_type) == Ok::<DecodeStrategy, Failure>(
            DecodeStrategy::Raster(codec),
        ),
        prepare_allows(layer, width, height, out),
    ensures
        decode_outcome(layer.contents, codec) is Err ==> out == Err::<Raster, Failure>(
            Failure::DecodingFailure,
        ),
{
}

/// A layer declared as SVG takes the vector path whatever its bytes are:
/// its outcome is the normalization of an outcome of rasterizing, and if
/// it fails, it fails as the vector path or the normalization does.
pub proof fn lemma_svg_takes_vector_path(
    layer: PayloadView,
    width: u32,
    height: u32,
    out: Result<Raster, Failure>,
)
    requires
        layer.content_type == Some(SVG_MIME_TYPE@),
        prepare_allows(layer, width, height, out),
    ensures
        exists|rendered: Result<Raster, Failure>|
            #[trigger] rasterize_allows(width, height, rendered) && normalizes(
                rendered,
                width,
                height,
                out,
            ),
        out matches Err(e) ==> e == Failure::SvgParserFailure || e == Failure::InvalidSize,
        width == 0 || height == 0 ==> out is Err,
{
}

/// Every prepared layer has exactly the size of the canvas, whatever size
/// its own bytes encode.
pub proof fn lemma_prepared_layer_fits_canvas(
    layer: PayloadView,
    width: u32,
    height: u32,
    out: Result<Raster, Failure>,
)
    requires
        prepare_allows(layer, width, height, out),
    ensures
        out matches Ok(prepared) ==> prepared.width == width && prepared.height == height,
{
}

/// No overlay of the request is declared as SVG.
pub open spec fn raster_only(request: RequestView) -> bool {
    forall|i: int|
        0 <= i < request.layers.len() ==> resolved((#[trigger] request.layers[i]).content_type)
            != Ok::<DecodeStrategy, Failure>(DecodeStrategy::Vector)
}

/// Two runs over a request without vector overlays agree on every overlay
/// up to the first failure.
proof fn lemma_raster_runs_agree(
    request: RequestView,
    first: Seq<Result<Raster, Failure>>,
    second: Seq<Result<Raster, Failure>>,
    i: int,
)
    requires
        base_outcome(request.image) is Ok,
        prepared_for(request, first),
        prepared_for(request, second),
        raster_only(request),
        0 <= i < first.len(),
        all_prepared(first, i),
    ensures
        all_prepared(second, i),
        first[i] == second[i],
    decreases i,
{
    assert forall|j: int| 0 <= j < i implies (#[trigger] second[j]) is Ok by {
        assert forall|l: int| 0 <= l < j implies (#[trigger] first[l]) is Ok by {
            assert(first[l] is Ok);
        }
        assert(first[j] is Ok);
        lemma_raster_runs_agree(request, first, second, j);
    }
    assert(all_prepared(second, i));
    let base = base_outcome(request.image)->Ok_0;
    let layer = request.layers[i];
    assert(resolved(layer.content_type) != Ok::<DecodeStrategy, Failure>(DecodeStrategy::Vector));
    assert(prepare_allows(layer, base.width, base.height, first[i]));
    assert(prepare_allows(layer, base.width, base.height, second[i]));
}

/// A request without vector overlays has one result: whatever outcomes
/// preparing its overlays allows, the document is the same.
pub proof fn lemma_raster_request_is_determined(
    request: RequestView,
    first: Seq<Result<Raster, Failure>>,
    second: Seq<Result<Raster, Failure>>,
)
    requires
        prepared_for(request, first),
        prepared_for(request, second),
        raster_only(request),
    ensures
        document(request, first) == document(request, second),
{
    if base_outcome(request.image) is Ok {
        assert forall|i: int| 0 <= i < first.len() && #[trigger] all_prepared(
            first,
            i,
        ) implies first[i] == second[i] by {
            lemma_raster_runs_agree(request, first, second, i);
        }
        lemma_composite_until_failure(base_outcome(request.image)->Ok_0, first, second);
    }
}

/// The result of a request is a function of the request and of what
/// preparing its overlays yielded, up to the first failure: two runs that
/// prepared the same layers give the same bytes or the same failure. No
/// time, no chance and no earlier request enters.
pub proof fn lemma_same_layers_same_document(
    request: RequestView,
    first: Seq<Result<Raster, Failure>>,
    second: Seq<Result<Raster, Failure>>,
)
    requires
        first.len() == second.len(),
        forall|i: int|
            0 <= i < first.len() && #[trigger] all_prepared(first, i) ==> first[i] == second[i],
    ensures
        document(request, first) == document(request, second),
{
    if base_outcome(request.image) is Ok {
        lemma_composite_until_failure(base_outcome(request.image)->Ok_0, first, second);
    }
}

/// Fully transparent overlays are an identity of the fold: if every
/// overlay of a request was prepared and is fully transparent at every
/// pixel, the request gives what the base alone gives, however many such
/// overlays there are.
pub proof fn lemma_transparent_layers_change_nothing(
    request: RequestView,
    prepared: Seq<Result<Raster, Failure>>,
)
    requires
        canvas_shows(request, prepared),
        base_outcome(request.image) is Ok,
        all_prepared(prepared, prepared.len() as int),
        forall|i: int|
            0 <= i < base_outcome(request.image)->Ok_0.area() ==> #[trigger] clear_at(prepared, i),
    ensures
        document(request, prepared) == encode_outcome(base_outcome(request.image)->Ok_0),
{
    let base = base_outcome(request.image)->Ok_0;
    lemma_composite_of_prepared(base, prepared);
    lemma_composite_keeps_size(base, prepared);
    let canvas = composite(base, prepared)->Ok_0;
    assert forall|i: int| 0 <= i < canvas.area() implies #[trigger] canvas.pixel(i) == base.pixel(
        i,
    ) by {
        assert(clear_at(prepared, i));
    }
    lemma_same_pixels_same_raster(canvas, base);
}

/// An opaque overlay of one colour covers the whole canvas, whatever its
/// own size and whatever the base shows: if the decoded overlay has at
/// least one pixel and all its pixels are `colour`, the layer prepared
/// from it holds only its pixels, and the canvas shows the top layer where
/// it is opaque, then every pixel of the canvas is `colour`.
pub proof fn lemma_solid_overlay_covers(
    base: Raster,
    overlay: Raster,
    layer: Raster,
    canvas: Raster,
    colour: Rgba,
)
    requires
        colour.alpha == OPAQUE,
        forall|j: int| 0 <= j < overlay.area() ==> #[trigger] overlay.pixel(j) == colour,
        picked_from(overlay, layer),
        layer.same_size(base),
        top_layer_shows(base, seq![Ok::<Raster, Failure>(layer)], canvas),
    ensures
        forall|i: int| 0 <= i < base.area() ==> #[trigger] canvas.pixel(i) == colour,
{
    lemma_solid_stays_solid(overlay, layer, colour);
    let layers = seq![Ok::<Raster, Failure>(layer)];
    assert forall|i: int| 0 <= i < base.area() implies #[trigger] canvas.pixel(i) == colour by {
        assert(layers[0] == Ok::<Raster, Failure>(layer));
        assert(layer.pixel(i) == colour);
        assert(shows_at(layers, 0, i));
    }
}

} // verus!
