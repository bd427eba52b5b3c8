//! Layered image compositing: one base raster image, an ordered list of
//! raster or SVG overlays, one JPEG out.
//!
//! Every stage is a value transformation with a contract:
//!
//! - [`mime`] picks the decode strategy from the declared content type;
//! - [`raster`] decodes raster bytes, [`vector`] rasterizes SVG documents;
//! - [`normalize`] forces a layer to the size of the canvas;
//! - [`compositor`] draws a layer over the canvas;
//! - [`encoder`] serializes the canvas;
//! - [`pipeline`] runs a whole request through these stages, overlays in
//!   input order, and stops at the first failure;
//! - [`error`] names the failures, [`pixel`] holds the pixel buffers.
//!
//! Decoding, resampling, blending, rendering and encoding are the work of
//! the `image` and `resvg` crates. Their results enter the contracts as
//! uninterpreted functions of the inputs, together with the few facts that
//! the proofs rest on.

pub mod compositor;
pub mod encoder;
pub mod error;
pub mod mime;
pub mod normalize;
pub mod pipeline;
pub mod pixel;
pub mod raster;
pub mod vector;
