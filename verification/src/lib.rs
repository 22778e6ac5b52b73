//! A drawing backend that bridges a 2D chart/plot library to a
//! GPU-accelerated retained-scene UI toolkit.
//!
//! The backend adapter receives the plot library's primitive calls (pixels,
//! lines, rectangles, polylines, polygons, circles, text) in integer
//! chart-local coordinates and emits scene primitives positioned in the
//! toolkit's device-independent pixels, offset by the hosting element's
//! origin.  Device coordinates are carried in fixed point ([`geometry::Px`])
//! so that every translation and rounding step has an exact contract.

use vstd::prelude::*;

pub mod backend;
pub mod color;
pub mod element;
pub mod geometry;
pub mod scene;

verus! {

/// Error reported by a drawing backend primitive, or by a chart's `plot`
/// callback.  The backend itself only fails when the toolkit sink refuses a
/// primitive; the in-memory scene sink never does, so values of this type
/// originate in user plot code or in the embedding application.
#[derive(Clone, Debug, PartialEq, Eq)]
pub enum DrawingErrorKind {
    /// The backend could not fulfil a primitive; the payload describes why.
    BackendError(String),
}

} // verus!
