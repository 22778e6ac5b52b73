//! The scene primitives the backend emits, and the text model.
//!
//! Each primitive carries device-pixel positions that were already offset by
//! the hosting element's origin, and a scene color.  The embedding
//! application drains the emitted primitives, in order, into the toolkit's
//! paint sink; painter's-algorithm ordering is preserved because the backend
//! only ever appends.

use vstd::prelude::*;

use crate::color::SceneColor;
use crate::geometry::{DevicePoint, Px};

verus! {

/// Horizontal part of a text anchor: which point of the measured box aligns
/// with the given coordinate.
#[derive(Clone, Copy, Debug, PartialEq, Eq, Structural)]
pub enum HorizAnchor {
    Start,
    Middle,
    End,
}

/// Vertical part of a text anchor.
#[derive(Clone, Copy, Debug, PartialEq, Eq, Structural)]
pub enum VertAnchor {
    Top,
    Middle,
    Bottom,
}

/// Measured extent of a piece of text, in fixed-point device pixels.
#[derive(Clone, Copy, Debug, PartialEq, Eq, Structural)]
pub struct TextExtent {
    pub w: Px,
    pub h: Px,
}

impl TextExtent {
    pub open spec fn wf(self) -> bool {
        self.w.wf_size() && self.h.wf_size()
    }
}

/// Style of a text primitive: font family and size, color, the anchor that
/// aligns the measured box with the given coordinate, and a rotation in
/// degrees applied about the anchored point.
#[derive(Clone, Debug)]
pub struct TextStyle {
    pub family: String,
    pub size: Px,
    pub color: crate::color::RgbaColor,
    pub h_anchor: HorizAnchor,
    pub v_anchor: VertAnchor,
    pub rotation_deg: i32,
}

impl TextStyle {
    pub open spec fn wf(self) -> bool {
        self.size.wf_size()
    }
}

/// A primitive of the toolkit's retained scene, as the backend emits it.
///
/// Stroked paths are rendered with butt caps and solid strokes; the toolkit
/// in use offers no finer cap or dash control, a known deviation.
#[derive(Clone, Debug)]
pub enum ScenePrimitive {
    /// Axis-aligned filled rectangle given by its top-left corner and extent.
    FillRect { corner: DevicePoint, width: Px, height: Px, color: SceneColor },
    /// Polyline through `points` in order, stroked `width` thick; `closed`
    /// joins the last point back to the first.
    StrokePath { points: Vec<DevicePoint>, width: Px, color: SceneColor, closed: bool },
    /// Filled path through `points`, closed from the last vertex to the
    /// first, using the toolkit's non-zero winding fill rule.
    FillPath { points: Vec<DevicePoint>, color: SceneColor },
    /// Axis-aligned ellipse, filled or stroked.
    Ellipse {
        center: DevicePoint,
        radius_x: Px,
        radius_y: Px,
        color: SceneColor,
        fill: bool,
        stroke_width: Px,
    },
    /// A text run: `pos` is the top-left insertion point after anchor
    /// adjustment; the toolkit rotates the run by `rotation_deg` degrees
    /// about `rotate_about`, the anchored coordinate itself.
    TextRun {
        text: String,
        family: String,
        size: Px,
        pos: DevicePoint,
        rotate_about: DevicePoint,
        rotation_deg: i32,
        color: SceneColor,
    },
}

/// Mathematical image of a scene primitive: sequences in place of vectors
/// and character sequences in place of strings, so contracts can state
/// emitted primitives exactly.
#[verifier::ext_equal]
pub enum ScenePrimView {
    FillRect { corner: DevicePoint, width: Px, height: Px, color: SceneColor },
    StrokePath { points: Seq<DevicePoint>, width: Px, color: SceneColor, closed: bool },
    FillPath { points: Seq<DevicePoint>, color: SceneColor },
    Ellipse {
        center: DevicePoint,
        radius_x: Px,
        radius_y: Px,
        color: SceneColor,
        fill: bool,
        stroke_width: Px,
    },
    TextRun {
        text: Seq<char>,
        family: Seq<char>,
        size: Px,
        pos: DevicePoint,
        rotate_about: DevicePoint,
        rotation_deg: i32,
        color: SceneColor,
    },
}

impl View for ScenePrimitive {
    type V = ScenePrimView;

    open spec fn view(&self) -> ScenePrimView {
        match self {
            ScenePrimitive::FillRect { corner, width, height, color } => ScenePrimView::FillRect {
                corner: *corner,
                width: *width,
                height: *height,
                color: *color,
            },
            ScenePrimitive::StrokePath { points, width, color, closed } => ScenePrimView::StrokePath {
                points: points@,
                width: *width,
                color: *color,
                closed: *closed,
            },
            ScenePrimitive::FillPath { points, color } => ScenePrimView::FillPath {
                points: points@,
                color: *color,
            },
            ScenePrimitive::Ellipse { center, radius_x, radius_y, color, fill, stroke_width } => ScenePrimView::Ellipse {
                center: *center,
                radius_x: *radius_x,
                radius_y: *radius_y,
                color: *color,
                fill: *fill,
                stroke_width: *stroke_width,
            },
            ScenePrimitive::TextRun { text, family, size, pos, rotate_about, rotation_deg, color } => ScenePrimView::TextRun {
                text: text@,
                family: family@,
                size: *size,
                pos: *pos,
                rotate_about: *rotate_about,
                rotation_deg: *rotation_deg,
                color: *color,
            },
        }
    }
}

} // verus!
