//! The backend adapter.
//!
//! [`GpuiBackend`] implements the drawing contract the plot library expects:
//! it receives primitives at integer chart-local coordinates, translates them
//! by the hosting element's origin, converts their colors, and appends the
//! resulting scene primitives to an in-memory sink in call order.  The
//! embedding application drains that sink into the toolkit's paint sink
//! within the same frame.
//!
//! The adapter is transient: it is built for one paint call from the
//! element's bounds, and dropped when the paint call returns.  The sink
//! buffer never refuses a primitive, so every operation reports success;
//! out-of-range coordinates are emitted unchanged and left to the toolkit's
//! clipping.

use vstd::prelude::*;
use vstd::string::StrSliceExecFns;

use crate::color::{scene_color_of, RgbaColor};
use crate::geometry::{
    round_sub, translate_point, translated_point, translated_x, translated_y, DevicePoint,
    PixelBounds, PixelPoint, Px, MAX_COORD_SUB, SUB_SCALE,
};
use crate::scene::{
    HorizAnchor, ScenePrimView, ScenePrimitive, TextExtent, TextStyle, VertAnchor,
};
use crate::DrawingErrorKind;

verus! {

/// Greatest number of characters the nominal text metric counts; longer
/// runs measure as if they had this many.
pub const NOMINAL_TEXT_CAP: u64 = 1048576;

/// Scene image of a 1x1 chart pixel drawn at `p`: a filled rectangle one
/// device pixel on each side at the translated position.
pub open spec fn pixel_prim(b: PixelBounds, p: PixelPoint, c: RgbaColor) -> ScenePrimView {
    ScenePrimView::FillRect {
        corner: translated_point(b, p),
        width: Px { sub: SUB_SCALE },
        height: Px { sub: SUB_SCALE },
        color: scene_color_of(c),
    }
}

/// Scene image of a line: an open stroked path with the two translated
/// endpoints.
pub open spec fn line_prim(
    b: PixelBounds,
    p0: PixelPoint,
    p1: PixelPoint,
    c: RgbaColor,
    width: Px,
) -> ScenePrimView {
    ScenePrimView::StrokePath {
        points: seq![translated_point(b, p0), translated_point(b, p1)],
        width: width,
        color: scene_color_of(c),
        closed: false,
    }
}

/// Corner of the rectangle spanned by `p0` and `p1` with the smaller
/// coordinate on each axis.
pub open spec fn rect_corner_lo(p0: PixelPoint, p1: PixelPoint) -> PixelPoint {
    PixelPoint {
        x: if p0.x <= p1.x { p0.x } else { p1.x },
        y: if p0.y <= p1.y { p0.y } else { p1.y },
    }
}

/// Corner of the rectangle spanned by `p0` and `p1` with the larger
/// coordinate on each axis.
pub open spec fn rect_corner_hi(p0: PixelPoint, p1: PixelPoint) -> PixelPoint {
    PixelPoint {
        x: if p0.x <= p1.x { p1.x } else { p0.x },
        y: if p0.y <= p1.y { p1.y } else { p0.y },
    }
}

/// Scene image of a filled rectangle spanned by `p0` and `p1`: its top-left
/// corner translated, extending to the larger corner.
pub open spec fn rect_fill_prim(
    b: PixelBounds,
    p0: PixelPoint,
    p1: PixelPoint,
    c: RgbaColor,
) -> ScenePrimView {
    ScenePrimView::FillRect {
        corner: translated_point(b, rect_corner_lo(p0, p1)),
        width: Px {
            sub: (SUB_SCALE * (rect_corner_hi(p0, p1).x - rect_corner_lo(p0, p1).x)) as i64,
        },
        height: Px {
            sub: (SUB_SCALE * (rect_corner_hi(p0, p1).y - rect_corner_lo(p0, p1).y)) as i64,
        },
        color: scene_color_of(c),
    }
}

/// Scene image of a rectangle outline: its four translated corners as a
/// closed stroked path, top-left first, clockwise.
pub open spec fn rect_stroke_prim(
    b: PixelBounds,
    p0: PixelPoint,
    p1: PixelPoint,
    c: RgbaColor,
    width: Px,
) -> ScenePrimView {
    let lo = rect_corner_lo(p0, p1);
    let hi = rect_corner_hi(p0, p1);
    ScenePrimView::StrokePath {
        points: seq![
            translated_point(b, lo),
            translated_point(b, PixelPoint { x: hi.x, y: lo.y }),
            translated_point(b, hi),
            translated_point(b, PixelPoint { x: lo.x, y: hi.y }),
        ],
        width: width,
        color: scene_color_of(c),
        closed: true,
    }
}

/// Scene primitives emitted for a polyline: none for an empty path, a single
/// chart pixel for one point, otherwise one open stroked path through the
/// translated points in order.
pub open spec fn path_prims(
    b: PixelBounds,
    pts: Seq<PixelPoint>,
    c: RgbaColor,
    width: Px,
) -> Seq<ScenePrimView> {
    if pts.len() == 0 {
        Seq::empty()
    } else if pts.len() == 1 {
        seq![pixel_prim(b, pts[0], c)]
    } else {
        seq![
            ScenePrimView::StrokePath {
                points: pts.map_values(|q: PixelPoint| translated_point(b, q)),
                width: width,
                color: scene_color_of(c),
                closed: false,
            },
        ]
    }
}

/// Scene primitives emitted for a filled polygon: none when it has no
/// vertices, otherwise one filled path through the translated vertices,
/// closed from the last back to the first.
pub open spec fn polygon_prims(b: PixelBounds, pts: Seq<PixelPoint>, c: RgbaColor) -> Seq<
    ScenePrimView,
> {
    if pts.len() == 0 {
        Seq::empty()
    } else {
        seq![
            ScenePrimView::FillPath {
                points: pts.map_values(|q: PixelPoint| translated_point(b, q)),
                color: scene_color_of(c),
            },
        ]
    }
}

/// Scene image of a circle: the toolkit's ellipse primitive with both radii
/// equal, centered at the translated center.
pub open spec fn circle_prim(
    b: PixelBounds,
    center: PixelPoint,
    radius: u32,
    c: RgbaColor,
    fill: bool,
    width: Px,
) -> ScenePrimView {
    ScenePrimView::Ellipse {
        center: translated_point(b, center),
        radius_x: Px { sub: (SUB_SCALE * radius) as i64 },
        radius_y: Px { sub: (SUB_SCALE * radius) as i64 },
        color: scene_color_of(c),
        fill: fill,
        stroke_width: width,
    }
}

/// Horizontal anchor adjustment: how far the insertion point moves left of
/// the given coordinate for a run `w` subunits wide.
pub open spec fn h_shift(a: HorizAnchor, w: int) -> int {
    match a {
        HorizAnchor::Start => 0,
        HorizAnchor::Middle => -(w / 2),
        HorizAnchor::End => -w,
    }
}

/// Vertical anchor adjustment for a run `h` subunits tall.
pub open spec fn v_shift(a: VertAnchor, h: int) -> int {
    match a {
        VertAnchor::Top => 0,
        VertAnchor::Middle => -(h / 2),
        VertAnchor::Bottom => -h,
    }
}

/// Insertion point of a text run: the translated coordinate shifted by the
/// anchor adjustment for the measured extent.
pub open spec fn anchored_pos(
    b: PixelBounds,
    p: PixelPoint,
    style: TextStyle,
    e: TextExtent,
) -> DevicePoint {
    DevicePoint {
        x: Px { sub: (translated_x(b, p.x as int) + h_shift(style.h_anchor, e.w.sub as int)) as i64 },
        y: Px { sub: (translated_y(b, p.y as int) + v_shift(style.v_anchor, e.h.sub as int)) as i64 },
    }
}

/// Scene image of a text run measured at extent `e`: anchored insertion
/// point, rotation about the translated anchor coordinate, translated color
/// and the style's font family and size.
pub open spec fn text_prim(
    b: PixelBounds,
    text: Seq<char>,
    style: TextStyle,
    p: PixelPoint,
    e: TextExtent,
) -> ScenePrimView {
    ScenePrimView::TextRun {
        text: text,
        family: style.family@,
        size: style.size,
        pos: anchored_pos(b, p, style, e),
        rotate_about: translated_point(b, p),
        rotation_deg: style.rotation_deg,
        color: scene_color_of(style.color),
    }
}

/// The nominal text metric used when no toolkit text system is attached:
/// each character advances half the font size, the run is one font size
/// tall, and the width saturates at the largest well-formed extent.
pub open spec fn nominal_extent(text: Seq<char>, size: Px) -> TextExtent {
    TextExtent { w: Px { sub: nominal_w(text.len() as int, size.sub as int) as i64 }, h: size }
}

/// Width, in subunits, the nominal metric gives a run of `len` characters at
/// font size `size` subunits.
pub open spec fn nominal_w(len: int, size: int) -> int {
    let n = if len <= NOMINAL_TEXT_CAP { len } else { NOMINAL_TEXT_CAP as int };
    let w = n * size / 2;
    if w <= MAX_COORD_SUB {
        w
    } else {
        MAX_COORD_SUB as int
    }
}

/// The drawing backend bound to one paint call: the hosting element's
/// bounds, and the scene primitives emitted so far, in call order.
pub struct GpuiBackend {
    pub bounds: PixelBounds,
    pub scene: Vec<ScenePrimitive>,
}

impl GpuiBackend {
    /// The backend works for any scene, but its bounds must be well-formed
    /// for the translation arithmetic to stay in range.
    pub open spec fn wf(self) -> bool {
        self.bounds.wf()
    }

    /// The emitted scene, as a sequence of mathematical primitives.
    pub open spec fn scene_view(self) -> Seq<ScenePrimView> {
        self.scene@.map_values(|q: ScenePrimitive| q@)
    }

    /// Bind a fresh backend to the element's bounds; nothing is emitted yet.
    pub fn new(bounds: PixelBounds) -> (r: GpuiBackend)
        requires
            bounds.wf(),
        ensures
            r.bounds == bounds,
            r.scene_view() == Seq::<ScenePrimView>::empty(),
    {
        let r = GpuiBackend { bounds, scene: Vec::new() };
        proof {
            assert(r.scene_view() =~~= Seq::<ScenePrimView>::empty());
        }
        r
    }

    /// The canvas size reported to the plot library: the bounds' extent
    /// rounded to whole pixels, halves away from zero.
    pub fn size(&self) -> (r: (u32, u32))
        requires
            self.wf(),
        ensures
            r.0 == round_sub(self.bounds.width.sub as int),
            r.1 == round_sub(self.bounds.height.sub as int),
    {
        let w = self.bounds.width.round();
        let h = self.bounds.height.round();
        (w as u32, h as u32)
    }

    /// Lifecycle hook required by the plot library; the backend is always
    /// ready, so this changes nothing and emits nothing.
    pub fn ensure_prepared(&mut self) -> (r: Result<(), DrawingErrorKind>)
        ensures
            r is Ok,
            *final(self) == *old(self),
    {
        Ok(())
    }

    /// Lifecycle hook required by the plot library; the toolkit owns
    /// presentation, so this changes nothing and emits nothing.
    pub fn present(&mut self) -> (r: Result<(), DrawingErrorKind>)
        ensures
            r is Ok,
            *final(self) == *old(self),
    {
        Ok(())
    }

    /// Surrender the emitted scene.
    pub fn into_scene(self) -> (r: Vec<ScenePrimitive>)
        ensures
            r == self.scene,
    {
        self.scene
    }

    /// Draw one chart pixel: a 1x1 filled rectangle at the translated
    /// position.
    pub fn draw_pixel(&mut self, p: PixelPoint, color: RgbaColor) -> (r: Result<
        (),
        DrawingErrorKind,
    >)
        requires
            old(self).wf(),
        ensures
            r is Ok,
            final(self).bounds == old(self).bounds,
            final(self).scene_view() == old(self).scene_view().push(
                pixel_prim(old(self).bounds, p, color),
            ),
    {
        let corner = translate_point(&self.bounds, p);
        self.scene.push(
            ScenePrimitive::FillRect {
                corner,
                width: Px { sub: SUB_SCALE },
                height: Px { sub: SUB_SCALE },
                color: color.to_scene(),
            },
        );
        proof {
            assert(self.scene_view() =~~= old(self).scene_view().push(
                pixel_prim(old(self).bounds, p, color),
            ));
        }
        Ok(())
    }

    /// Draw a line: an open stroked path with the two translated endpoints;
    /// a degenerate line whose endpoints coincide becomes a single chart
    /// pixel there.
    pub fn draw_line(
        &mut self,
        p0: PixelPoint,
        p1: PixelPoint,
        color: RgbaColor,
        width: Px,
    ) -> (r: Result<(), DrawingErrorKind>)
        requires
            old(self).wf(),
        ensures
            r is Ok,
            final(self).bounds == old(self).bounds,
            final(self).scene_view() == old(self).scene_view().push(
                if p0 == p1 {
                    pixel_prim(old(self).bounds, p0, color)
                } else {
                    line_prim(old(self).bounds, p0, p1, color, width)
                },
            ),
    {
        if p0.x == p1.x && p0.y == p1.y {
            return self.draw_pixel(p0, color);
        }
        let d0 = translate_point(&self.bounds, p0);
        let d1 = translate_point(&self.bounds, p1);
        let mut points: Vec<DevicePoint> = Vec::new();
        points.push(d0);
        points.push(d1);
        self.scene.push(
            ScenePrimitive::StrokePath { points, width, color: color.to_scene(), closed: false },
        );
        proof {
            assert(self.scene_view() =~~= old(self).scene_view().push(
                line_prim(old(self).bounds, p0, p1, color, width),
            ));
        }
        Ok(())
    }

    /// Draw a rectangle spanned by two corners.  Filled: one filled
    /// rectangle from the smaller to the larger corner, skipped silently if
    /// its area is zero.  Outlined: its four edges as a closed stroked path.
    pub fn draw_rect(
        &mut self,
        p0: PixelPoint,
        p1: PixelPoint,
        color: RgbaColor,
        fill: bool,
        width: Px,
    ) -> (r: Result<(), DrawingErrorKind>)
        requires
            old(self).wf(),
        ensures
            r is Ok,
            final(self).bounds == old(self).bounds,
            final(self).scene_view() == old(self).scene_view() + rect_prims(
                old(self).bounds,
                p0,
                p1,
                color,
                fill,
                width,
            ),
    {
        let lo = PixelPoint {
            x: if p0.x <= p1.x { p0.x } else { p1.x },
            y: if p0.y <= p1.y { p0.y } else { p1.y },
        };
        let hi = PixelPoint {
            x: if p0.x <= p1.x { p1.x } else { p0.x },
            y: if p0.y <= p1.y { p1.y } else { p0.y },
        };
        if fill {
            if lo.x == hi.x || lo.y == hi.y {
                proof {
                    assert(self.scene_view() =~~= old(self).scene_view() + rect_prims(
                        old(self).bounds, p0, p1, color, fill, width,
                    ));
                }
                return Ok(());
            }
            let corner = translate_point(&self.bounds, lo);
            let w = Px { sub: (hi.x as i64 - lo.x as i64) * SUB_SCALE };
            let h = Px { sub: (hi.y as i64 - lo.y as i64) * SUB_SCALE };
            self.scene.push(
                ScenePrimitive::FillRect { corner, width: w, height: h, color: color.to_scene() },
            );
            proof {
                assert(self.scene_view() =~~= old(self).scene_view() + rect_prims(
                    old(self).bounds, p0, p1, color, fill, width,
                ));
            }
        } else {
            let c0 = translate_point(&self.bounds, lo);
            let c1 = translate_point(&self.bounds, PixelPoint { x: hi.x, y: lo.y });
            let c2 = translate_point(&self.bounds, hi);
            let c3 = translate_point(&self.bounds, PixelPoint { x: lo.x, y: hi.y });
            let mut points: Vec<DevicePoint> = Vec::new();
            points.push(c0);
            points.push(c1);
            points.push(c2);
            points.push(c3);
            self.scene.push(
                ScenePrimitive::StrokePath { points, width, color: color.to_scene(), closed: true },
            );
            proof {
                assert(self.scene_view() =~~= old(self).scene_view() + rect_prims(
                    old(self).bounds, p0, p1, color, fill, width,
                ));
            }
        }
        Ok(())
    }

    /// Draw a polyline through `points` in order: nothing for an empty path,
    /// a single chart pixel for one point, otherwise one open stroked path.
    pub fn draw_path(
        &mut self,
        points: &Vec<PixelPoint>,
        color: RgbaColor,
        width: Px,
    ) -> (r: Result<(), DrawingErrorKind>)
        requires
            old(self).wf(),
        ensures
            r is Ok,
            final(self).bounds == old(self).bounds,
            final(self).scene_view() == old(self).scene_view() + path_prims(
                old(self).bounds,
                points@,
                color,
                width,
            ),
    {
        if points.len() == 0 {
            proof {
                assert(self.scene_view() =~~= old(self).scene_view() + path_prims(
                    old(self).bounds, points@, color, width,
                ));
            }
            return Ok(());
        }
        if points.len() == 1 {
            let r = self.draw_pixel(points[0], color);
            proof {
                assert(self.scene_view() =~~= old(self).scene_view() + path_prims(
                    old(self).bounds, points@, color, width,
                ));
            }
            return r;
        }
        let tpts = translate_points(&self.bounds, points);
        self.scene.push(
            ScenePrimitive::StrokePath {
                points: tpts,
                width,
                color: color.to_scene(),
                closed: false,
            },
        );
        proof {
            assert(self.scene_view() =~~= old(self).scene_view() + path_prims(
                old(self).bounds, points@, color, width,
            ));
        }
        Ok(())
    }

    /// Fill a polygon with the given vertices, closed from the last vertex
    /// back to the first; a polygon without vertices draws nothing.
    pub fn fill_polygon(&mut self, points: &Vec<PixelPoint>, color: RgbaColor) -> (r: Result<
        (),
        DrawingErrorKind,
    >)
        requires
            old(self).wf(),
        ensures
            r is Ok,
            final(self).bounds == old(self).bounds,
            final(self).scene_view() == old(self).scene_view() + polygon_prims(
                old(self).bounds,
                points@,
                color,
            ),
    {
        if points.len() == 0 {
            proof {
                assert(self.scene_view() =~~= old(self).scene_view() + polygon_prims(
                    old(self).bounds, points@, color,
                ));
            }
            return Ok(());
        }
        let tpts = translate_points(&self.bounds, points);
        self.scene.push(ScenePrimitive::FillPath { points: tpts, color: color.to_scene() });
        proof {
            assert(self.scene_view() =~~= old(self).scene_view() + polygon_prims(
                old(self).bounds, points@, color,
            ));
        }
        Ok(())
    }

    /// Draw a circle of the given radius: the toolkit's ellipse primitive,
    /// filled or stroked.
    pub fn draw_circle(
        &mut self,
        center: PixelPoint,
        radius: u32,
        color: RgbaColor,
        fill: bool,
        width: Px,
    ) -> (r: Result<(), DrawingErrorKind>)
        requires
            old(self).wf(),
        ensures
            r is Ok,
            final(self).bounds == old(self).bounds,
            final(self).scene_view() == old(self).scene_view().push(
                circle_prim(old(self).bounds, center, radius, color, fill, width),
            ),
    {
        let c = translate_point(&self.bounds, center);
        let rad = Px { sub: (radius as i64) * SUB_SCALE };
        self.scene.push(
            ScenePrimitive::Ellipse {
                center: c,
                radius_x: rad,
                radius_y: rad,
                color: color.to_scene(),
                fill,
                stroke_width: width,
            },
        );
        proof {
            assert(self.scene_view() =~~= old(self).scene_view().push(
                circle_prim(old(self).bounds, center, radius, color, fill, width),
            ));
        }
        Ok(())
    }

    /// Draw text whose extent was measured by the embedding toolkit's text
    /// system: the insertion point is the translated coordinate shifted by
    /// the style's anchor, and the run rotates about that coordinate.
    pub fn draw_text_measured(
        &mut self,
        text: &str,
        style: &TextStyle,
        p: PixelPoint,
        extent: TextExtent,
    ) -> (r: Result<(), DrawingErrorKind>)
        requires
            old(self).wf(),
            style.wf(),
            extent.wf(),
        ensures
            r is Ok,
            final(self).bounds == old(self).bounds,
            final(self).scene_view() == old(self).scene_view().push(
                text_prim(old(self).bounds, text@, *style, p, extent),
            ),
    {
        let tx: i64 = self.bounds.origin.x.sub + (p.x as i64) * SUB_SCALE;
        let ty: i64 = self.bounds.origin.y.sub + (p.y as i64) * SUB_SCALE;
        let sx: i64 = match style.h_anchor {
            HorizAnchor::Start => 0,
            HorizAnchor::Middle => ((extent.w.sub as u64) / 2) as i64,
            HorizAnchor::End => extent.w.sub,
        };
        let sy: i64 = match style.v_anchor {
            VertAnchor::Top => 0,
            VertAnchor::Middle => ((extent.h.sub as u64) / 2) as i64,
            VertAnchor::Bottom => extent.h.sub,
        };
        let pos = DevicePoint { x: Px { sub: tx - sx }, y: Px { sub: ty - sy } };
        let about = DevicePoint { x: Px { sub: tx }, y: Px { sub: ty } };
        let family_copy = style.family.as_str().to_owned();
        let text_copy = text.to_owned();
        self.scene.push(
            ScenePrimitive::TextRun {
                text: text_copy,
                family: family_copy,
                size: style.size,
                pos,
                rotate_about: about,
                rotation_deg: style.rotation_deg,
                color: style.color.to_scene(),
            },
        );
        proof {
            assert(self.scene_view() =~~= old(self).scene_view().push(
                text_prim(old(self).bounds, text@, *style, p, extent),
            ));
        }
        Ok(())
    }

    /// Draw text measured with the backend's nominal metric; the embedding
    /// application measures with the toolkit's text system instead and calls
    /// [`GpuiBackend::draw_text_measured`].
    pub fn draw_text(&mut self, text: &str, style: &TextStyle, p: PixelPoint) -> (r: Result<
        (),
        DrawingErrorKind,
    >)
        requires
            old(self).wf(),
            style.wf(),
        ensures
            r is Ok,
            final(self).bounds == old(self).bounds,
            final(self).scene_view() == old(self).scene_view().push(
                text_prim(
                    old(self).bounds,
                    text@,
                    *style,
                    p,
                    nominal_extent(text@, style.size),
                ),
            ),
    {
        let len_chars: usize = text.unicode_len();
        let n: u64 = if len_chars as u64 > NOMINAL_TEXT_CAP {
            NOMINAL_TEXT_CAP
        } else {
            len_chars as u64
        };
        proof {
            vstd::arithmetic::mul::lemma_mul_upper_bound(
                n as int,
                NOMINAL_TEXT_CAP as int,
                style.size.sub as int,
                MAX_COORD_SUB as int,
            );
        }
        let wprod: u64 = n * (style.size.sub as u64) / 2;
        let wsub: i64 = if wprod > MAX_COORD_SUB as u64 {
            MAX_COORD_SUB
        } else {
            wprod as i64
        };
        let extent = TextExtent { w: Px { sub: wsub }, h: style.size };
        assert(extent == nominal_extent(text@, style.size));
        self.draw_text_measured(text, style, p, extent)
    }
}

/// Scene primitives emitted for a rectangle: a filled one is skipped when
/// its area is zero, an outline is always emitted.
pub open spec fn rect_prims(
    b: PixelBounds,
    p0: PixelPoint,
    p1: PixelPoint,
    c: RgbaColor,
    fill: bool,
    width: Px,
) -> Seq<ScenePrimView> {
    if fill {
        if p0.x == p1.x || p0.y == p1.y {
            Seq::empty()
        } else {
            seq![rect_fill_prim(b, p0, p1, c)]
        }
    } else {
        seq![rect_stroke_prim(b, p0, p1, c, width)]
    }
}

/// Translate every chart-local point of `pts` into device pixels.
fn translate_points(b: &PixelBounds, pts: &Vec<PixelPoint>) -> (r: Vec<DevicePoint>)
    requires
        b.wf(),
    ensures
        r@ == pts@.map_values(|q: PixelPoint| translated_point(*b, q)),
{
    let mut out: Vec<DevicePoint> = Vec::new();
    let mut i: usize = 0;
    while i < pts.len()
        invariant
            b.wf(),
            i <= pts.len(),
            out@ == pts@.take(i as int).map_values(|q: PixelPoint| translated_point(*b, q)),
        decreases pts.len() - i,
    {
        let d = translate_point(b, pts[i]);
        out.push(d);
        proof {
            assert(out@ =~~= pts@.take(i as int + 1).map_values(
                |q: PixelPoint| translated_point(*b, q),
            ));
        }
        i += 1;
    }
    proof {
        assert(pts@.take(pts@.len() as int) =~~= pts@);
    }
    out
}

} // verus!
