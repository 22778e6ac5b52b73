//! Coordinate model of the backend.
//!
//! The plot library issues primitives at integer chart-local coordinates
//! ([`PixelPoint`]); the UI toolkit positions scene primitives in
//! device-independent pixels that may be fractional.  Device quantities are
//! carried in fixed point ([`Px`], 256 subunits per pixel) so that the
//! translation by the element's origin and the rounding of the element's
//! extent are exact integer arithmetic.

use vstd::prelude::*;

verus! {

/// Number of fixed-point subunits per device-independent pixel.
pub const SUB_SCALE: i64 = 256;

/// Largest magnitude, in subunits, of a well-formed coordinate or extent:
/// 2^39 subunits, i.e. 2^31 device pixels.  Within this range every
/// translation the backend performs fits comfortably in `i64`, and a rounded
/// extent fits in `u32`.
pub const MAX_COORD_SUB: i64 = 549755813888;

/// A coordinate or length in device-independent pixels, in fixed point:
/// `sub` counts 1/256ths of a pixel.
#[derive(Clone, Copy, Debug, PartialEq, Eq, Structural)]
pub struct Px {
    pub sub: i64,
}

/// Whole-pixel value nearest to `v` subunits, halves rounded away from zero.
pub open spec fn round_sub(v: int) -> int {
    if v >= 0 {
        (v + 128) / 256
    } else {
        -((-v + 128) / 256)
    }
}

impl Px {
    /// Bounded so that backend arithmetic stays within `i64`.
    pub open spec fn wf(self) -> bool {
        -MAX_COORD_SUB <= self.sub <= MAX_COORD_SUB
    }

    /// A well-formed extent: non-negative and bounded.
    pub open spec fn wf_size(self) -> bool {
        0 <= self.sub <= MAX_COORD_SUB
    }

    /// A whole number of device pixels.
    pub fn from_px(v: i32) -> (r: Px)
        ensures
            r.sub == v * SUB_SCALE,
            r.wf(),
    {
        Px { sub: (v as i64) * SUB_SCALE }
    }

    /// The nearest whole pixel, halves rounded away from zero.
    pub fn round(self) -> (r: i64)
        requires
            self.wf(),
        ensures
            r == round_sub(self.sub as int),
    {
        if self.sub >= 0 {
            let q: u64 = (self.sub as u64 + 128) / 256;
            q as i64
        } else {
            let m: u64 = (-self.sub) as u64;
            let q: u64 = (m + 128) / 256;
            -(q as i64)
        }
    }
}

/// A chart-local position: integer pixels, origin at the top-left corner of
/// the hosting element, y growing downward.
#[derive(Clone, Copy, Debug, PartialEq, Eq, Structural)]
pub struct PixelPoint {
    pub x: i32,
    pub y: i32,
}

/// A position in the toolkit's device-independent pixels.
#[derive(Clone, Copy, Debug, PartialEq, Eq, Structural)]
pub struct DevicePoint {
    pub x: Px,
    pub y: Px,
}

/// The rectangle the hosting element was assigned: device-pixel origin of its
/// top-left corner plus its extent.
#[derive(Clone, Copy, Debug, PartialEq, Eq, Structural)]
pub struct PixelBounds {
    pub origin: DevicePoint,
    pub width: Px,
    pub height: Px,
}

impl PixelBounds {
    pub open spec fn wf(self) -> bool {
        &&& self.origin.x.wf()
        &&& self.origin.y.wf()
        &&& self.width.wf_size()
        &&& self.height.wf_size()
    }
}

/// Device x-coordinate of chart-local column `x` under bounds `b`.
pub open spec fn translated_x(b: PixelBounds, x: int) -> int {
    b.origin.x.sub + SUB_SCALE * x
}

/// Device y-coordinate of chart-local row `y` under bounds `b`.
pub open spec fn translated_y(b: PixelBounds, y: int) -> int {
    b.origin.y.sub + SUB_SCALE * y
}

/// Device position of chart-local point `p` under bounds `b`: the point
/// offset by the element's origin.
pub open spec fn translated_point(b: PixelBounds, p: PixelPoint) -> DevicePoint {
    DevicePoint {
        x: Px { sub: translated_x(b, p.x as int) as i64 },
        y: Px { sub: translated_y(b, p.y as int) as i64 },
    }
}

/// Translate a chart-local point into device pixels by adding the element
/// origin.
pub fn translate_point(b: &PixelBounds, p: PixelPoint) -> (r: DevicePoint)
    requires
        b.wf(),
    ensures
        r == translated_point(*b, p),
{
    let x: i64 = b.origin.x.sub + (p.x as i64) * SUB_SCALE;
    let y: i64 = b.origin.y.sub + (p.y as i64) * SUB_SCALE;
    DevicePoint { x: Px { sub: x }, y: Px { sub: y } }
}

/// The translation invariant: for any bounds `b` and chart-local point `p`,
/// the device position the backend uses for `p` is exactly the local
/// coordinate scaled to subunits plus the element origin, in each axis.
pub proof fn lemma_translation_invariant(b: PixelBounds, p: PixelPoint)
    requires
        b.wf(),
    ensures
        translated_point(b, p).x.sub == b.origin.x.sub + SUB_SCALE * p.x,
        translated_point(b, p).y.sub == b.origin.y.sub + SUB_SCALE * p.y,
{
}

} // verus!
