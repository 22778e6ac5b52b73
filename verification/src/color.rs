//! Color translation.
//!
//! The plot library supplies colors as 8-bit RGB channels plus an alpha in
//! [0,1]; the toolkit's scene wants normalized channels.  Both sides are held
//! as plain integers: alpha and the scene channels count 1/65535ths of full
//! intensity.  Because 65535 == 255 * 257, widening a channel is exact
//! multiplication by 257 and the translation loses nothing; sRGB values pass
//! through without gamma conversion.

use vstd::prelude::*;

verus! {

/// Full intensity of a normalized channel, and full (opaque) alpha.
pub const CHANNEL_MAX: u16 = 65535;

/// A color as the plot library supplies it: 8-bit red, green and blue, and
/// an alpha in [0,1] counted in 1/65535ths.
#[derive(Clone, Copy, Debug, PartialEq, Eq, Structural)]
pub struct RgbaColor {
    pub r: u8,
    pub g: u8,
    pub b: u8,
    pub a: u16,
}

/// A color as the backend emits it into the scene: red, green, blue and
/// alpha all normalized to [0, 65535].
#[derive(Clone, Copy, Debug, PartialEq, Eq, Structural)]
pub struct SceneColor {
    pub r: u16,
    pub g: u16,
    pub b: u16,
    pub a: u16,
}

/// The backend's color translation: widen each 8-bit channel to the
/// normalized range by the exact factor 257; alpha is passed through
/// unchanged.
pub open spec fn scene_color_of(c: RgbaColor) -> SceneColor {
    SceneColor {
        r: (c.r * 257) as u16,
        g: (c.g * 257) as u16,
        b: (c.b * 257) as u16,
        a: c.a,
    }
}

/// Inverse of the backend's color translation: narrow each normalized
/// channel back to 8 bits; alpha is passed through unchanged.
pub open spec fn rgba_of_scene(s: SceneColor) -> RgbaColor {
    RgbaColor {
        r: (s.r / 257) as u8,
        g: (s.g / 257) as u8,
        b: (s.b / 257) as u8,
        a: s.a,
    }
}

impl RgbaColor {
    /// Translate into the scene representation.
    pub fn to_scene(self) -> (r: SceneColor)
        ensures
            r == scene_color_of(self),
    {
        SceneColor {
            r: (self.r as u16) * 257,
            g: (self.g as u16) * 257,
            b: (self.b as u16) * 257,
            a: self.a,
        }
    }
}

impl SceneColor {
    /// Translate back into the plot library's representation.
    pub fn to_rgba(self) -> (r: RgbaColor)
        ensures
            r == rgba_of_scene(self),
    {
        RgbaColor {
            r: (self.r / 257) as u8,
            g: (self.g / 257) as u8,
            b: (self.b / 257) as u8,
            a: self.a,
        }
    }
}

/// Color fidelity: converting any input color to the scene representation
/// and back by the inverse translation restores the input exactly, every
/// channel and the alpha included.
pub proof fn lemma_color_round_trip(c: RgbaColor)
    ensures
        rgba_of_scene(scene_color_of(c)) == c,
{
    assert((c.r * 257) / 257 == c.r as int) by {
        vstd::arithmetic::div_mod::lemma_div_multiples_vanish(c.r as int, 257);
    }
    assert((c.g * 257) / 257 == c.g as int) by {
        vstd::arithmetic::div_mod::lemma_div_multiples_vanish(c.g as int, 257);
    }
    assert((c.b * 257) / 257 == c.b as int) by {
        vstd::arithmetic::div_mod::lemma_div_multiples_vanish(c.b as int, 257);
    }
}

} // verus!
