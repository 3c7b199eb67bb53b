//! A 4-component normalized color value.
//!
//! Components are fixed-point scalars conceptually in [0, 1]; they are
//! not clamped, and every conversion moves them through unchanged.

use crate::fx::{FX_SCALE, Fx};
use vstd::prelude::*;

verus! {

/// Red, green, blue and alpha, in that order.
#[derive(Clone, Copy, Debug, PartialEq, Eq, Structural)]
pub struct Color(pub Fx, pub Fx, pub Fx, pub Fx);

impl Color {
    /// Opaque red.
    pub fn red() -> (c: Color)
        ensures
            c == (Color(Fx { raw: FX_SCALE }, Fx { raw: 0 }, Fx { raw: 0 }, Fx { raw: FX_SCALE })),
    {
        Color(Fx { raw: FX_SCALE }, Fx { raw: 0 }, Fx { raw: 0 }, Fx { raw: FX_SCALE })
    }

    /// Opaque green.
    pub fn green() -> (c: Color)
        ensures
            c == (Color(Fx { raw: 0 }, Fx { raw: FX_SCALE }, Fx { raw: 0 }, Fx { raw: FX_SCALE })),
    {
        Color(Fx { raw: 0 }, Fx { raw: FX_SCALE }, Fx { raw: 0 }, Fx { raw: FX_SCALE })
    }

    /// Blue with zero alpha.
    pub fn blue() -> (c: Color)
        ensures
            c == (Color(Fx { raw: 0 }, Fx { raw: 0 }, Fx { raw: FX_SCALE }, Fx { raw: 0 })),
    {
        Color(Fx { raw: 0 }, Fx { raw: 0 }, Fx { raw: FX_SCALE }, Fx { raw: 0 })
    }

    /// Opaque white.
    pub fn white() -> (c: Color)
        ensures
            c == (Color(
                Fx { raw: FX_SCALE },
                Fx { raw: FX_SCALE },
                Fx { raw: FX_SCALE },
                Fx { raw: FX_SCALE },
            )),
    {
        Color(Fx { raw: FX_SCALE }, Fx { raw: FX_SCALE }, Fx { raw: FX_SCALE }, Fx {
            raw: FX_SCALE,
        })
    }

    /// Opaque black.
    pub fn black() -> (c: Color)
        ensures
            c == (Color(Fx { raw: 0 }, Fx { raw: 0 }, Fx { raw: 0 }, Fx { raw: FX_SCALE })),
    {
        Color(Fx { raw: 0 }, Fx { raw: 0 }, Fx { raw: 0 }, Fx { raw: FX_SCALE })
    }

    /// The red component.
    pub fn r(&self) -> (v: Fx)
        ensures
            v == self.0,
    {
        self.0
    }

    /// The green component.
    pub fn g(&self) -> (v: Fx)
        ensures
            v == self.1,
    {
        self.1
    }

    /// The blue component.
    pub fn b(&self) -> (v: Fx)
        ensures
            v == self.2,
    {
        self.2
    }

    /// The alpha component.
    pub fn a(&self) -> (v: Fx)
        ensures
            v == self.3,
    {
        self.3
    }

    /// The opaque gray with all color components equal to `v`.
    pub fn from_gray(v: Fx) -> (c: Color)
        ensures
            c == (Color(v, v, v, Fx { raw: FX_SCALE })),
    {
        Color(v, v, v, Fx { raw: FX_SCALE })
    }

    /// The opaque color with the given components.
    pub fn from_rgb(r: Fx, g: Fx, b: Fx) -> (c: Color)
        ensures
            c == (Color(r, g, b, Fx { raw: FX_SCALE })),
    {
        Color(r, g, b, Fx { raw: FX_SCALE })
    }

    /// The color with the given components.
    pub fn from_rgba(r: Fx, g: Fx, b: Fx, a: Fx) -> (c: Color)
        ensures
            c == (Color(r, g, b, a)),
    {
        Color(r, g, b, a)
    }

    /// The opaque color read from a 3-element array.
    pub fn from_array3(rgb: [Fx; 3]) -> (c: Color)
        ensures
            c == (Color(rgb@[0], rgb@[1], rgb@[2], Fx { raw: FX_SCALE })),
    {
        Color(rgb[0], rgb[1], rgb[2], Fx { raw: FX_SCALE })
    }

    /// The color read from a 4-element array.
    pub fn from_array4(rgba: [Fx; 4]) -> (c: Color)
        ensures
            c == (Color(rgba@[0], rgba@[1], rgba@[2], rgba@[3])),
    {
        Color(rgba[0], rgba[1], rgba[2], rgba[3])
    }

    /// The color components as a 3-tuple.
    pub fn to_tuple3(&self) -> (t: (Fx, Fx, Fx))
        ensures
            t == (self.0, self.1, self.2),
    {
        (self.0, self.1, self.2)
    }

    /// The color components as a 4-tuple.
    pub fn to_tuple4(&self) -> (t: (Fx, Fx, Fx, Fx))
        ensures
            t == (self.0, self.1, self.2, self.3),
    {
        (self.0, self.1, self.2, self.3)
    }

    /// The color components as a 3-element array.
    pub fn to_array3(&self) -> (rgb: [Fx; 3])
        ensures
            rgb@ == seq![self.0, self.1, self.2],
    {
        let rgb = [self.0, self.1, self.2];
        proof {
            assert(rgb@ =~= seq![self.0, self.1, self.2]);
        }
        rgb
    }

    /// The color components as a 4-element array.
    pub fn to_array4(&self) -> (rgba: [Fx; 4])
        ensures
            rgba@ == seq![self.0, self.1, self.2, self.3],
    {
        let rgba = [self.0, self.1, self.2, self.3];
        proof {
            assert(rgba@ =~= seq![self.0, self.1, self.2, self.3]);
        }
        rgba
    }
}

impl Default for Color {
    /// The default color is opaque white.
    fn default() -> (c: Color)
        ensures
            c == (Color(
                Fx { raw: FX_SCALE },
                Fx { raw: FX_SCALE },
                Fx { raw: FX_SCALE },
                Fx { raw: FX_SCALE },
            )),
    {
        Color::white()
    }
}

/// A color built from a 4-element array and read back into one returns
/// the original components unchanged.
pub proof fn lemma_color_array_round_trip(rgba: [Fx; 4], c: Color, back: [Fx; 4])
    requires
        c == (Color(rgba@[0], rgba@[1], rgba@[2], rgba@[3])),
        back@ == seq![c.0, c.1, c.2, c.3],
    ensures
        back@ == rgba@,
{
    assert(back@ =~= rgba@);
}

} // verus!
