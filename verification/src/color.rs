//! Colours as three unclamped intensities.

use vstd::prelude::*;
use crate::scalar::Scalar;

verus! {

/// Red, green and blue intensity. Values above one are kept: clamping to the
/// displayable range is left to whoever encodes the image.
#[derive(Clone, Copy, Debug, PartialEq, Eq, Structural)]
pub struct Color {
    pub r: Scalar,
    pub g: Scalar,
    pub b: Scalar,
}

impl Color {
    pub open spec fn spec_new(r: Scalar, g: Scalar, b: Scalar) -> Color {
        Color { r, g, b }
    }

    pub open spec fn spec_black() -> Color {
        Color { r: Scalar::spec_zero(), g: Scalar::spec_zero(), b: Scalar::spec_zero() }
    }

    pub open spec fn spec_add(self, o: Color) -> Color {
        Color { r: self.r.spec_add(o.r), g: self.g.spec_add(o.g), b: self.b.spec_add(o.b) }
    }

    pub open spec fn spec_scale(self, f: Scalar) -> Color {
        Color { r: self.r.spec_mul(f), g: self.g.spec_mul(f), b: self.b.spec_mul(f) }
    }

    pub open spec fn spec_shrink(self, f: Scalar) -> Color {
        Color { r: self.r.spec_div(f), g: self.g.spec_div(f), b: self.b.spec_div(f) }
    }

    /// The product channel by channel.
    pub open spec fn spec_blend(self, o: Color) -> Color {
        Color { r: self.r.spec_mul(o.r), g: self.g.spec_mul(o.g), b: self.b.spec_mul(o.b) }
    }

    pub fn new(r: Scalar, g: Scalar, b: Scalar) -> (c: Color)
        ensures
            c == Color::spec_new(r, g, b),
    {
        Color { r, g, b }
    }

    pub fn black() -> (c: Color)
        ensures
            c == Color::spec_black(),
    {
        Color { r: Scalar::zero(), g: Scalar::zero(), b: Scalar::zero() }
    }

    pub fn add(self, o: Color) -> (c: Color)
        ensures
            c == self.spec_add(o),
    {
        Color { r: self.r.add(o.r), g: self.g.add(o.g), b: self.b.add(o.b) }
    }

    pub fn scale(self, f: Scalar) -> (c: Color)
        ensures
            c == self.spec_scale(f),
    {
        Color { r: self.r.mul(f), g: self.g.mul(f), b: self.b.mul(f) }
    }

    pub fn shrink(self, f: Scalar) -> (c: Color)
        ensures
            c == self.spec_shrink(f),
    {
        Color { r: self.r.div(f), g: self.g.div(f), b: self.b.div(f) }
    }

    pub fn blend(self, o: Color) -> (c: Color)
        ensures
            c == self.spec_blend(o),
    {
        Color { r: self.r.mul(o.r), g: self.g.mul(o.g), b: self.b.mul(o.b) }
    }
}

} // verus!
