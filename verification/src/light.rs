//! Light sources.

use vstd::prelude::*;
use crate::color::Color;
use crate::tuple4d::Tuple4D;

verus! {

/// A light without size that shines equally in every direction.
#[derive(Clone, Copy, Debug, PartialEq, Eq, Structural)]
pub struct PointLight {
    pub position: Tuple4D,
    pub intensity: Color,
}

/// The kinds of light a scene can hold.
#[derive(Clone, Copy, Debug, PartialEq, Eq, Structural)]
pub enum Light {
    PointLight(PointLight),
}

impl PointLight {
    pub fn new(position: Tuple4D, intensity: Color) -> (l: PointLight)
        ensures
            l == (PointLight { position, intensity }),
    {
        PointLight { position, intensity }
    }
}

impl Light {
    pub open spec fn spec_position(self) -> Tuple4D {
        match self {
            Light::PointLight(p) => p.position,
        }
    }

    pub open spec fn spec_intensity(self) -> Color {
        match self {
            Light::PointLight(p) => p.intensity,
        }
    }

    pub fn get_position(&self) -> (p: Tuple4D)
        ensures
            p == self.spec_position(),
    {
        match self {
            Light::PointLight(p) => p.position,
        }
    }

    pub fn get_intensity(&self) -> (c: Color)
        ensures
            c == self.spec_intensity(),
    {
        match self {
            Light::PointLight(p) => p.intensity,
        }
    }
}

} // verus!
