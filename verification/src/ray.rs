//! Rays: a point of origin and a direction.

use vstd::prelude::*;
use crate::matrix::Matrix;
use crate::scalar::Scalar;
use crate::tuple4d::Tuple4D;

verus! {

/// The half line `origin + t * direction`.
#[derive(Clone, Copy, Debug, PartialEq, Eq, Structural)]
pub struct Ray {
    pub origin: Tuple4D,
    pub direction: Tuple4D,
}

impl Ray {
    pub open spec fn spec_new(origin: Tuple4D, direction: Tuple4D) -> Ray {
        Ray { origin, direction }
    }

    /// The point at distance `t` along the ray.
    pub open spec fn spec_position(self, t: Scalar) -> Tuple4D {
        self.origin.spec_add(self.direction.spec_scale(t))
    }

    /// The ray seen through the transformation `m`.
    pub open spec fn spec_transform(self, m: Matrix) -> Ray {
        Ray { origin: m.spec_apply(self.origin), direction: m.spec_apply(self.direction) }
    }

    pub fn new(origin: Tuple4D, direction: Tuple4D) -> (r: Ray)
        ensures
            r == Ray::spec_new(origin, direction),
    {
        Ray { origin, direction }
    }

    pub fn get_origin(&self) -> (p: &Tuple4D)
        ensures
            *p == self.origin,
    {
        &self.origin
    }

    pub fn get_direction(&self) -> (d: &Tuple4D)
        ensures
            *d == self.direction,
    {
        &self.direction
    }

    pub fn position(&self, t: Scalar) -> (p: Tuple4D)
        ensures
            p == self.spec_position(t),
    {
        self.origin.add(self.direction.scale(t))
    }

    pub fn transform(&self, m: &Matrix) -> (r: Ray)
        ensures
            r == self.spec_transform(*m),
    {
        Ray { origin: m.apply(self.origin), direction: m.apply(self.direction) }
    }
}

} // verus!
