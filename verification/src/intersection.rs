//! A single meeting of a ray with a shape.

use vstd::prelude::*;
use crate::scalar::Scalar;

verus! {

/// The distance `t` along a ray at which it meets a shape, and the place of
/// that shape in the scene's list of shapes.
#[derive(Clone, Copy, Debug, PartialEq, Eq, Structural)]
pub struct Intersection {
    pub t: Scalar,
    pub shape: usize,
}

impl Intersection {
    pub fn new(t: Scalar, shape: usize) -> (i: Intersection)
        ensures
            i == (Intersection { t, shape }),
    {
        Intersection { t, shape }
    }

    pub fn get_t(&self) -> (t: Scalar)
        ensures
            t == self.t,
    {
        self.t
    }

    pub fn get_shape(&self) -> (s: usize)
        ensures
            s == self.shape,
    {
        self.shape
    }
}

} // verus!
