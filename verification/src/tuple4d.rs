//! Points and vectors in homogeneous coordinates.

use vstd::prelude::*;
use crate::scalar::Scalar;

verus! {

/// Four coordinates; `w` is one for a point and zero for a vector.
#[derive(Clone, Copy, Debug, PartialEq, Eq, Structural)]
pub struct Tuple4D {
    pub x: Scalar,
    pub y: Scalar,
    pub z: Scalar,
    pub w: Scalar,
}

impl Tuple4D {
    pub open spec fn spec_new(x: Scalar, y: Scalar, z: Scalar, w: Scalar) -> Tuple4D {
        Tuple4D { x, y, z, w }
    }

    pub open spec fn spec_new_point(x: Scalar, y: Scalar, z: Scalar) -> Tuple4D {
        Tuple4D { x, y, z, w: Scalar::spec_one() }
    }

    pub open spec fn spec_new_vector(x: Scalar, y: Scalar, z: Scalar) -> Tuple4D {
        Tuple4D { x, y, z, w: Scalar::spec_zero() }
    }

    pub open spec fn spec_add(self, o: Tuple4D) -> Tuple4D {
        Tuple4D {
            x: self.x.spec_add(o.x),
            y: self.y.spec_add(o.y),
            z: self.z.spec_add(o.z),
            w: self.w.spec_add(o.w),
        }
    }

    pub open spec fn spec_sub(self, o: Tuple4D) -> Tuple4D {
        Tuple4D {
            x: self.x.spec_sub(o.x),
            y: self.y.spec_sub(o.y),
            z: self.z.spec_sub(o.z),
            w: self.w.spec_sub(o.w),
        }
    }

    pub open spec fn spec_neg(self) -> Tuple4D {
        Tuple4D { x: self.x.spec_neg(), y: self.y.spec_neg(), z: self.z.spec_neg(), w: self.w.spec_neg() }
    }

    pub open spec fn spec_scale(self, f: Scalar) -> Tuple4D {
        Tuple4D {
            x: self.x.spec_mul(f),
            y: self.y.spec_mul(f),
            z: self.z.spec_mul(f),
            w: self.w.spec_mul(f),
        }
    }

    pub open spec fn spec_shrink(self, f: Scalar) -> Tuple4D {
        Tuple4D {
            x: self.x.spec_div(f),
            y: self.y.spec_div(f),
            z: self.z.spec_div(f),
            w: self.w.spec_div(f),
        }
    }

    /// Sum of the four products of matching coordinates.
    pub open spec fn spec_dot(self, o: Tuple4D) -> Scalar {
        self.x.spec_mul(o.x).spec_add(self.y.spec_mul(o.y)).spec_add(self.z.spec_mul(o.z)).spec_add(
            self.w.spec_mul(o.w),
        )
    }

    /// The vector product of the first three coordinates; `w` is zero.
    pub open spec fn spec_cross(self, o: Tuple4D) -> Tuple4D {
        Tuple4D {
            x: self.y.spec_mul(o.z).spec_sub(self.z.spec_mul(o.y)),
            y: self.z.spec_mul(o.x).spec_sub(self.x.spec_mul(o.z)),
            z: self.x.spec_mul(o.y).spec_sub(self.y.spec_mul(o.x)),
            w: Scalar::spec_zero(),
        }
    }

    pub open spec fn spec_magnitude(self) -> Scalar {
        self.spec_dot(self).spec_sqrt()
    }

    /// The tuple divided by its length. The zero tuple stays zero.
    pub open spec fn spec_normalize(self) -> Tuple4D {
        self.spec_shrink(self.spec_magnitude())
    }

    /// The mirror image of `self` at the plane with normal `n`.
    pub open spec fn spec_reflect(self, n: Tuple4D) -> Tuple4D {
        self.spec_sub(n.spec_scale(Scalar::spec_from_int(2).spec_mul(self.spec_dot(n))))
    }

    pub fn new(x: Scalar, y: Scalar, z: Scalar, w: Scalar) -> (r: Tuple4D)
        ensures
            r == Tuple4D::spec_new(x, y, z, w),
    {
        Tuple4D { x, y, z, w }
    }

    pub fn new_point(x: Scalar, y: Scalar, z: Scalar) -> (r: Tuple4D)
        ensures
            r == Tuple4D::spec_new_point(x, y, z),
    {
        Tuple4D { x, y, z, w: Scalar::one() }
    }

    pub fn new_vector(x: Scalar, y: Scalar, z: Scalar) -> (r: Tuple4D)
        ensures
            r == Tuple4D::spec_new_vector(x, y, z),
    {
        Tuple4D { x, y, z, w: Scalar::zero() }
    }

    pub fn get_x(&self) -> (r: Scalar)
        ensures
            r == self.x,
    {
        self.x
    }

    pub fn get_y(&self) -> (r: Scalar)
        ensures
            r == self.y,
    {
        self.y
    }

    pub fn get_z(&self) -> (r: Scalar)
        ensures
            r == self.z,
    {
        self.z
    }

    pub fn get_w(&self) -> (r: Scalar)
        ensures
            r == self.w,
    {
        self.w
    }

    pub fn add(self, o: Tuple4D) -> (r: Tuple4D)
        ensures
            r == self.spec_add(o),
    {
        Tuple4D { x: self.x.add(o.x), y: self.y.add(o.y), z: self.z.add(o.z), w: self.w.add(o.w) }
    }

    pub fn sub(self, o: Tuple4D) -> (r: Tuple4D)
        ensures
            r == self.spec_sub(o),
    {
        Tuple4D { x: self.x.sub(o.x), y: self.y.sub(o.y), z: self.z.sub(o.z), w: self.w.sub(o.w) }
    }

    pub fn neg(self) -> (r: Tuple4D)
        ensures
            r == self.spec_neg(),
    {
        Tuple4D { x: self.x.neg(), y: self.y.neg(), z: self.z.neg(), w: self.w.neg() }
    }

    pub fn scale(self, f: Scalar) -> (r: Tuple4D)
        ensures
            r == self.spec_scale(f),
    {
        Tuple4D { x: self.x.mul(f), y: self.y.mul(f), z: self.z.mul(f), w: self.w.mul(f) }
    }

    pub fn shrink(self, f: Scalar) -> (r: Tuple4D)
        ensures
            r == self.spec_shrink(f),
    {
        Tuple4D { x: self.x.div(f), y: self.y.div(f), z: self.z.div(f), w: self.w.div(f) }
    }

    pub fn dot(self, o: Tuple4D) -> (r: Scalar)
        ensures
            r == self.spec_dot(o),
    {
        self.x.mul(o.x).add(self.y.mul(o.y)).add(self.z.mul(o.z)).add(self.w.mul(o.w))
    }

    pub fn cross(self, o: Tuple4D) -> (r: Tuple4D)
        ensures
            r == self.spec_cross(o),
    {
        Tuple4D {
            x: self.y.mul(o.z).sub(self.z.mul(o.y)),
            y: self.z.mul(o.x).sub(self.x.mul(o.z)),
            z: self.x.mul(o.y).sub(self.y.mul(o.x)),
            w: Scalar::zero(),
        }
    }

    pub fn magnitude(self) -> (r: Scalar)
        ensures
            r == self.spec_magnitude(),
    {
        self.dot(self).sqrt()
    }

    pub fn normalize(self) -> (r: Tuple4D)
        ensures
            r == self.spec_normalize(),
    {
        self.shrink(self.magnitude())
    }

    pub fn reflect(self, n: Tuple4D) -> (r: Tuple4D)
        ensures
            r == self.spec_reflect(n),
    {
        self.sub(n.scale(Scalar::from_int(2).mul(self.dot(n))))
    }
}

} // verus!
