//! Quaternions as rotations.

use vstd::prelude::*;
use crate::matrix::Matrix;
use crate::scalar::Scalar;
use crate::tuple4d::Tuple4D;

verus! {

/// A quaternion `w + x i + y j + z k`.
#[derive(Clone, Copy, Debug, PartialEq, Eq, Structural)]
pub struct Quaternion {
    pub x: Scalar,
    pub y: Scalar,
    pub z: Scalar,
    pub w: Scalar,
}

/// `2 * (a * b + c * d)`.
pub open spec fn spec_twice_sum(a: Scalar, b: Scalar, c: Scalar, d: Scalar) -> Scalar {
    Scalar::spec_from_int(2).spec_mul(a.spec_mul(b).spec_add(c.spec_mul(d)))
}

/// `2 * (a * b - c * d)`.
pub open spec fn spec_twice_difference(a: Scalar, b: Scalar, c: Scalar, d: Scalar) -> Scalar {
    Scalar::spec_from_int(2).spec_mul(a.spec_mul(b).spec_sub(c.spec_mul(d)))
}

/// `1 - 2 * (a * a + b * b)`.
pub open spec fn spec_one_less_twice_squares(a: Scalar, b: Scalar) -> Scalar {
    Scalar::spec_one().spec_sub(spec_twice_sum(a, a, b, b))
}

fn twice_sum(a: Scalar, b: Scalar, c: Scalar, d: Scalar) -> (r: Scalar)
    ensures
        r == spec_twice_sum(a, b, c, d),
{
    Scalar::from_int(2).mul(a.mul(b).add(c.mul(d)))
}

fn twice_difference(a: Scalar, b: Scalar, c: Scalar, d: Scalar) -> (r: Scalar)
    ensures
        r == spec_twice_difference(a, b, c, d),
{
    Scalar::from_int(2).mul(a.mul(b).sub(c.mul(d)))
}

fn one_less_twice_squares(a: Scalar, b: Scalar) -> (r: Scalar)
    ensures
        r == spec_one_less_twice_squares(a, b),
{
    Scalar::one().sub(twice_sum(a, a, b, b))
}

impl Quaternion {
    pub open spec fn spec_new(x: Scalar, y: Scalar, z: Scalar, w: Scalar) -> Quaternion {
        Quaternion { x, y, z, w }
    }

    /// The rotation that turns nothing.
    pub open spec fn spec_identity() -> Quaternion {
        Quaternion { x: Scalar::spec_zero(), y: Scalar::spec_zero(), z: Scalar::spec_zero(), w: Scalar::spec_one() }
    }

    pub open spec fn spec_as_tuple(self) -> Tuple4D {
        Tuple4D { x: self.x, y: self.y, z: self.z, w: self.w }
    }

    /// The Hamilton product `self * r`.
    pub open spec fn spec_mul(self, r: Quaternion) -> Quaternion {
        Quaternion {
            x: self.x.spec_mul(r.w).spec_add(self.w.spec_mul(r.x)).spec_add(self.y.spec_mul(r.z)).spec_sub(
                self.z.spec_mul(r.y),
            ),
            y: self.y.spec_mul(r.w).spec_add(self.w.spec_mul(r.y)).spec_add(self.z.spec_mul(r.x)).spec_sub(
                self.x.spec_mul(r.z),
            ),
            z: self.z.spec_mul(r.w).spec_add(self.w.spec_mul(r.z)).spec_add(self.x.spec_mul(r.y)).spec_sub(
                self.y.spec_mul(r.x),
            ),
            w: self.w.spec_mul(r.w).spec_sub(self.x.spec_mul(r.x)).spec_sub(self.y.spec_mul(r.y)).spec_sub(
                self.z.spec_mul(r.z),
            ),
        }
    }

    pub open spec fn spec_length(self) -> Scalar {
        self.spec_as_tuple().spec_magnitude()
    }

    /// The quaternion divided by its length.
    pub open spec fn spec_normalized(self) -> Quaternion {
        let t = self.spec_as_tuple().spec_normalize();
        Quaternion { x: t.x, y: t.y, z: t.z, w: t.w }
    }

    /// The rotation matrix of a unit quaternion.
    pub open spec fn spec_to_rotation_matrix(self) -> Matrix {
        let n = Scalar::spec_zero();
        Matrix {
            r0: Tuple4D {
                x: spec_one_less_twice_squares(self.y, self.z),
                y: spec_twice_difference(self.x, self.y, self.w, self.z),
                z: spec_twice_sum(self.x, self.z, self.w, self.y),
                w: n,
            },
            r1: Tuple4D {
                x: spec_twice_sum(self.x, self.y, self.w, self.z),
                y: spec_one_less_twice_squares(self.x, self.z),
                z: spec_twice_difference(self.y, self.z, self.w, self.x),
                w: n,
            },
            r2: Tuple4D {
                x: spec_twice_difference(self.x, self.z, self.w, self.y),
                y: spec_twice_sum(self.y, self.z, self.w, self.x),
                z: spec_one_less_twice_squares(self.x, self.y),
                w: n,
            },
            r3: Tuple4D { x: n, y: n, z: n, w: Scalar::spec_one() },
        }
    }

    /// `2 * sqrt(1 + a - b - c)`, the divisor of the three branches that
    /// start from the largest diagonal entry.
    pub open spec fn spec_diagonal_divisor(a: Scalar, b: Scalar, c: Scalar) -> Scalar {
        Scalar::spec_from_int(2).spec_mul(Scalar::spec_one().spec_add(a).spec_sub(b).spec_sub(c).spec_sqrt())
    }

    /// The unit quaternion of a rotation matrix, computed from the trace
    /// where it is positive and from the largest diagonal entry otherwise.
    pub open spec fn spec_from_rot_matrix(m: Matrix) -> Quaternion {
        let trace = m.r0.x.spec_add(m.r1.y).spec_add(m.r2.z);
        let quarter = Scalar::spec_ratio(1, 4);
        let raw = if trace.raw > 0 {
            let s = Scalar::spec_ratio(1, 2).spec_div(trace.spec_add(Scalar::spec_one()).spec_sqrt());
            Quaternion {
                x: m.r2.y.spec_sub(m.r1.z).spec_mul(s),
                y: m.r0.z.spec_sub(m.r2.x).spec_mul(s),
                z: m.r1.x.spec_sub(m.r0.y).spec_mul(s),
                w: quarter.spec_div(s),
            }
        } else if m.r0.x.raw > m.r1.y.raw && m.r0.x.raw > m.r2.z.raw {
            let s = Quaternion::spec_diagonal_divisor(m.r0.x, m.r1.y, m.r2.z);
            Quaternion {
                x: quarter.spec_mul(s),
                y: m.r1.x.spec_add(m.r0.y).spec_div(s),
                z: m.r2.x.spec_add(m.r0.z).spec_div(s),
                w: m.r2.y.spec_sub(m.r1.z).spec_div(s),
            }
        } else if m.r1.y.raw > m.r2.z.raw {
            let s = Quaternion::spec_diagonal_divisor(m.r1.y, m.r0.x, m.r2.z);
            Quaternion {
                x: m.r1.x.spec_add(m.r0.y).spec_div(s),
                y: quarter.spec_mul(s),
                z: m.r2.y.spec_add(m.r1.z).spec_div(s),
                w: m.r0.z.spec_sub(m.r2.x).spec_div(s),
            }
        } else {
            let s = Quaternion::spec_diagonal_divisor(m.r2.z, m.r0.x, m.r1.y);
            Quaternion {
                x: m.r2.x.spec_add(m.r0.z).spec_div(s),
                y: m.r1.z.spec_add(m.r2.y).spec_div(s),
                z: quarter.spec_mul(s),
                w: m.r1.x.spec_sub(m.r0.y).spec_div(s),
            }
        };
        raw.spec_normalized()
    }

    pub fn new(x: Scalar, y: Scalar, z: Scalar, w: Scalar) -> (q: Quaternion)
        ensures
            q == Quaternion::spec_new(x, y, z, w),
    {
        Quaternion { x, y, z, w }
    }

    pub fn identity() -> (q: Quaternion)
        ensures
            q == Quaternion::spec_identity(),
    {
        Quaternion { x: Scalar::zero(), y: Scalar::zero(), z: Scalar::zero(), w: Scalar::one() }
    }

    pub fn mul(self, r: Quaternion) -> (q: Quaternion)
        ensures
            q == self.spec_mul(r),
    {
        Quaternion {
            x: self.x.mul(r.w).add(self.w.mul(r.x)).add(self.y.mul(r.z)).sub(self.z.mul(r.y)),
            y: self.y.mul(r.w).add(self.w.mul(r.y)).add(self.z.mul(r.x)).sub(self.x.mul(r.z)),
            z: self.z.mul(r.w).add(self.w.mul(r.z)).add(self.x.mul(r.y)).sub(self.y.mul(r.x)),
            w: self.w.mul(r.w).sub(self.x.mul(r.x)).sub(self.y.mul(r.y)).sub(self.z.mul(r.z)),
        }
    }

    pub fn length(self) -> (l: Scalar)
        ensures
            l == self.spec_length(),
    {
        Tuple4D { x: self.x, y: self.y, z: self.z, w: self.w }.magnitude()
    }

    pub fn normalized(self) -> (q: Quaternion)
        ensures
            q == self.spec_normalized(),
    {
        let t = Tuple4D { x: self.x, y: self.y, z: self.z, w: self.w }.normalize();
        Quaternion { x: t.x, y: t.y, z: t.z, w: t.w }
    }

    pub fn to_rotation_matrix(&self) -> (m: Matrix)
        ensures
            m == self.spec_to_rotation_matrix(),
    {
        let n = Scalar::zero();
        Matrix {
            r0: Tuple4D {
                x: one_less_twice_squares(self.y, self.z),
                y: twice_difference(self.x, self.y, self.w, self.z),
                z: twice_sum(self.x, self.z, self.w, self.y),
                w: n,
            },
            r1: Tuple4D {
                x: twice_sum(self.x, self.y, self.w, self.z),
                y: one_less_twice_squares(self.x, self.z),
                z: twice_difference(self.y, self.z, self.w, self.x),
                w: n,
            },
            r2: Tuple4D {
                x: twice_difference(self.x, self.z, self.w, self.y),
                y: twice_sum(self.y, self.z, self.w, self.x),
                z: one_less_twice_squares(self.x, self.y),
                w: n,
            },
            r3: Tuple4D { x: n, y: n, z: n, w: Scalar::one() },
        }
    }

    fn diagonal_divisor(a: Scalar, b: Scalar, c: Scalar) -> (s: Scalar)
        ensures
            s == Quaternion::spec_diagonal_divisor(a, b, c),
    {
        Scalar::from_int(2).mul(Scalar::one().add(a).sub(b).sub(c).sqrt())
    }

    pub fn new_from_rot_matrix(m: Matrix) -> (q: Quaternion)
        ensures
            q == Quaternion::spec_from_rot_matrix(m),
    {
        let trace = m.r0.x.add(m.r1.y).add(m.r2.z);
        let quarter = Scalar::ratio(1, 4);
        let raw = if trace.raw > 0 {
            let s = Scalar::ratio(1, 2).div(trace.add(Scalar::one()).sqrt());
            Quaternion {
                x: m.r2.y.sub(m.r1.z).mul(s),
                y: m.r0.z.sub(m.r2.x).mul(s),
                z: m.r1.x.sub(m.r0.y).mul(s),
                w: quarter.div(s),
            }
        } else if m.r0.x.raw > m.r1.y.raw && m.r0.x.raw > m.r2.z.raw {
            let s = Quaternion::diagonal_divisor(m.r0.x, m.r1.y, m.r2.z);
            Quaternion {
                x: quarter.mul(s),
                y: m.r1.x.add(m.r0.y).div(s),
                z: m.r2.x.add(m.r0.z).div(s),
                w: m.r2.y.sub(m.r1.z).div(s),
            }
        } else if m.r1.y.raw > m.r2.z.raw {
            let s = Quaternion::diagonal_divisor(m.r1.y, m.r0.x, m.r2.z);
            Quaternion {
                x: m.r1.x.add(m.r0.y).div(s),
                y: quarter.mul(s),
                z: m.r2.y.add(m.r1.z).div(s),
                w: m.r0.z.sub(m.r2.x).div(s),
            }
        } else {
            let s = Quaternion::diagonal_divisor(m.r2.z, m.r0.x, m.r1.y);
            Quaternion {
                x: m.r2.x.add(m.r0.z).div(s),
                y: m.r1.z.add(m.r2.y).div(s),
                z: quarter.mul(s),
                w: m.r1.x.sub(m.r0.y).div(s),
            }
        };
        raw.normalized()
    }
}

} // verus!
