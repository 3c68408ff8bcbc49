//! Four-by-four matrices for affine transformations.

use vstd::prelude::*;
use crate::scalar::Scalar;
use crate::tuple4d::Tuple4D;

verus! {

/// A matrix held as its four rows.
#[derive(Clone, Copy, Debug, PartialEq, Eq, Structural)]
pub struct Matrix {
    pub r0: Tuple4D,
    pub r1: Tuple4D,
    pub r2: Tuple4D,
    pub r3: Tuple4D,
}

/// The three coordinates of `t` that remain when coordinate `j` is struck out.
pub open spec fn spec_strike(t: Tuple4D, j: int) -> (Scalar, Scalar, Scalar) {
    if j == 0 {
        (t.y, t.z, t.w)
    } else if j == 1 {
        (t.x, t.z, t.w)
    } else if j == 2 {
        (t.x, t.y, t.w)
    } else {
        (t.x, t.y, t.z)
    }
}

/// Determinant of the three-by-three matrix with rows `a`, `b`, `c`.
pub open spec fn spec_det3(a: (Scalar, Scalar, Scalar), b: (Scalar, Scalar, Scalar), c: (Scalar, Scalar, Scalar)) -> Scalar {
    a.0.spec_mul(b.1.spec_mul(c.2).spec_sub(b.2.spec_mul(c.1))).spec_sub(
        a.1.spec_mul(b.0.spec_mul(c.2).spec_sub(b.2.spec_mul(c.0))),
    ).spec_add(a.2.spec_mul(b.0.spec_mul(c.1).spec_sub(b.1.spec_mul(c.0))))
}

/// Determinant of rows `a`, `b`, `c` with column `j` struck out.
pub open spec fn spec_minor(a: Tuple4D, b: Tuple4D, c: Tuple4D, j: int) -> Scalar {
    spec_det3(spec_strike(a, j), spec_strike(b, j), spec_strike(c, j))
}

/// The four cofactors that belong to one row, given the three other rows
/// from top to bottom. `odd` tells whether the row's index is odd.
pub open spec fn spec_cofactors(a: Tuple4D, b: Tuple4D, c: Tuple4D, odd: bool) -> Tuple4D {
    let plain = Tuple4D {
        x: spec_minor(a, b, c, 0),
        y: spec_minor(a, b, c, 1).spec_neg(),
        z: spec_minor(a, b, c, 2),
        w: spec_minor(a, b, c, 3).spec_neg(),
    };
    if odd {
        plain.spec_neg()
    } else {
        plain
    }
}

fn strike(t: Tuple4D, j: usize) -> (r: (Scalar, Scalar, Scalar))
    ensures
        r == spec_strike(t, j as int),
{
    if j == 0 {
        (t.y, t.z, t.w)
    } else if j == 1 {
        (t.x, t.z, t.w)
    } else if j == 2 {
        (t.x, t.y, t.w)
    } else {
        (t.x, t.y, t.z)
    }
}

fn det3(a: (Scalar, Scalar, Scalar), b: (Scalar, Scalar, Scalar), c: (Scalar, Scalar, Scalar)) -> (r: Scalar)
    ensures
        r == spec_det3(a, b, c),
{
    a.0.mul(b.1.mul(c.2).sub(b.2.mul(c.1))).sub(a.1.mul(b.0.mul(c.2).sub(b.2.mul(c.0)))).add(
        a.2.mul(b.0.mul(c.1).sub(b.1.mul(c.0))),
    )
}

fn minor(a: Tuple4D, b: Tuple4D, c: Tuple4D, j: usize) -> (r: Scalar)
    ensures
        r == spec_minor(a, b, c, j as int),
{
    det3(strike(a, j), strike(b, j), strike(c, j))
}

fn cofactors(a: Tuple4D, b: Tuple4D, c: Tuple4D, odd: bool) -> (r: Tuple4D)
    ensures
        r == spec_cofactors(a, b, c, odd),
{
    let plain = Tuple4D {
        x: minor(a, b, c, 0),
        y: minor(a, b, c, 1).neg(),
        z: minor(a, b, c, 2),
        w: minor(a, b, c, 3).neg(),
    };
    if odd {
        plain.neg()
    } else {
        plain
    }
}

impl Matrix {
    pub open spec fn spec_identity() -> Matrix {
        let o = Scalar::spec_one();
        let z = Scalar::spec_zero();
        Matrix {
            r0: Tuple4D { x: o, y: z, z: z, w: z },
            r1: Tuple4D { x: z, y: o, z: z, w: z },
            r2: Tuple4D { x: z, y: z, z: o, w: z },
            r3: Tuple4D { x: z, y: z, z: z, w: o },
        }
    }

    pub open spec fn spec_translation(x: Scalar, y: Scalar, z: Scalar) -> Matrix {
        let o = Scalar::spec_one();
        let n = Scalar::spec_zero();
        Matrix {
            r0: Tuple4D { x: o, y: n, z: n, w: x },
            r1: Tuple4D { x: n, y: o, z: n, w: y },
            r2: Tuple4D { x: n, y: n, z: o, w: z },
            r3: Tuple4D { x: n, y: n, z: n, w: o },
        }
    }

    pub open spec fn spec_scale(x: Scalar, y: Scalar, z: Scalar) -> Matrix {
        let o = Scalar::spec_one();
        let n = Scalar::spec_zero();
        Matrix {
            r0: Tuple4D { x: x, y: n, z: n, w: n },
            r1: Tuple4D { x: n, y: y, z: n, w: n },
            r2: Tuple4D { x: n, y: n, z: z, w: n },
            r3: Tuple4D { x: n, y: n, z: n, w: o },
        }
    }

    /// Rotation about the x axis by `angle` radians.
    pub open spec fn spec_rotate_x(angle: Scalar) -> Matrix {
        let o = Scalar::spec_one();
        let n = Scalar::spec_zero();
        let s = angle.spec_sin();
        let c = angle.spec_cos();
        Matrix {
            r0: Tuple4D { x: o, y: n, z: n, w: n },
            r1: Tuple4D { x: n, y: c, z: s.spec_neg(), w: n },
            r2: Tuple4D { x: n, y: s, z: c, w: n },
            r3: Tuple4D { x: n, y: n, z: n, w: o },
        }
    }

    /// Rotation about the y axis by `angle` radians.
    pub open spec fn spec_rotate_y(angle: Scalar) -> Matrix {
        let o = Scalar::spec_one();
        let n = Scalar::spec_zero();
        let s = angle.spec_sin();
        let c = angle.spec_cos();
        Matrix {
            r0: Tuple4D { x: c, y: n, z: s, w: n },
            r1: Tuple4D { x: n, y: o, z: n, w: n },
            r2: Tuple4D { x: s.spec_neg(), y: n, z: c, w: n },
            r3: Tuple4D { x: n, y: n, z: n, w: o },
        }
    }

    /// Rotation about the z axis by `angle` radians.
    pub open spec fn spec_rotate_z(angle: Scalar) -> Matrix {
        let o = Scalar::spec_one();
        let n = Scalar::spec_zero();
        let s = angle.spec_sin();
        let c = angle.spec_cos();
        Matrix {
            r0: Tuple4D { x: c, y: s.spec_neg(), z: n, w: n },
            r1: Tuple4D { x: s, y: c, z: n, w: n },
            r2: Tuple4D { x: n, y: n, z: o, w: n },
            r3: Tuple4D { x: n, y: n, z: n, w: o },
        }
    }

    pub open spec fn spec_transpose(self) -> Matrix {
        Matrix {
            r0: Tuple4D { x: self.r0.x, y: self.r1.x, z: self.r2.x, w: self.r3.x },
            r1: Tuple4D { x: self.r0.y, y: self.r1.y, z: self.r2.y, w: self.r3.y },
            r2: Tuple4D { x: self.r0.z, y: self.r1.z, z: self.r2.z, w: self.r3.z },
            r3: Tuple4D { x: self.r0.w, y: self.r1.w, z: self.r2.w, w: self.r3.w },
        }
    }

    /// The matrix times the column `t`.
    pub open spec fn spec_apply(self, t: Tuple4D) -> Tuple4D {
        Tuple4D {
            x: self.r0.spec_dot(t),
            y: self.r1.spec_dot(t),
            z: self.r2.spec_dot(t),
            w: self.r3.spec_dot(t),
        }
    }

    /// The matrix product `self * o`: entry `(i, j)` is row `i` of `self`
    /// times column `j` of `o`.
    pub open spec fn spec_mul(self, o: Matrix) -> Matrix {
        let t = o.spec_transpose();
        Matrix {
            r0: t.spec_apply(self.r0),
            r1: t.spec_apply(self.r1),
            r2: t.spec_apply(self.r2),
            r3: t.spec_apply(self.r3),
        }
    }

    /// The matrix of cofactors.
    pub open spec fn spec_cofactor_matrix(self) -> Matrix {
        Matrix {
            r0: spec_cofactors(self.r1, self.r2, self.r3, false),
            r1: spec_cofactors(self.r0, self.r2, self.r3, true),
            r2: spec_cofactors(self.r0, self.r1, self.r3, false),
            r3: spec_cofactors(self.r0, self.r1, self.r2, true),
        }
    }

    /// The determinant, expanded along the first row.
    pub open spec fn spec_determinant(self) -> Scalar {
        self.r0.spec_dot(spec_cofactors(self.r1, self.r2, self.r3, false))
    }

    pub open spec fn spec_shrink(self, f: Scalar) -> Matrix {
        Matrix {
            r0: self.r0.spec_shrink(f),
            r1: self.r1.spec_shrink(f),
            r2: self.r2.spec_shrink(f),
            r3: self.r3.spec_shrink(f),
        }
    }

    /// The inverse by cofactors: the transposed cofactor matrix with every
    /// entry divided by the determinant. Where the determinant is zero the
    /// division saturates, as every division by zero does.
    pub open spec fn spec_inverse(self) -> Matrix {
        self.spec_cofactor_matrix().spec_transpose().spec_shrink(self.spec_determinant())
    }

    /// The rotation whose third row looks along `forward` and whose second
    /// row points as near to `up` as a right angle to `forward` allows.
    pub open spec fn spec_rotation_from_forward_up(forward: Tuple4D, up: Tuple4D) -> Matrix {
        let f = forward.spec_normalize();
        let r = up.spec_normalize().spec_cross(f);
        let u = f.spec_cross(r);
        let n = Scalar::spec_zero();
        Matrix {
            r0: Tuple4D { x: r.x, y: r.y, z: r.z, w: n },
            r1: Tuple4D { x: u.x, y: u.y, z: u.z, w: n },
            r2: Tuple4D { x: f.x, y: f.y, z: f.z, w: n },
            r3: Tuple4D { x: n, y: n, z: n, w: Scalar::spec_one() },
        }
    }

    /// The transformation that moves the world so that an eye at `from`
    /// looking at `to` comes to sit at the origin looking down the negative
    /// z axis.
    pub open spec fn spec_view_transform(from: Tuple4D, to: Tuple4D, up: Tuple4D) -> Matrix {
        let forward = to.spec_sub(from).spec_normalize();
        let left = forward.spec_cross(up.spec_normalize());
        let true_up = left.spec_cross(forward);
        let n = Scalar::spec_zero();
        let orientation = Matrix {
            r0: Tuple4D { x: left.x, y: left.y, z: left.z, w: n },
            r1: Tuple4D { x: true_up.x, y: true_up.y, z: true_up.z, w: n },
            r2: Tuple4D { x: forward.x.spec_neg(), y: forward.y.spec_neg(), z: forward.z.spec_neg(), w: n },
            r3: Tuple4D { x: n, y: n, z: n, w: Scalar::spec_one() },
        };
        orientation.spec_mul(Matrix::spec_translation(from.x.spec_neg(), from.y.spec_neg(), from.z.spec_neg()))
    }

    pub fn new_identity_4x4() -> (m: Matrix)
        ensures
            m == Matrix::spec_identity(),
    {
        let o = Scalar::one();
        let z = Scalar::zero();
        Matrix {
            r0: Tuple4D { x: o, y: z, z: z, w: z },
            r1: Tuple4D { x: z, y: o, z: z, w: z },
            r2: Tuple4D { x: z, y: z, z: o, w: z },
            r3: Tuple4D { x: z, y: z, z: z, w: o },
        }
    }

    pub fn translation(x: Scalar, y: Scalar, z: Scalar) -> (m: Matrix)
        ensures
            m == Matrix::spec_translation(x, y, z),
    {
        let o = Scalar::one();
        let n = Scalar::zero();
        Matrix {
            r0: Tuple4D { x: o, y: n, z: n, w: x },
            r1: Tuple4D { x: n, y: o, z: n, w: y },
            r2: Tuple4D { x: n, y: n, z: o, w: z },
            r3: Tuple4D { x: n, y: n, z: n, w: o },
        }
    }

    pub fn scale(x: Scalar, y: Scalar, z: Scalar) -> (m: Matrix)
        ensures
            m == Matrix::spec_scale(x, y, z),
    {
        let o = Scalar::one();
        let n = Scalar::zero();
        Matrix {
            r0: Tuple4D { x: x, y: n, z: n, w: n },
            r1: Tuple4D { x: n, y: y, z: n, w: n },
            r2: Tuple4D { x: n, y: n, z: z, w: n },
            r3: Tuple4D { x: n, y: n, z: n, w: o },
        }
    }

    pub fn rotate_x(angle: Scalar) -> (m: Matrix)
        ensures
            m == Matrix::spec_rotate_x(angle),
    {
        let o = Scalar::one();
        let n = Scalar::zero();
        let s = angle.sin();
        let c = angle.cos();
        Matrix {
            r0: Tuple4D { x: o, y: n, z: n, w: n },
            r1: Tuple4D { x: n, y: c, z: s.neg(), w: n },
            r2: Tuple4D { x: n, y: s, z: c, w: n },
            r3: Tuple4D { x: n, y: n, z: n, w: o },
        }
    }

    pub fn rotate_y(angle: Scalar) -> (m: Matrix)
        ensures
            m == Matrix::spec_rotate_y(angle),
    {
        let o = Scalar::one();
        let n = Scalar::zero();
        let s = angle.sin();
        let c = angle.cos();
        Matrix {
            r0: Tuple4D { x: c, y: n, z: s, w: n },
            r1: Tuple4D { x: n, y: o, z: n, w: n },
            r2: Tuple4D { x: s.neg(), y: n, z: c, w: n },
            r3: Tuple4D { x: n, y: n, z: n, w: o },
        }
    }

    pub fn rotate_z(angle: Scalar) -> (m: Matrix)
        ensures
            m == Matrix::spec_rotate_z(angle),
    {
        let o = Scalar::one();
        let n = Scalar::zero();
        let s = angle.sin();
        let c = angle.cos();
        Matrix {
            r0: Tuple4D { x: c, y: s.neg(), z: n, w: n },
            r1: Tuple4D { x: s, y: c, z: n, w: n },
            r2: Tuple4D { x: n, y: n, z: o, w: n },
            r3: Tuple4D { x: n, y: n, z: n, w: o },
        }
    }

    pub fn transpose(&self) -> (m: Matrix)
        ensures
            m == self.spec_transpose(),
    {
        Matrix {
            r0: Tuple4D { x: self.r0.x, y: self.r1.x, z: self.r2.x, w: self.r3.x },
            r1: Tuple4D { x: self.r0.y, y: self.r1.y, z: self.r2.y, w: self.r3.y },
            r2: Tuple4D { x: self.r0.z, y: self.r1.z, z: self.r2.z, w: self.r3.z },
            r3: Tuple4D { x: self.r0.w, y: self.r1.w, z: self.r2.w, w: self.r3.w },
        }
    }

    pub fn apply(&self, t: Tuple4D) -> (r: Tuple4D)
        ensures
            r == self.spec_apply(t),
    {
        Tuple4D { x: self.r0.dot(t), y: self.r1.dot(t), z: self.r2.dot(t), w: self.r3.dot(t) }
    }

    pub fn mul(&self, o: &Matrix) -> (m: Matrix)
        ensures
            m == self.spec_mul(*o),
    {
        let t = o.transpose();
        Matrix { r0: t.apply(self.r0), r1: t.apply(self.r1), r2: t.apply(self.r2), r3: t.apply(self.r3) }
    }

    pub fn determinant(&self) -> (d: Scalar)
        ensures
            d == self.spec_determinant(),
    {
        self.r0.dot(cofactors(self.r1, self.r2, self.r3, false))
    }

    pub fn inverse(&self) -> (m: Matrix)
        ensures
            m == self.spec_inverse(),
    {
        let c0 = cofactors(self.r1, self.r2, self.r3, false);
        let c = Matrix {
            r0: c0,
            r1: cofactors(self.r0, self.r2, self.r3, true),
            r2: cofactors(self.r0, self.r1, self.r3, false),
            r3: cofactors(self.r0, self.r1, self.r2, true),
        };
        let det = self.r0.dot(c0);
        let t = c.transpose();
        Matrix { r0: t.r0.shrink(det), r1: t.r1.shrink(det), r2: t.r2.shrink(det), r3: t.r3.shrink(det) }
    }

    pub fn rotation_from_forward_up(forward: Tuple4D, up: Tuple4D) -> (m: Matrix)
        ensures
            m == Matrix::spec_rotation_from_forward_up(forward, up),
    {
        let f = forward.normalize();
        let r = up.normalize().cross(f);
        let u = f.cross(r);
        let n = Scalar::zero();
        Matrix {
            r0: Tuple4D { x: r.x, y: r.y, z: r.z, w: n },
            r1: Tuple4D { x: u.x, y: u.y, z: u.z, w: n },
            r2: Tuple4D { x: f.x, y: f.y, z: f.z, w: n },
            r3: Tuple4D { x: n, y: n, z: n, w: Scalar::one() },
        }
    }

    pub fn view_transform(from: &Tuple4D, to: &Tuple4D, up: &Tuple4D) -> (m: Matrix)
        ensures
            m == Matrix::spec_view_transform(*from, *to, *up),
    {
        let forward = to.sub(*from).normalize();
        let left = forward.cross(up.normalize());
        let true_up = left.cross(forward);
        let n = Scalar::zero();
        let orientation = Matrix {
            r0: Tuple4D { x: left.x, y: left.y, z: left.z, w: n },
            r1: Tuple4D { x: true_up.x, y: true_up.y, z: true_up.z, w: n },
            r2: Tuple4D { x: forward.x.neg(), y: forward.y.neg(), z: forward.z.neg(), w: n },
            r3: Tuple4D { x: n, y: n, z: n, w: Scalar::one() },
        };
        orientation.mul(&Matrix::translation(from.x.neg(), from.y.neg(), from.z.neg()))
    }
}

} // verus!
