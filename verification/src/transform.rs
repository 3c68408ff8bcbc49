//! Position, rotation and scale of an object, kept apart until a matrix is
//! asked for.

use vstd::prelude::*;
use crate::matrix::Matrix;
use crate::quaternion::Quaternion;
use crate::scalar::Scalar;
use crate::tuple4d::Tuple4D;

verus! {

/// Where an object stands, how it is turned and how it is stretched.
#[derive(Clone, Copy, Debug, PartialEq, Eq, Structural)]
pub struct Transform {
    pub pos: Tuple4D,
    pub rot: Quaternion,
    pub scale: Tuple4D,
}

impl Transform {
    pub open spec fn spec_new_from_all(pos: Tuple4D, rot: Quaternion, scale: Tuple4D) -> Transform {
        Transform { pos, rot, scale }
    }

    /// At `pos`, unturned and unstretched.
    pub open spec fn spec_new_from_vector(pos: Tuple4D) -> Transform {
        Transform {
            pos,
            rot: Quaternion::spec_identity(),
            scale: Tuple4D {
                x: Scalar::spec_one(),
                y: Scalar::spec_one(),
                z: Scalar::spec_one(),
                w: Scalar::spec_one(),
            },
        }
    }

    pub open spec fn spec_new() -> Transform {
        Transform::spec_new_from_vector(
            Tuple4D::spec_new_vector(Scalar::spec_zero(), Scalar::spec_zero(), Scalar::spec_zero()),
        )
    }

    /// Turned further by `r`: the rotation becomes `r * rot`, normalised.
    pub open spec fn spec_rotate(self, r: Quaternion) -> Transform {
        Transform { pos: self.pos, rot: r.spec_mul(self.rot).spec_normalized(), scale: self.scale }
    }

    /// The rotation that looks from `pos` toward `point`, with `up` above.
    pub open spec fn spec_get_look_at_rotation(self, point: Tuple4D, up: Tuple4D) -> Quaternion {
        Quaternion::spec_from_rot_matrix(
            Matrix::spec_rotation_from_forward_up(point.spec_sub(self.pos).spec_normalize(), up),
        )
    }

    pub open spec fn spec_look_at(self, point: Tuple4D, up: Tuple4D) -> Transform {
        self.spec_rotate(self.spec_get_look_at_rotation(point, up))
    }

    /// Scale first, then rotate, then translate.
    pub open spec fn spec_get_transformation(self) -> Matrix {
        Matrix::spec_translation(self.pos.x, self.pos.y, self.pos.z).spec_mul(
            self.rot.spec_to_rotation_matrix().spec_mul(
                Matrix::spec_scale(self.scale.x, self.scale.y, self.scale.z),
            ),
        )
    }

    pub open spec fn spec_set_pos(self, pos: Tuple4D) -> Transform {
        Transform { pos, rot: self.rot, scale: self.scale }
    }

    pub fn new() -> (t: Transform)
        ensures
            t == Transform::spec_new(),
    {
        Transform::new_from_vector(Tuple4D::new_vector(Scalar::zero(), Scalar::zero(), Scalar::zero()))
    }

    pub fn new_from_vector(pos: Tuple4D) -> (t: Transform)
        ensures
            t == Transform::spec_new_from_vector(pos),
    {
        Transform::new_from_all(
            pos,
            Quaternion::new(Scalar::zero(), Scalar::zero(), Scalar::zero(), Scalar::one()),
            Tuple4D::new(Scalar::one(), Scalar::one(), Scalar::one(), Scalar::one()),
        )
    }

    pub fn new_from_all(pos: Tuple4D, rot: Quaternion, scale: Tuple4D) -> (t: Transform)
        ensures
            t == Transform::spec_new_from_all(pos, rot, scale),
    {
        Transform { pos, rot, scale }
    }

    pub fn rotate(&self, r: Quaternion) -> (t: Transform)
        ensures
            t == self.spec_rotate(r),
    {
        let rot = r.mul(self.rot).normalized();
        Transform { pos: self.pos, rot, scale: self.scale }
    }

    pub fn look_at(&self, point: Tuple4D, up: Tuple4D) -> (t: Transform)
        ensures
            t == self.spec_look_at(point, up),
    {
        self.rotate(self.get_look_at_rotation(point, up))
    }

    pub fn get_look_at_rotation(&self, point: Tuple4D, up: Tuple4D) -> (q: Quaternion)
        ensures
            q == self.spec_get_look_at_rotation(point, up),
    {
        let p = point.sub(self.pos).normalize();
        let m = Matrix::rotation_from_forward_up(p, up);
        Quaternion::new_from_rot_matrix(m)
    }

    pub fn get_transformation(&self) -> (m: Matrix)
        ensures
            m == self.spec_get_transformation(),
    {
        let translation_matrix = Matrix::translation(self.pos.get_x(), self.pos.get_y(), self.pos.get_z());
        let rotation_matrix = self.rot.to_rotation_matrix();
        let scale_matrix = Matrix::scale(self.scale.get_x(), self.scale.get_y(), self.scale.get_z());
        translation_matrix.mul(&rotation_matrix.mul(&scale_matrix))
    }

    pub fn set_pos(&self, pos: Tuple4D) -> (t: Transform)
        ensures
            t == self.spec_set_pos(pos),
    {
        Transform::new_from_all(pos, self.rot, self.scale)
    }

    pub fn pos(&self) -> (p: &Tuple4D)
        ensures
            *p == self.pos,
    {
        &self.pos
    }

    pub fn rot(&self) -> (q: &Quaternion)
        ensures
            *q == self.rot,
    {
        &self.rot
    }

    pub fn scale(&self) -> (s: &Tuple4D)
        ensures
            *s == self.scale,
    {
        &self.scale
    }
}

} // verus!
