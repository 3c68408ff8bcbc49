//! The pinhole camera: one ray for every pixel.

use vstd::prelude::*;
use crate::matrix::Matrix;
use crate::ray::Ray;
use crate::scalar::Scalar;
use crate::tuple4d::Tuple4D;

verus! {

/// A camera that looks through a canvas of `hsize` by `vsize` pixels one
/// unit in front of it.
#[derive(Clone, Copy, Debug, PartialEq, Eq, Structural)]
pub struct Camera {
    pub hsize: usize,
    pub vsize: usize,
    /// The angle of view across the larger side, in radians.
    pub field_of_view: Scalar,
    /// From the world to the camera's space.
    pub transformation: Matrix,
    /// From the camera's space to the world.
    pub inverse_transformation: Matrix,
    pub half_width: Scalar,
    pub half_height: Scalar,
    pub pixel_size: Scalar,
    /// Whether every pixel is the mean of several rays.
    pub antialiasing: bool,
    /// Rays per side of the pixel: two or three.
    pub antialiasing_size: usize,
}

impl Camera {
    /// A camera at the origin that looks down the negative z axis. The size
    /// of its pixels is zero until `calc_pixel_size` has set it.
    pub open spec fn spec_new(hsize: usize, vsize: usize, field_of_view: Scalar) -> Camera {
        Camera {
            hsize,
            vsize,
            field_of_view,
            transformation: Matrix::spec_identity(),
            inverse_transformation: Matrix::spec_identity(),
            half_width: Scalar::spec_zero(),
            half_height: Scalar::spec_zero(),
            pixel_size: Scalar::spec_zero(),
            antialiasing: false,
            antialiasing_size: 2,
        }
    }

    /// The camera with the half extents of its canvas and the size of a
    /// pixel worked out from the angle of view and the numbers of pixels.
    pub open spec fn spec_with_pixel_size(self) -> Camera {
        let half_view = self.field_of_view.spec_div(Scalar::spec_from_int(2)).spec_tan();
        let aspect = Scalar::spec_from_usize(self.hsize).spec_div(Scalar::spec_from_usize(self.vsize));
        let half_width = if aspect.raw >= Scalar::spec_one().raw {
            half_view
        } else {
            half_view.spec_mul(aspect)
        };
        let half_height = if aspect.raw >= Scalar::spec_one().raw {
            half_view.spec_div(aspect)
        } else {
            half_view
        };
        Camera {
            half_width,
            half_height,
            pixel_size: half_width.spec_mul(Scalar::spec_from_int(2)).spec_div(Scalar::spec_from_usize(self.hsize)),
            ..self
        }
    }

    pub open spec fn spec_with_transformation(self, m: Matrix) -> Camera {
        Camera { transformation: m, inverse_transformation: m.spec_inverse(), ..self }
    }

    /// The ray through the point of pixel `(x, y)` that lies `dx` to the
    /// left of and `dy` above its centre.
    pub open spec fn spec_ray_for_pixel_anti_aliasing(self, x: usize, y: usize, dx: Scalar, dy: Scalar) -> Ray {
        let half = Scalar::spec_ratio(1, 2);
        let xoffset = Scalar::spec_from_usize(x).spec_add(half).spec_mul(self.pixel_size).spec_add(dx);
        let yoffset = Scalar::spec_from_usize(y).spec_add(half).spec_mul(self.pixel_size).spec_add(dy);
        let world_x = self.half_width.spec_sub(xoffset);
        let world_y = self.half_height.spec_sub(yoffset);
        let pixel = self.inverse_transformation.spec_apply(
            Tuple4D::spec_new_point(world_x, world_y, Scalar::spec_one().spec_neg()),
        );
        let origin = self.inverse_transformation.spec_apply(
            Tuple4D::spec_new_point(Scalar::spec_zero(), Scalar::spec_zero(), Scalar::spec_zero()),
        );
        Ray { origin, direction: pixel.spec_sub(origin).spec_normalize() }
    }

    /// The ray through the centre of pixel `(x, y)`.
    pub open spec fn spec_ray_for_pixel(self, x: usize, y: usize) -> Ray {
        self.spec_ray_for_pixel_anti_aliasing(x, y, Scalar::spec_zero(), Scalar::spec_zero())
    }

    pub fn new(hsize: usize, vsize: usize, field_of_view: Scalar) -> (c: Camera)
        ensures
            c == Camera::spec_new(hsize, vsize, field_of_view),
    {
        Camera {
            hsize,
            vsize,
            field_of_view,
            transformation: Matrix::new_identity_4x4(),
            inverse_transformation: Matrix::new_identity_4x4(),
            half_width: Scalar::zero(),
            half_height: Scalar::zero(),
            pixel_size: Scalar::zero(),
            antialiasing: false,
            antialiasing_size: 2,
        }
    }

    pub fn calc_pixel_size(&mut self)
        ensures
            *final(self) == old(self).spec_with_pixel_size(),
    {
        let half_view = self.field_of_view.div(Scalar::from_int(2)).tan();
        let aspect = Scalar::from_usize(self.hsize).div(Scalar::from_usize(self.vsize));
        if aspect.raw >= Scalar::one().raw {
            self.half_width = half_view;
            self.half_height = half_view.div(aspect);
        } else {
            self.half_width = half_view.mul(aspect);
            self.half_height = half_view;
        }
        self.pixel_size = self.half_width.mul(Scalar::from_int(2)).div(Scalar::from_usize(self.hsize));
    }

    pub fn set_transformation(&mut self, m: Matrix)
        ensures
            *final(self) == old(self).spec_with_transformation(m),
    {
        self.inverse_transformation = m.inverse();
        self.transformation = m;
    }

    pub fn set_antialiasing(&mut self, antialiasing: bool)
        ensures
            *final(self) == (Camera { antialiasing, ..*old(self) }),
    {
        self.antialiasing = antialiasing;
    }

    pub fn set_antialiasing_size(&mut self, antialiasing_size: usize)
        ensures
            *final(self) == (Camera { antialiasing_size, ..*old(self) }),
    {
        self.antialiasing_size = antialiasing_size;
    }

    pub fn get_hsize(&self) -> (n: usize)
        ensures
            n == self.hsize,
    {
        self.hsize
    }

    pub fn get_vsize(&self) -> (n: usize)
        ensures
            n == self.vsize,
    {
        self.vsize
    }

    pub fn get_pixel_size(&self) -> (s: Scalar)
        ensures
            s == self.pixel_size,
    {
        self.pixel_size
    }

    pub fn get_antialiasing(&self) -> (b: bool)
        ensures
            b == self.antialiasing,
    {
        self.antialiasing
    }

    pub fn get_antialiasing_size(&self) -> (n: usize)
        ensures
            n == self.antialiasing_size,
    {
        self.antialiasing_size
    }

    pub fn ray_for_pixel_anti_aliasing(c: &Camera, x: usize, y: usize, dx: Scalar, dy: Scalar) -> (r: Ray)
        ensures
            r == c.spec_ray_for_pixel_anti_aliasing(x, y, dx, dy),
    {
        let half = Scalar::ratio(1, 2);
        let xoffset = Scalar::from_usize(x).add(half).mul(c.pixel_size).add(dx);
        let yoffset = Scalar::from_usize(y).add(half).mul(c.pixel_size).add(dy);
        let world_x = c.half_width.sub(xoffset);
        let world_y = c.half_height.sub(yoffset);
        let pixel = c.inverse_transformation.apply(Tuple4D::new_point(world_x, world_y, Scalar::one().neg()));
        let origin = c.inverse_transformation.apply(
            Tuple4D::new_point(Scalar::zero(), Scalar::zero(), Scalar::zero()),
        );
        Ray { origin, direction: pixel.sub(origin).normalize() }
    }

    pub fn ray_for_pixel(c: &Camera, x: usize, y: usize) -> (r: Ray)
        ensures
            r == c.spec_ray_for_pixel(x, y),
    {
        Camera::ray_for_pixel_anti_aliasing(c, x, y, Scalar::zero(), Scalar::zero())
    }
}

} // verus!
