//! The closed set of shapes, their roots along a ray and their normals.

use vstd::prelude::*;
use crate::material::Material;
use crate::matrix::Matrix;
use crate::ray::Ray;
use crate::scalar::Scalar;
use crate::tuple4d::Tuple4D;

verus! {

/// The part of the unit cylinder about the y axis that lies strictly between
/// `minimum` and `maximum`, with or without its two end caps.
#[derive(Clone, Copy, Debug, PartialEq, Eq, Structural)]
pub struct Cylinder {
    pub minimum: Scalar,
    pub maximum: Scalar,
    pub closed: bool,
}

/// The geometry of a shape in its own space.
#[derive(Clone, Copy, Debug, PartialEq, Eq, Structural)]
pub enum ShapeEnum {
    /// The unit sphere about the origin.
    Sphere,
    /// The plane `y = 0`.
    Plane,
    /// The cube from `-1` to `1` along every axis.
    Cube,
    Cylinder(Cylinder),
}

/// A geometry placed in the world, with its material.
#[derive(Clone, Copy, Debug, PartialEq, Eq, Structural)]
pub struct Shape {
    pub kind: ShapeEnum,
    /// From the shape's space to the world.
    pub transformation: Matrix,
    /// From the world to the shape's space; kept beside `transformation` so
    /// that no ray has to invert a matrix.
    pub inverse_transformation: Matrix,
    pub material: Material,
    pub casts_shadow: bool,
}

/// `s` with `v` appended where `keep` holds.
pub open spec fn spec_push_if(s: Seq<Scalar>, keep: bool, v: Scalar) -> Seq<Scalar> {
    if keep {
        s.push(v)
    } else {
        s
    }
}

/// `b * b - 4 * a * c`.
pub open spec fn spec_discriminant(a: Scalar, b: Scalar, c: Scalar) -> Scalar {
    b.spec_mul(b).spec_sub(Scalar::spec_from_int(4).spec_mul(a).spec_mul(c))
}

/// The smaller root of `a t^2 + b t + c` for a discriminant `d` that is not
/// negative.
pub open spec fn spec_root_low(a: Scalar, b: Scalar, d: Scalar) -> Scalar {
    b.spec_neg().spec_sub(d.spec_sqrt()).spec_div(Scalar::spec_from_int(2).spec_mul(a))
}

/// The other root.
pub open spec fn spec_root_high(a: Scalar, b: Scalar, d: Scalar) -> Scalar {
    b.spec_neg().spec_add(d.spec_sqrt()).spec_div(Scalar::spec_from_int(2).spec_mul(a))
}

/// The roots of a ray on the unit sphere: none, or the two roots of a
/// quadratic, smaller first.
pub open spec fn spec_sphere_roots(ray: Ray) -> Seq<Scalar> {
    let o = ray.origin.spec_sub(
        Tuple4D::spec_new_point(Scalar::spec_zero(), Scalar::spec_zero(), Scalar::spec_zero()),
    );
    let a = ray.direction.spec_dot(ray.direction);
    let b = Scalar::spec_from_int(2).spec_mul(ray.direction.spec_dot(o));
    let c = o.spec_dot(o).spec_sub(Scalar::spec_one());
    let d = spec_discriminant(a, b, c);
    if d.raw < 0 {
        Seq::empty()
    } else {
        Seq::empty().push(spec_root_low(a, b, d)).push(spec_root_high(a, b, d))
    }
}

/// The root of a ray on the plane `y = 0`: none for a ray that runs along
/// the plane.
pub open spec fn spec_plane_roots(ray: Ray) -> Seq<Scalar> {
    if ray.direction.y.spec_abs().raw < Scalar::spec_epsilon().raw {
        Seq::empty()
    } else {
        Seq::empty().push(ray.origin.y.spec_neg().spec_div(ray.direction.y))
    }
}

/// Where a ray enters and leaves the slab `-1 <= c <= 1` of one axis, entry
/// first. A ray along the slab divides by zero, which puts the two bounds at
/// the extremes.
pub open spec fn spec_slab(origin: Scalar, direction: Scalar) -> (Scalar, Scalar) {
    let divisor = if direction.spec_abs().raw >= Scalar::spec_epsilon().raw {
        direction
    } else {
        Scalar::spec_zero()
    };
    let near = Scalar::spec_one().spec_neg().spec_sub(origin).spec_div(divisor);
    let far = Scalar::spec_one().spec_sub(origin).spec_div(divisor);
    if near.raw > far.raw {
        (far, near)
    } else {
        (near, far)
    }
}

/// The roots of a ray on the cube: the latest entry into and the earliest
/// exit from the three slabs, or none where the exit comes first.
pub open spec fn spec_cube_roots(ray: Ray) -> Seq<Scalar> {
    let x = spec_slab(ray.origin.x, ray.direction.x);
    let y = spec_slab(ray.origin.y, ray.direction.y);
    let z = spec_slab(ray.origin.z, ray.direction.z);
    let enter = x.0.spec_max(y.0).spec_max(z.0);
    let leave = x.1.spec_min(y.1).spec_min(z.1);
    if enter.raw > leave.raw {
        Seq::empty()
    } else {
        Seq::empty().push(enter).push(leave)
    }
}

/// Whether the ray at distance `t` lies within the unit circle about the y
/// axis.
pub open spec fn spec_within_cap(ray: Ray, t: Scalar) -> bool {
    let x = ray.origin.x.spec_add(t.spec_mul(ray.direction.x));
    let z = ray.origin.z.spec_add(t.spec_mul(ray.direction.z));
    x.spec_mul(x).spec_add(z.spec_mul(z)).raw <= Scalar::spec_one().raw
}

/// Whether the ray at distance `t` lies strictly between the two ends.
pub open spec fn spec_within_ends(c: Cylinder, ray: Ray, t: Scalar) -> bool {
    let y = ray.origin.y.spec_add(t.spec_mul(ray.direction.y));
    c.minimum.raw < y.raw && y.raw < c.maximum.raw
}

/// The roots of a ray on the wall of the cylinder, smaller first.
pub open spec fn spec_wall_roots(c: Cylinder, ray: Ray) -> Seq<Scalar> {
    let a = ray.direction.x.spec_mul(ray.direction.x).spec_add(ray.direction.z.spec_mul(ray.direction.z));
    let b = Scalar::spec_from_int(2).spec_mul(
        ray.origin.x.spec_mul(ray.direction.x).spec_add(ray.origin.z.spec_mul(ray.direction.z)),
    );
    let k = ray.origin.x.spec_mul(ray.origin.x).spec_add(ray.origin.z.spec_mul(ray.origin.z)).spec_sub(
        Scalar::spec_one(),
    );
    let d = spec_discriminant(a, b, k);
    if a.spec_abs().raw < Scalar::spec_epsilon().raw || d.raw < 0 {
        Seq::empty()
    } else {
        let p = spec_root_low(a, b, d);
        let q = spec_root_high(a, b, d);
        let t0 = p.spec_min(q);
        let t1 = p.spec_max(q);
        spec_push_if(
            spec_push_if(Seq::empty(), spec_within_ends(c, ray, t0), t0),
            spec_within_ends(c, ray, t1),
            t1,
        )
    }
}

/// The roots of a ray on the two end caps, lower cap first.
pub open spec fn spec_cap_roots(c: Cylinder, ray: Ray) -> Seq<Scalar> {
    if !c.closed || ray.direction.y.spec_abs().raw < Scalar::spec_epsilon().raw {
        Seq::empty()
    } else {
        let low = c.minimum.spec_sub(ray.origin.y).spec_div(ray.direction.y);
        let high = c.maximum.spec_sub(ray.origin.y).spec_div(ray.direction.y);
        spec_push_if(
            spec_push_if(Seq::empty(), spec_within_cap(ray, low), low),
            spec_within_cap(ray, high),
            high,
        )
    }
}

/// The roots of a ray on a cylinder: those on the wall, then those on the
/// caps.
pub open spec fn spec_cylinder_roots(c: Cylinder, ray: Ray) -> Seq<Scalar> {
    spec_wall_roots(c, ray) + spec_cap_roots(c, ray)
}

/// The most roots a geometry can have along one ray.
pub open spec fn spec_max_roots(kind: ShapeEnum) -> nat {
    match kind {
        ShapeEnum::Sphere => 2,
        ShapeEnum::Plane => 1,
        ShapeEnum::Cube => 2,
        ShapeEnum::Cylinder(_) => 4,
    }
}

fn discriminant(a: Scalar, b: Scalar, c: Scalar) -> (r: Scalar)
    ensures
        r == spec_discriminant(a, b, c),
{
    b.mul(b).sub(Scalar::from_int(4).mul(a).mul(c))
}

fn root_low(a: Scalar, b: Scalar, d: Scalar) -> (r: Scalar)
    ensures
        r == spec_root_low(a, b, d),
{
    b.neg().sub(d.sqrt()).div(Scalar::from_int(2).mul(a))
}

fn root_high(a: Scalar, b: Scalar, d: Scalar) -> (r: Scalar)
    ensures
        r == spec_root_high(a, b, d),
{
    b.neg().add(d.sqrt()).div(Scalar::from_int(2).mul(a))
}

fn sphere_roots(ray: &Ray) -> (v: Vec<Scalar>)
    ensures
        v@ == spec_sphere_roots(*ray),
{
    let o = ray.origin.sub(Tuple4D::new_point(Scalar::zero(), Scalar::zero(), Scalar::zero()));
    let a = ray.direction.dot(ray.direction);
    let b = Scalar::from_int(2).mul(ray.direction.dot(o));
    let c = o.dot(o).sub(Scalar::one());
    let d = discriminant(a, b, c);
    let mut v: Vec<Scalar> = Vec::new();
    if d.raw >= 0 {
        v.push(root_low(a, b, d));
        v.push(root_high(a, b, d));
    }
    v
}

fn plane_roots(ray: &Ray) -> (v: Vec<Scalar>)
    ensures
        v@ == spec_plane_roots(*ray),
{
    let mut v: Vec<Scalar> = Vec::new();
    if ray.direction.y.abs().raw >= Scalar::epsilon().raw {
        v.push(ray.origin.y.neg().div(ray.direction.y));
    }
    v
}

fn slab(origin: Scalar, direction: Scalar) -> (r: (Scalar, Scalar))
    ensures
        r == spec_slab(origin, direction),
{
    let divisor = if direction.abs().raw >= Scalar::epsilon().raw {
        direction
    } else {
        Scalar::zero()
    };
    let near = Scalar::one().neg().sub(origin).div(divisor);
    let far = Scalar::one().sub(origin).div(divisor);
    if near.raw > far.raw {
        (far, near)
    } else {
        (near, far)
    }
}

fn cube_roots(ray: &Ray) -> (v: Vec<Scalar>)
    ensures
        v@ == spec_cube_roots(*ray),
{
    let x = slab(ray.origin.x, ray.direction.x);
    let y = slab(ray.origin.y, ray.direction.y);
    let z = slab(ray.origin.z, ray.direction.z);
    let enter = x.0.max(y.0).max(z.0);
    let leave = x.1.min(y.1).min(z.1);
    let mut v: Vec<Scalar> = Vec::new();
    if enter.raw <= leave.raw {
        v.push(enter);
        v.push(leave);
    }
    v
}

fn within_cap(ray: &Ray, t: Scalar) -> (r: bool)
    ensures
        r == spec_within_cap(*ray, t),
{
    let x = ray.origin.x.add(t.mul(ray.direction.x));
    let z = ray.origin.z.add(t.mul(ray.direction.z));
    x.mul(x).add(z.mul(z)).raw <= Scalar::one().raw
}

fn within_ends(c: &Cylinder, ray: &Ray, t: Scalar) -> (r: bool)
    ensures
        r == spec_within_ends(*c, *ray, t),
{
    let y = ray.origin.y.add(t.mul(ray.direction.y));
    c.minimum.raw < y.raw && y.raw < c.maximum.raw
}

fn cylinder_roots(c: &Cylinder, ray: &Ray) -> (v: Vec<Scalar>)
    ensures
        v@ == spec_cylinder_roots(*c, *ray),
        v@.len() <= 4,
{
    let mut v: Vec<Scalar> = Vec::new();
    let a = ray.direction.x.mul(ray.direction.x).add(ray.direction.z.mul(ray.direction.z));
    let b = Scalar::from_int(2).mul(
        ray.origin.x.mul(ray.direction.x).add(ray.origin.z.mul(ray.direction.z)),
    );
    let k = ray.origin.x.mul(ray.origin.x).add(ray.origin.z.mul(ray.origin.z)).sub(Scalar::one());
    let d = discriminant(a, b, k);
    if a.abs().raw >= Scalar::epsilon().raw && d.raw >= 0 {
        let p = root_low(a, b, d);
        let q = root_high(a, b, d);
        let t0 = p.min(q);
        let t1 = p.max(q);
        if within_ends(c, ray, t0) {
            v.push(t0);
        }
        if within_ends(c, ray, t1) {
            v.push(t1);
        }
    }
    assert(v@ == spec_wall_roots(*c, *ray));
    if c.closed && ray.direction.y.abs().raw >= Scalar::epsilon().raw {
        let low = c.minimum.sub(ray.origin.y).div(ray.direction.y);
        let high = c.maximum.sub(ray.origin.y).div(ray.direction.y);
        if within_cap(ray, low) {
            v.push(low);
        }
        if within_cap(ray, high) {
            v.push(high);
        }
    }
    v
}

impl Cylinder {
    /// The cylinder without ends and without caps.
    pub open spec fn spec_unbounded() -> Cylinder {
        Cylinder { minimum: Scalar { raw: i64::MIN }, maximum: Scalar { raw: i64::MAX }, closed: false }
    }

    pub fn new() -> (c: Cylinder)
        ensures
            c == Cylinder::spec_unbounded(),
    {
        Cylinder { minimum: Scalar { raw: i64::MIN }, maximum: Scalar { raw: i64::MAX }, closed: false }
    }

    pub fn set_minimum(&mut self, minimum: Scalar)
        ensures
            *final(self) == (Cylinder { minimum, ..*old(self) }),
    {
        self.minimum = minimum;
    }

    pub fn set_maximum(&mut self, maximum: Scalar)
        ensures
            *final(self) == (Cylinder { maximum, ..*old(self) }),
    {
        self.maximum = maximum;
    }

    pub fn set_closed(&mut self, closed: bool)
        ensures
            *final(self) == (Cylinder { closed, ..*old(self) }),
    {
        self.closed = closed;
    }
}

impl ShapeEnum {
    /// Every distance at which `ray`, given in the shape's own space, meets
    /// the geometry.
    pub open spec fn spec_local_intersect(self, ray: Ray) -> Seq<Scalar> {
        match self {
            ShapeEnum::Sphere => spec_sphere_roots(ray),
            ShapeEnum::Plane => spec_plane_roots(ray),
            ShapeEnum::Cube => spec_cube_roots(ray),
            ShapeEnum::Cylinder(c) => spec_cylinder_roots(c, ray),
        }
    }

    /// The outward direction at `p`, a point of the geometry in its own
    /// space. Not normalised.
    pub open spec fn spec_local_normal_at(self, p: Tuple4D) -> Tuple4D {
        let n = Scalar::spec_zero();
        match self {
            ShapeEnum::Sphere => p.spec_sub(Tuple4D::spec_new_point(n, n, n)),
            ShapeEnum::Plane => Tuple4D::spec_new_vector(n, Scalar::spec_one(), n),
            ShapeEnum::Cube => {
                let largest = p.x.spec_abs().spec_max(p.y.spec_abs()).spec_max(p.z.spec_abs());
                if largest == p.x.spec_abs() {
                    Tuple4D::spec_new_vector(p.x, n, n)
                } else if largest == p.y.spec_abs() {
                    Tuple4D::spec_new_vector(n, p.y, n)
                } else {
                    Tuple4D::spec_new_vector(n, n, p.z)
                }
            },
            ShapeEnum::Cylinder(c) => {
                let inside = p.x.spec_mul(p.x).spec_add(p.z.spec_mul(p.z)).raw < Scalar::spec_one().raw;
                if inside && p.y.raw >= c.maximum.spec_sub(Scalar::spec_epsilon()).raw {
                    Tuple4D::spec_new_vector(n, Scalar::spec_one(), n)
                } else if inside && p.y.raw <= c.minimum.spec_add(Scalar::spec_epsilon()).raw {
                    Tuple4D::spec_new_vector(n, Scalar::spec_one().spec_neg(), n)
                } else {
                    Tuple4D::spec_new_vector(p.x, n, p.z)
                }
            },
        }
    }

    pub fn local_intersect(&self, ray: &Ray) -> (v: Vec<Scalar>)
        ensures
            v@ == self.spec_local_intersect(*ray),
            v@.len() <= spec_max_roots(*self),
    {
        match self {
            ShapeEnum::Sphere => sphere_roots(ray),
            ShapeEnum::Plane => plane_roots(ray),
            ShapeEnum::Cube => cube_roots(ray),
            ShapeEnum::Cylinder(c) => cylinder_roots(c, ray),
        }
    }

    pub fn local_normal_at(&self, p: &Tuple4D) -> (v: Tuple4D)
        ensures
            v == self.spec_local_normal_at(*p),
    {
        let n = Scalar::zero();
        match self {
            ShapeEnum::Sphere => p.sub(Tuple4D::new_point(n, n, n)),
            ShapeEnum::Plane => Tuple4D::new_vector(n, Scalar::one(), n),
            ShapeEnum::Cube => {
                let largest = p.x.abs().max(p.y.abs()).max(p.z.abs());
                if largest.raw == p.x.abs().raw {
                    Tuple4D::new_vector(p.x, n, n)
                } else if largest.raw == p.y.abs().raw {
                    Tuple4D::new_vector(n, p.y, n)
                } else {
                    Tuple4D::new_vector(n, n, p.z)
                }
            },
            ShapeEnum::Cylinder(c) => {
                let inside = p.x.mul(p.x).add(p.z.mul(p.z)).raw < Scalar::one().raw;
                if inside && p.y.raw >= c.maximum.sub(Scalar::epsilon()).raw {
                    Tuple4D::new_vector(n, Scalar::one(), n)
                } else if inside && p.y.raw <= c.minimum.add(Scalar::epsilon()).raw {
                    Tuple4D::new_vector(n, Scalar::one().neg(), n)
                } else {
                    Tuple4D::new_vector(p.x, n, p.z)
                }
            },
        }
    }
}

/// No ray has more roots on a geometry than `spec_max_roots` allows.
pub proof fn lemma_root_count(kind: ShapeEnum, ray: Ray)
    ensures
        kind.spec_local_intersect(ray).len() <= spec_max_roots(kind),
{
}

impl Shape {
    /// The geometry as it stands in its own space, with the default
    /// material, casting a shadow.
    pub open spec fn spec_new(kind: ShapeEnum) -> Shape {
        Shape {
            kind,
            transformation: Matrix::spec_identity(),
            inverse_transformation: Matrix::spec_identity(),
            material: Material::spec_default(),
            casts_shadow: true,
        }
    }

    /// The shape moved to where `m` puts it.
    pub open spec fn spec_with_transformation(self, m: Matrix) -> Shape {
        Shape { transformation: m, inverse_transformation: m.spec_inverse(), ..self }
    }

    pub open spec fn spec_with_material(self, material: Material) -> Shape {
        Shape { material, ..self }
    }

    pub open spec fn spec_with_casts_shadow(self, casts_shadow: bool) -> Shape {
        Shape { casts_shadow, ..self }
    }

    /// The distances at which a ray of the world meets the shape.
    pub open spec fn spec_intersect(self, ray: Ray) -> Seq<Scalar> {
        self.kind.spec_local_intersect(ray.spec_transform(self.inverse_transformation))
    }

    /// The unit normal of the shape at `p`, a point of the world.
    pub open spec fn spec_normal_at(self, p: Tuple4D) -> Tuple4D {
        let local = self.kind.spec_local_normal_at(self.inverse_transformation.spec_apply(p));
        let world = self.inverse_transformation.spec_transpose().spec_apply(local);
        Tuple4D { w: Scalar::spec_zero(), ..world }.spec_normalize()
    }

    pub fn new(kind: ShapeEnum) -> (s: Shape)
        ensures
            s == Shape::spec_new(kind),
    {
        Shape {
            kind,
            transformation: Matrix::new_identity_4x4(),
            inverse_transformation: Matrix::new_identity_4x4(),
            material: Material::new(),
            casts_shadow: true,
        }
    }

    pub fn set_transformation(&mut self, m: Matrix)
        ensures
            *final(self) == old(self).spec_with_transformation(m),
    {
        self.inverse_transformation = m.inverse();
        self.transformation = m;
    }

    pub fn get_transformation(&self) -> (m: &Matrix)
        ensures
            *m == self.transformation,
    {
        &self.transformation
    }

    pub fn get_inverse_transformation(&self) -> (m: &Matrix)
        ensures
            *m == self.inverse_transformation,
    {
        &self.inverse_transformation
    }

    pub fn set_material(&mut self, material: Material)
        ensures
            *final(self) == old(self).spec_with_material(material),
    {
        self.material = material;
    }

    pub fn get_material(&self) -> (m: &Material)
        ensures
            *m == self.material,
    {
        &self.material
    }

    pub fn get_material_mut(&mut self) -> (m: &mut Material)
        ensures
            *m == old(self).material,
            *final(self) == old(self).spec_with_material(*final(m)),
    {
        &mut self.material
    }

    pub fn set_casts_shadow(&mut self, casts_shadow: bool)
        ensures
            *final(self) == old(self).spec_with_casts_shadow(casts_shadow),
    {
        self.casts_shadow = casts_shadow;
    }

    pub fn get_casts_shadow(&self) -> (b: bool)
        ensures
            b == self.casts_shadow,
    {
        self.casts_shadow
    }

    pub fn intersect(&self, ray: &Ray) -> (v: Vec<Scalar>)
        ensures
            v@ == self.spec_intersect(*ray),
            v@.len() <= spec_max_roots(self.kind),
    {
        let local = ray.transform(&self.inverse_transformation);
        self.kind.local_intersect(&local)
    }

    pub fn normal_at(&self, p: &Tuple4D) -> (n: Tuple4D)
        ensures
            n == self.spec_normal_at(*p),
    {
        let local = self.kind.local_normal_at(&self.inverse_transformation.apply(*p));
        let world = self.inverse_transformation.transpose().apply(local);
        Tuple4D { x: world.x, y: world.y, z: world.z, w: Scalar::zero() }.normalize()
    }
}

} // verus!
