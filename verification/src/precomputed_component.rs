//! The hit record: what shading needs to know about a hit, computed once.

use vstd::prelude::*;
use crate::intersection::Intersection;
use crate::intersection_list::{IntersectionList, IntersectionListOps};
use crate::ray::Ray;
use crate::scalar::Scalar;
use crate::shape::Shape;
use crate::tuple4d::Tuple4D;
use crate::world::World;

verus! {

/// A hit, prepared for shading.
#[derive(Clone, Copy, Debug)]
pub struct PrecomputedComponent<'a> {
    pub t: Scalar,
    pub obj: &'a Shape,
    pub point: Tuple4D,
    /// From the hit toward where the ray came from.
    pub eye_vector: Tuple4D,
    /// The surface normal on the side of the eye.
    pub normal_vector: Tuple4D,
    /// Whether the ray started inside the shape.
    pub inside: bool,
    /// The direction of the ray mirrored at the surface.
    pub reflected_vector: Tuple4D,
    /// The hit, lifted off the surface toward the eye.
    pub over_point: Tuple4D,
    /// The hit, pushed below the surface.
    pub under_point: Tuple4D,
    /// Refractive index of what the ray leaves.
    pub n1: Scalar,
    /// Refractive index of what the ray enters.
    pub n2: Scalar,
}

/// The shapes in `c` without `s` if it is among them, with `s` at the end
/// if it is not.
pub open spec fn spec_toggle(c: Seq<usize>, s: usize) -> Seq<usize> {
    match c.index_of_first(s) {
        Some(p) => c.remove(p),
        None => c.push(s),
    }
}

/// The shapes that the ray is inside of after the first `k` hits of `xs`,
/// in the order in which it entered them: each hit on a shape enters it or,
/// if the ray is inside, leaves it.
pub open spec fn spec_containers(xs: Seq<Intersection>, k: int) -> Seq<usize>
    decreases k,
{
    if k <= 0 {
        Seq::empty()
    } else {
        spec_toggle(spec_containers(xs, k - 1), xs[k - 1].shape)
    }
}

/// The refractive index of the shape entered last, and one where the ray is
/// inside of nothing.
pub open spec fn spec_innermost_index(c: Seq<usize>, shapes: Seq<Shape>) -> Scalar {
    if c.len() == 0 || c.last() >= shapes.len() {
        Scalar::spec_one()
    } else {
        shapes[c.last() as int].material.refractive_index
    }
}

/// The refractive indices before and behind `hit`, found by walking `xs` up
/// to the first place where `hit` stands; one and one if it stands nowhere.
pub open spec fn spec_refractive_indices(hit: Intersection, xs: Seq<Intersection>, shapes: Seq<Shape>) -> (
    Scalar,
    Scalar,
) {
    match xs.index_of_first(hit) {
        Some(p) => (
            spec_innermost_index(spec_containers(xs, p), shapes),
            spec_innermost_index(spec_containers(xs, p + 1), shapes),
        ),
        None => (Scalar::spec_one(), Scalar::spec_one()),
    }
}

/// The hit record of `hit`, a hit of `ray` on one of `shapes`, where `xs`
/// are all hits of the ray.
pub open spec fn spec_prepare(hit: Intersection, ray: Ray, xs: Seq<Intersection>, shapes: Seq<Shape>) -> PrecomputedComponent<'static> {
    let obj = shapes[hit.shape as int];
    let point = ray.spec_position(hit.t);
    let eye = ray.direction.spec_neg();
    let outward = obj.spec_normal_at(point);
    let inside = outward.spec_dot(eye).raw < 0;
    let normal = if inside {
        outward.spec_neg()
    } else {
        outward
    };
    let offset = normal.spec_scale(Scalar::spec_epsilon());
    let n = spec_refractive_indices(hit, xs, shapes);
    PrecomputedComponent {
        t: hit.t,
        obj: &obj,
        point,
        eye_vector: eye,
        normal_vector: normal,
        inside,
        reflected_vector: ray.direction.spec_reflect(normal),
        over_point: point.spec_add(offset),
        under_point: point.spec_sub(offset),
        n1: n.0,
        n2: n.1,
    }
}

fn find_shape(c: &Vec<usize>, s: usize) -> (r: Option<usize>)
    ensures
        match r {
            Some(p) => c@.index_of_first(s) == Some(p as int) && p < c@.len(),
            None => c@.index_of_first(s) is None,
        },
{
    let mut i: usize = 0;
    while i < c.len()
        invariant
            i <= c@.len(),
            forall|j: int| 0 <= j < i ==> c@[j] != s,
        decreases c@.len() - i,
    {
        if c[i] == s {
            proof {
                c@.index_of_first_ensures(s);
                assert(c@.contains(c@[i as int]));
            }
            return Some(i);
        }
        i += 1;
    }
    proof {
        c@.index_of_first_ensures(s);
    }
    None
}

fn find_hit(xs: &Vec<Intersection>, hit: &Intersection) -> (r: Option<usize>)
    ensures
        match r {
            Some(p) => xs@.index_of_first(*hit) == Some(p as int) && p < xs@.len(),
            None => xs@.index_of_first(*hit) is None,
        },
{
    let mut i: usize = 0;
    while i < xs.len()
        invariant
            i <= xs@.len(),
            forall|j: int| 0 <= j < i ==> xs@[j] != *hit,
        decreases xs@.len() - i,
    {
        if xs[i].t.raw == hit.t.raw && xs[i].shape == hit.shape {
            proof {
                xs@.index_of_first_ensures(*hit);
                assert(xs@.contains(xs@[i as int]));
            }
            return Some(i);
        }
        i += 1;
    }
    proof {
        xs@.index_of_first_ensures(*hit);
    }
    None
}

fn toggle(c: &mut Vec<usize>, s: usize)
    ensures
        final(c)@ == spec_toggle(old(c)@, s),
{
    match find_shape(c, s) {
        Some(p) => {
            c.remove(p);
        },
        None => {
            c.push(s);
        },
    }
}

fn innermost_index(c: &Vec<usize>, shapes: &Vec<Shape>) -> (r: Scalar)
    ensures
        r == spec_innermost_index(c@, shapes@),
{
    if c.len() == 0 {
        Scalar::one()
    } else {
        let last = c[c.len() - 1];
        if last >= shapes.len() {
            Scalar::one()
        } else {
            shapes[last].material.refractive_index
        }
    }
}

fn refractive_indices(hit: &Intersection, xs: &Vec<Intersection>, shapes: &Vec<Shape>) -> (r: (Scalar, Scalar))
    ensures
        r == spec_refractive_indices(*hit, xs@, shapes@),
{
    match find_hit(xs, hit) {
        None => (Scalar::one(), Scalar::one()),
        Some(p) => {
            let mut containers: Vec<usize> = Vec::new();
            let mut k: usize = 0;
            while k < p
                invariant
                    k <= p < xs@.len(),
                    containers@ == spec_containers(xs@, k as int),
                decreases p - k,
            {
                toggle(&mut containers, xs[k].shape);
                k += 1;
            }
            let n1 = innermost_index(&containers, shapes);
            toggle(&mut containers, xs[p].shape);
            let n2 = innermost_index(&containers, shapes);
            (n1, n2)
        },
    }
}

impl<'a> PrecomputedComponent<'a> {
    pub fn new(
        t: Scalar,
        obj: &'a Shape,
        point: Tuple4D,
        eye_vector: Tuple4D,
        normal_vector: Tuple4D,
        inside: bool,
        reflected_vector: Tuple4D,
        over_point: Tuple4D,
        under_point: Tuple4D,
        n1: Scalar,
        n2: Scalar,
    ) -> (c: PrecomputedComponent<'a>)
        ensures
            c == (PrecomputedComponent {
                t,
                obj,
                point,
                eye_vector,
                normal_vector,
                inside,
                reflected_vector,
                over_point,
                under_point,
                n1,
                n2,
            }),
    {
        PrecomputedComponent {
            t,
            obj,
            point,
            eye_vector,
            normal_vector,
            inside,
            reflected_vector,
            over_point,
            under_point,
            n1,
            n2,
        }
    }

    pub fn get_t(&self) -> (t: Scalar)
        ensures
            t == self.t,
    {
        self.t
    }

    pub fn get_shape(&self) -> (s: &Shape)
        ensures
            *s == *self.obj,
    {
        self.obj
    }

    pub fn get_point(&self) -> (p: &Tuple4D)
        ensures
            *p == self.point,
    {
        &self.point
    }

    pub fn get_eye_vector(&self) -> (v: &Tuple4D)
        ensures
            *v == self.eye_vector,
    {
        &self.eye_vector
    }

    pub fn get_normal_vector(&self) -> (v: &Tuple4D)
        ensures
            *v == self.normal_vector,
    {
        &self.normal_vector
    }

    pub fn get_inside(&self) -> (b: bool)
        ensures
            b == self.inside,
    {
        self.inside
    }
}

impl Intersection {
    /// Prepares `hit`, one of the hits `xs` of `ray` in `world`, for shading.
    pub fn prepare_computations<'a>(
        hit: &Intersection,
        ray: &Ray,
        xs: &IntersectionList,
        world: &'a World,
    ) -> (c: PrecomputedComponent<'a>)
        requires
            hit.shape < world.shapes@.len(),
        ensures
            c == spec_prepare(*hit, *ray, xs@, world.shapes@),
    {
        let obj = &world.shapes[hit.shape];
        let point = ray.position(hit.t);
        let eye = ray.direction.neg();
        let outward = obj.normal_at(&point);
        let inside = outward.dot(eye).raw < 0;
        let normal = if inside {
            outward.neg()
        } else {
            outward
        };
        let offset = normal.scale(Scalar::epsilon());
        let n = refractive_indices(hit, xs.get_intersections(), &world.shapes);
        PrecomputedComponent {
            t: hit.t,
            obj,
            point,
            eye_vector: eye,
            normal_vector: normal,
            inside,
            reflected_vector: ray.direction.reflect(normal),
            over_point: point.add(offset),
            under_point: point.sub(offset),
            n1: n.0,
            n2: n.1,
        }
    }
}

} // verus!
