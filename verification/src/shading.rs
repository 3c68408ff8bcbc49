//! The shading pipeline: the colour that a ray brings back from a scene.

use vstd::prelude::*;
use crate::color::Color;
use crate::engine::{spec_candidates, spec_intersect_world};
use crate::intersection::Intersection;
use crate::intersection_list::{spec_hit, IntersectionListOps};
use crate::light::Light;
use crate::precomputed_component::{spec_prepare, PrecomputedComponent};
use crate::ray::Ray;
use crate::scalar::Scalar;
use crate::shape::Shape;
use crate::tuple4d::Tuple4D;
use crate::world::{World, WorldOps};

verus! {

/// How many times a ray may be mirrored or refracted before its colour is
/// taken from the surface alone.
pub const MAX_REFLECTION_RECURSION_DEPTH: i32 = 10;

/// The ray from `point` toward the light.
pub open spec fn spec_shadow_ray(light: Light, point: Tuple4D) -> Ray {
    Ray { origin: point, direction: light.spec_position().spec_sub(point).spec_normalize() }
}

/// The hit `x` is on a shape that casts a shadow and lies strictly between
/// the start of the ray and `distance`.
pub open spec fn spec_blocks(x: Intersection, shapes: Seq<Shape>, distance: Scalar) -> bool {
    &&& x.shape < shapes.len()
    &&& shapes[x.shape as int].casts_shadow
    &&& 0 < x.t.raw < distance.raw
}

/// One of the hits `xs` blocks the light.
pub open spec fn spec_blocked(xs: Seq<Intersection>, shapes: Seq<Shape>, distance: Scalar) -> bool {
    exists|k: int| 0 <= k < xs.len() && #[trigger] spec_blocks(xs[k], shapes, distance)
}

/// Whether a shape that casts a shadow stands between `point` and the light.
pub open spec fn spec_is_shadowed(world: World, point: Tuple4D) -> bool {
    spec_blocked(
        spec_intersect_world(world.shapes@, spec_shadow_ray(world.light, point)),
        world.shapes@,
        world.light.spec_position().spec_sub(point).spec_magnitude(),
    )
}

/// The light that the surface itself sends back at a hit.
pub open spec fn spec_surface_color(world: World, c: PrecomputedComponent) -> Color {
    c.obj.material.spec_lightning(
        world.light,
        c.over_point,
        c.eye_vector,
        c.normal_vector,
        spec_is_shadowed(world, c.over_point),
    )
}

/// The mirrored ray, started just above the surface.
pub open spec fn spec_reflected_ray(c: PrecomputedComponent) -> Ray {
    Ray { origin: c.over_point, direction: c.reflected_vector }
}

/// The squared sine of the angle of the refracted ray, by Snell's law. Above
/// one no ray passes: the surface reflects totally.
pub open spec fn spec_sin2_t(c: PrecomputedComponent) -> Scalar {
    let ratio = c.n1.spec_div(c.n2);
    let cos_i = c.eye_vector.spec_dot(c.normal_vector);
    ratio.spec_mul(ratio).spec_mul(Scalar::spec_one().spec_sub(cos_i.spec_mul(cos_i)))
}

/// The refracted ray, started just below the surface.
pub open spec fn spec_refracted_ray(c: PrecomputedComponent) -> Ray {
    let ratio = c.n1.spec_div(c.n2);
    let cos_i = c.eye_vector.spec_dot(c.normal_vector);
    let cos_t = Scalar::spec_one().spec_sub(spec_sin2_t(c)).spec_sqrt();
    Ray {
        origin: c.under_point,
        direction: c.normal_vector.spec_scale(ratio.spec_mul(cos_i).spec_sub(cos_t)).spec_sub(
            c.eye_vector.spec_scale(ratio),
        ),
    }
}

/// Whether the hit sends a mirrored ray: there is depth left and the
/// material reflects.
pub open spec fn spec_reflects(c: PrecomputedComponent, remaining: int) -> bool {
    remaining > 0 && c.obj.material.reflective.raw > 0
}

/// Whether the hit sends a refracted ray: there is depth left, the material
/// is transparent and the surface does not reflect totally.
pub open spec fn spec_refracts(c: PrecomputedComponent, remaining: int) -> bool {
    remaining > 0 && c.obj.material.transparency.raw > 0 && spec_sin2_t(c).raw <= Scalar::spec_one().raw
}

/// The colour that `ray` brings back: black where it hits nothing, else what
/// the nearest hit sends toward the eye.
pub open spec fn spec_color_at(world: World, ray: Ray, remaining: int) -> Color
    decreases remaining, 2int,
{
    let xs = spec_intersect_world(world.shapes@, ray);
    match spec_hit(xs) {
        None => Color::spec_black(),
        Some(h) => spec_shade_hit(world, spec_prepare(h, ray, xs, world.shapes@), remaining),
    }
}

/// The surface's own light plus what it mirrors plus what shines through.
/// Nothing is clamped.
pub open spec fn spec_shade_hit(world: World, c: PrecomputedComponent, remaining: int) -> Color
    decreases remaining, 1int,
{
    spec_surface_color(world, c).spec_add(spec_reflected_color(world, c, remaining)).spec_add(
        spec_refracted_color(world, c, remaining),
    )
}

/// The colour of the mirrored ray, weighted by how much the material
/// reflects; black where no mirrored ray is sent.
pub open spec fn spec_reflected_color(world: World, c: PrecomputedComponent, remaining: int) -> Color
    decreases remaining, 0int,
{
    if spec_reflects(c, remaining) {
        spec_color_at(world, spec_reflected_ray(c), remaining - 1).spec_scale(c.obj.material.reflective)
    } else {
        Color::spec_black()
    }
}

/// The colour of the refracted ray, weighted by the material's
/// transparency; black where no refracted ray is sent.
pub open spec fn spec_refracted_color(world: World, c: PrecomputedComponent, remaining: int) -> Color
    decreases remaining, 0int,
{
    if spec_refracts(c, remaining) {
        spec_color_at(world, spec_refracted_ray(c), remaining - 1).spec_scale(c.obj.material.transparency)
    } else {
        Color::spec_black()
    }
}

/// The length of the longest chain of mirrored and refracted rays that the
/// colour of `ray` draws on.
pub open spec fn spec_bounces(world: World, ray: Ray, remaining: int) -> int
    decreases remaining,
{
    let xs = spec_intersect_world(world.shapes@, ray);
    match spec_hit(xs) {
        None => 0,
        Some(h) => {
            let c = spec_prepare(h, ray, xs, world.shapes@);
            let mirrored = if spec_reflects(c, remaining) {
                1 + spec_bounces(world, spec_reflected_ray(c), remaining - 1)
            } else {
                0
            };
            let refracted = if spec_refracts(c, remaining) {
                1 + spec_bounces(world, spec_refracted_ray(c), remaining - 1)
            } else {
                0
            };
            if mirrored >= refracted {
                mirrored
            } else {
                refracted
            }
        },
    }
}

/// However the scene is built, no chain of mirrored and refracted rays is
/// longer than the depth that was granted.
pub proof fn lemma_bounces_bounded(world: World, ray: Ray, remaining: int)
    requires
        remaining >= 0,
    ensures
        0 <= spec_bounces(world, ray, remaining) <= remaining,
    decreases remaining,
{
    let xs = spec_intersect_world(world.shapes@, ray);
    match spec_hit(xs) {
        None => {},
        Some(h) => {
            let c = spec_prepare(h, ray, xs, world.shapes@);
            if spec_reflects(c, remaining) {
                lemma_bounces_bounded(world, spec_reflected_ray(c), remaining - 1);
            }
            if spec_refracts(c, remaining) {
                lemma_bounces_bounded(world, spec_refracted_ray(c), remaining - 1);
            }
        },
    }
}

/// With no depth left a hit shows the surface's own light and nothing else.
pub proof fn lemma_depth_exhausted(world: World, c: PrecomputedComponent)
    ensures
        spec_reflected_color(world, c, 0) == Color::spec_black(),
        spec_refracted_color(world, c, 0) == Color::spec_black(),
        spec_shade_hit(world, c, 0) == spec_surface_color(world, c),
{
}

/// A ray that meets no shape brings back black.
pub proof fn lemma_miss_is_black(world: World, ray: Ray, remaining: int)
    requires
        spec_candidates(world.shapes@, ray).len() == 0,
    ensures
        spec_color_at(world, ray, remaining) == Color::spec_black(),
{
    assert(spec_intersect_world(world.shapes@, ray).len() == 0);
}

/// Where a shape stands between a hit and the light, the surface shows its
/// ambient light alone: the diffuse and the specular part are gone.
pub proof fn lemma_shadow_leaves_ambient(world: World, c: PrecomputedComponent)
    requires
        spec_is_shadowed(world, c.over_point),
    ensures
        spec_surface_color(world, c) == c.obj.material.spec_ambient_term(world.light),
{
}

fn blocks(x: &Intersection, shapes: &Vec<Shape>, distance: Scalar) -> (b: bool)
    ensures
        b == spec_blocks(*x, shapes@, distance),
{
    x.shape < shapes.len() && shapes[x.shape].casts_shadow && x.t.raw > 0 && x.t.raw < distance.raw
}

fn blocked(xs: &Vec<Intersection>, shapes: &Vec<Shape>, distance: Scalar) -> (b: bool)
    ensures
        b == spec_blocked(xs@, shapes@, distance),
{
    let mut k: usize = 0;
    while k < xs.len()
        invariant
            k <= xs@.len(),
            forall|j: int| 0 <= j < k ==> !#[trigger] spec_blocks(xs@[j], shapes@, distance),
        decreases xs@.len() - k,
    {
        if blocks(&xs[k], shapes, distance) {
            return true;
        }
        k += 1;
    }
    false
}

impl World {
    /// Tells whether a shape that casts a shadow stands between `point` and
    /// the light.
    pub fn is_shadowed(&self, point: &Tuple4D) -> (b: bool)
        requires
            self.spec_fits(),
        ensures
            b == spec_is_shadowed(*self, *point),
    {
        let v = self.light.get_position().sub(*point);
        let distance = v.magnitude();
        let ray = Ray::new(*point, v.normalize());
        let xs = Intersection::intersect_world(self, &ray);
        blocked(xs.get_intersections(), &self.shapes, distance)
    }

    /// The colour of the mirrored ray at a hit.
    pub fn reflected_color(&self, comp: &PrecomputedComponent, remaining: i32) -> (c: Color)
        requires
            self.spec_fits(),
        ensures
            c == spec_reflected_color(*self, *comp, remaining as int),
            remaining <= 0 ==> c == Color::spec_black(),
        decreases remaining, 0int,
    {
        if remaining > 0 && comp.obj.material.reflective.raw > 0 {
            let ray = Ray::new(comp.over_point, comp.reflected_vector);
            World::color_at(self, &ray, remaining - 1).scale(comp.obj.material.reflective)
        } else {
            Color::black()
        }
    }

    /// The colour of the refracted ray at a hit.
    pub fn refracted_color(&self, comp: &PrecomputedComponent, remaining: i32) -> (c: Color)
        requires
            self.spec_fits(),
        ensures
            c == spec_refracted_color(*self, *comp, remaining as int),
            remaining <= 0 ==> c == Color::spec_black(),
        decreases remaining, 0int,
    {
        if remaining > 0 && comp.obj.material.transparency.raw > 0 {
            let ratio = comp.n1.div(comp.n2);
            let cos_i = comp.eye_vector.dot(comp.normal_vector);
            let sin2_t = ratio.mul(ratio).mul(Scalar::one().sub(cos_i.mul(cos_i)));
            if sin2_t.raw > Scalar::one().raw {
                Color::black()
            } else {
                let cos_t = Scalar::one().sub(sin2_t).sqrt();
                let direction = comp.normal_vector.scale(ratio.mul(cos_i).sub(cos_t)).sub(
                    comp.eye_vector.scale(ratio),
                );
                let ray = Ray::new(comp.under_point, direction);
                World::color_at(self, &ray, remaining - 1).scale(comp.obj.material.transparency)
            }
        } else {
            Color::black()
        }
    }
}

} // verus!
