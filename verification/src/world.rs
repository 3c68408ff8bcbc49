//! The scene: shapes and a light.

use vstd::prelude::*;
use crate::color::Color;
use crate::engine::{spec_candidates, spec_intersect_world};
use crate::intersection::Intersection;
use crate::intersection_list::{spec_hit, IntersectionListOps, MAX_INTERSECTIONLIST_LEN};
use crate::light::{Light, PointLight};
use crate::material::Material;
use crate::matrix::Matrix;
use crate::precomputed_component::PrecomputedComponent;
use crate::ray::Ray;
use crate::scalar::Scalar;
use crate::shading::{lemma_miss_is_black, spec_color_at, spec_shade_hit};
use crate::shape::{spec_max_roots, Shape, ShapeEnum};
use crate::tuple4d::Tuple4D;

verus! {

/// Everything a ray can meet, and the light that shines on it.
#[derive(Clone, Debug)]
pub struct World {
    pub shapes: Vec<Shape>,
    pub light: Light,
}

/// The most hits any one ray can have on `shapes`, going by their kinds.
pub open spec fn spec_root_bound(shapes: Seq<Shape>) -> nat
    decreases shapes.len(),
{
    if shapes.len() == 0 {
        0
    } else {
        spec_root_bound(shapes.drop_last()) + spec_max_roots(shapes.last().kind)
    }
}

impl World {
    /// The light of a scene that has not been given one: black, at the
    /// origin.
    pub open spec fn spec_unlit() -> Light {
        Light::PointLight(
            PointLight {
                position: Tuple4D::spec_new_point(Scalar::spec_zero(), Scalar::spec_zero(), Scalar::spec_zero()),
                intensity: Color::spec_black(),
            },
        )
    }

    pub fn get_light(&self) -> (l: &Light)
        ensures
            *l == self.light,
    {
        &self.light
    }

    /// The most hits one ray can have in this scene, going by the kinds of
    /// its shapes; `None` where that number does not fit the machine.
    pub fn root_bound(&self) -> (r: Option<usize>)
        ensures
            match r {
                Some(n) => n == spec_root_bound(self.shapes@),
                None => spec_root_bound(self.shapes@) > usize::MAX,
            },
    {
        let mut total: usize = 0;
        let mut i: usize = 0;
        while i < self.shapes.len()
            invariant
                i <= self.shapes@.len(),
                total == spec_root_bound(self.shapes@.subrange(0, i as int)),
            decreases self.shapes@.len() - i,
        {
            let roots: usize = match self.shapes[i].kind {
                ShapeEnum::Sphere => 2,
                ShapeEnum::Plane => 1,
                ShapeEnum::Cube => 2,
                ShapeEnum::Cylinder(_) => 4,
            };
            proof {
                assert(self.shapes@.subrange(0, i + 1).drop_last() =~= self.shapes@.subrange(0, i as int));
                lemma_root_bound_grows(self.shapes@, i + 1);
            }
            if total > usize::MAX - roots {
                return None;
            }
            total = total + roots;
            i += 1;
        }
        assert(self.shapes@.subrange(0, i as int) =~= self.shapes@);
        Some(total)
    }
}

/// What a scene offers: its setup, and the colours it gives.
pub trait WorldOps: Sized {
    /// The scene itself.
    spec fn scene(&self) -> World;

    /// A scene without shapes, with a black light at the origin.
    fn new() -> (w: World)
        ensures
            w.shapes@ == Seq::<Shape>::empty(),
            w.light == World::spec_unlit(),
    ;

    fn set_light(&mut self, light: Light)
        ensures
            final(self).scene().light == light,
            final(self).scene().shapes@ == old(self).scene().shapes@,
    ;

    /// Puts a shape behind those that are there.
    fn add_shape(&mut self, shape: Shape)
        ensures
            final(self).scene().shapes@ == old(self).scene().shapes@.push(shape),
            final(self).scene().light == old(self).scene().light,
    ;

    fn get_shapes(&self) -> (s: &Vec<Shape>)
        ensures
            s@ == self.scene().shapes@,
    ;

    fn get_shapes_mut(&mut self) -> (s: &mut Vec<Shape>)
        ensures
            s@ == old(self).scene().shapes@,
            final(self).scene().shapes@ == final(s)@,
            final(self).scene().light == old(self).scene().light,
    ;

    /// The colour that a hit sends toward the eye.
    fn shade_hit(&self, comp: &PrecomputedComponent, remaining: i32) -> (c: Color)
        requires
            self.scene().spec_fits(),
        ensures
            c == spec_shade_hit(self.scene(), *comp, remaining as int),
    ;

    /// The colour that the ray `r` brings back from the scene `w`, following
    /// mirrored and refracted rays at most `remaining` deep: black where the
    /// ray meets nothing in front of it.
    fn color_at(w: &World, r: &Ray, remaining: i32) -> (c: Color)
        requires
            w.spec_fits(),
        ensures
            c == spec_color_at(*w, *r, remaining as int),
            spec_hit(spec_intersect_world(w.shapes@, *r)) is None ==> c == Color::spec_black(),
            spec_candidates(w.shapes@, *r).len() == 0 ==> c == Color::spec_black(),
    ;
}

impl WorldOps for World {
    open spec fn scene(&self) -> World {
        *self
    }

    fn new() -> (w: World) {
        let pl = PointLight::new(
            Tuple4D::new_point(Scalar::zero(), Scalar::zero(), Scalar::zero()),
            Color::new(Scalar::zero(), Scalar::zero(), Scalar::zero()),
        );
        World { shapes: Vec::new(), light: Light::PointLight(pl) }
    }

    fn set_light(&mut self, light: Light) {
        self.light = light;
    }

    fn add_shape(&mut self, shape: Shape) {
        self.shapes.push(shape);
    }

    fn get_shapes(&self) -> (s: &Vec<Shape>) {
        &self.shapes
    }

    fn get_shapes_mut(&mut self) -> (s: &mut Vec<Shape>) {
        &mut self.shapes
    }

    fn shade_hit(&self, comp: &PrecomputedComponent, remaining: i32) -> (c: Color)
        decreases remaining, 1int,
    {
        let shadowed = self.is_shadowed(&comp.over_point);
        let surface = Material::lightning(
            &comp.obj.material,
            &self.light,
            &comp.over_point,
            &comp.eye_vector,
            &comp.normal_vector,
            shadowed,
        );
        let reflected = self.reflected_color(comp, remaining);
        let refracted = self.refracted_color(comp, remaining);
        surface.add(reflected).add(refracted)
    }

    fn color_at(w: &World, r: &Ray, remaining: i32) -> (c: Color)
        decreases remaining, 2int,
    {
        let xs = Intersection::intersect_world(w, r);
        proof {
            if spec_candidates(w.shapes@, *r).len() == 0 {
                lemma_miss_is_black(*w, *r, remaining as int);
            }
        }
        match xs.hit() {
            Some(i) => {
                let comp = Intersection::prepare_computations(&i, r, &xs, w);
                w.shade_hit(&comp, remaining)
            },
            None => Color::black(),
        }
    }
}

/// The bound of a part of the shapes does not exceed the bound of all.
pub proof fn lemma_root_bound_grows(shapes: Seq<Shape>, k: int)
    requires
        0 <= k <= shapes.len(),
    ensures
        spec_root_bound(shapes.subrange(0, k)) <= spec_root_bound(shapes),
    decreases shapes.len() - k,
{
    if k == shapes.len() {
        assert(shapes.subrange(0, k) =~= shapes);
    } else {
        lemma_root_bound_grows(shapes, k + 1);
        assert(shapes.subrange(0, k + 1).drop_last() =~= shapes.subrange(0, k));
    }
}

/// The scene of two concentric spheres lit from the upper left: an outer
/// unit sphere of a greenish material and an inner sphere of half its size.
pub fn default_world() -> (w: World)
    ensures
        w.shapes@ == seq![spec_default_outer(), spec_default_inner()],
        w.light == spec_default_light(),
{
    let mut w = World::new();

    let light_pos = Tuple4D::new_point(Scalar::from_int(-10), Scalar::from_int(10), Scalar::from_int(-10));
    let light_intensity = Color::new(Scalar::one(), Scalar::one(), Scalar::one());
    let pl = PointLight::new(light_pos, light_intensity);
    let light = Light::PointLight(pl);
    w.set_light(light);

    let mut m = Material::new();
    m.set_color(Color::new(Scalar::ratio(8, 10), Scalar::one(), Scalar::ratio(6, 10)));
    m.set_diffuse(Scalar::ratio(7, 10));
    m.set_specular(Scalar::ratio(2, 10));

    let mut shape1 = Shape::new(ShapeEnum::Sphere);
    shape1.set_material(m);

    let m = Matrix::scale(Scalar::ratio(1, 2), Scalar::ratio(1, 2), Scalar::ratio(1, 2));
    let mut shape2 = Shape::new(ShapeEnum::Sphere);
    shape2.set_transformation(m);

    w.add_shape(shape1);
    w.add_shape(shape2);

    w
}

/// The light of the default scene: white, at `(-10, 10, -10)`.
pub open spec fn spec_default_light() -> Light {
    Light::PointLight(
        PointLight {
            position: Tuple4D::spec_new_point(
                Scalar::spec_from_int(-10),
                Scalar::spec_from_int(10),
                Scalar::spec_from_int(-10),
            ),
            intensity: Color { r: Scalar::spec_one(), g: Scalar::spec_one(), b: Scalar::spec_one() },
        },
    )
}

/// The outer sphere of the default scene.
pub open spec fn spec_default_outer() -> Shape {
    Shape::spec_new(ShapeEnum::Sphere).spec_with_material(
        Material {
            color: Color { r: Scalar::spec_ratio(8, 10), g: Scalar::spec_one(), b: Scalar::spec_ratio(6, 10) },
            diffuse: Scalar::spec_ratio(7, 10),
            specular: Scalar::spec_ratio(2, 10),
            ..Material::spec_default()
        },
    )
}

/// The inner sphere of the default scene.
pub open spec fn spec_default_inner() -> Shape {
    let half = Scalar::spec_ratio(1, 2);
    Shape::spec_new(ShapeEnum::Sphere).spec_with_transformation(Matrix::spec_scale(half, half, half))
}

} // verus!
