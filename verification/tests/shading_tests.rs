use raytracer::color::Color;
use raytracer::intersection::Intersection;
use raytracer::intersection_list::{IntersectionList, IntersectionListOps};
use raytracer::light::{Light, PointLight};
use raytracer::material::Material;
use raytracer::matrix::Matrix;
use raytracer::precomputed_component::PrecomputedComponent;
use raytracer::ray::Ray;
use raytracer::scalar::{Scalar, EPSILON_RAW};
use raytracer::shading::MAX_REFLECTION_RECURSION_DEPTH;
use raytracer::shape::{Shape, ShapeEnum};
use raytracer::tuple4d::Tuple4D;
use raytracer::world::{default_world, World, WorldOps};

fn s(x: f64) -> Scalar {
    Scalar { raw: (x * 4294967296.0).round() as i64 }
}

fn f(x: Scalar) -> f64 {
    x.raw as f64 / 4294967296.0
}

fn point(x: f64, y: f64, z: f64) -> Tuple4D {
    Tuple4D::new_point(s(x), s(y), s(z))
}

fn vector(x: f64, y: f64, z: f64) -> Tuple4D {
    Tuple4D::new_vector(s(x), s(y), s(z))
}

fn color(r: f64, g: f64, b: f64) -> Color {
    Color::new(s(r), s(g), s(b))
}

fn near(a: Tuple4D, b: Tuple4D) -> bool {
    let eps = 1e-4;
    (f(a.x) - f(b.x)).abs() < eps && (f(a.y) - f(b.y)).abs() < eps && (f(a.z) - f(b.z)).abs() < eps
}

fn near_color(a: &Color, b: &Color) -> bool {
    let eps = 1e-4;
    (f(a.r) - f(b.r)).abs() < eps && (f(a.g) - f(b.g)).abs() < eps && (f(a.b) - f(b.b)).abs() < eps
}

fn white_light(x: f64, y: f64, z: f64) -> Light {
    Light::PointLight(PointLight::new(point(x, y, z), color(1.0, 1.0, 1.0)))
}

fn world_of(light: Light, shapes: Vec<Shape>) -> World {
    let mut w = World::new();
    w.set_light(light);
    for shape in shapes {
        w.add_shape(shape);
    }
    w
}

fn sphere_at(x: f64, y: f64, z: f64) -> Shape {
    let mut shape = Shape::new(ShapeEnum::Sphere);
    shape.set_transformation(Matrix::translation(s(x), s(y), s(z)));
    shape
}

fn plane_at(y: f64) -> Shape {
    let mut shape = Shape::new(ShapeEnum::Plane);
    shape.set_transformation(Matrix::translation(s(0.0), s(y), s(0.0)));
    shape
}

fn glass_sphere(m: Matrix, index: f64) -> Shape {
    let mut shape = Shape::new(ShapeEnum::Sphere);
    shape.set_transformation(m);
    shape.get_material_mut().set_transparency(s(1.0));
    shape.get_material_mut().set_refractive_index(s(index));
    shape
}

fn prepare<'a>(w: &'a World, r: &Ray, nth: usize) -> PrecomputedComponent<'a> {
    let xs = Intersection::intersect_world(w, r);
    let hit = xs.at(nth);
    Intersection::prepare_computations(&hit, r, &xs, w)
}

fn diagonal_down() -> Ray {
    let h = 2f64.sqrt() / 2.0;
    Ray::new(point(0.0, 0.0, -3.0), vector(0.0, -h, h))
}

#[test]
fn light_from_behind_the_eye() {
    let m = Material::new();
    let c = Material::lightning(
        &m,
        &white_light(0.0, 0.0, -10.0),
        &point(0.0, 0.0, 0.0),
        &vector(0.0, 0.0, -1.0),
        &vector(0.0, 0.0, -1.0),
        false,
    );
    assert!(near_color(&c, &color(1.9, 1.9, 1.9)));
}

#[test]
fn light_from_above_and_the_eye_in_its_mirror_image() {
    let m = Material::new();
    let h = 2f64.sqrt() / 2.0;
    let normal = vector(0.0, 0.0, -1.0);
    let p = point(0.0, 0.0, 0.0);
    let high = white_light(0.0, 10.0, -10.0);
    let plain = Material::lightning(&m, &high, &p, &vector(0.0, 0.0, -1.0), &normal, false);
    assert!(near_color(&plain, &color(0.7364, 0.7364, 0.7364)));
    let mirrored = Material::lightning(&m, &high, &p, &vector(0.0, -h, -h), &normal, false);
    assert!(near_color(&mirrored, &color(1.6364, 1.6364, 1.6364)));
    let aside = Material::lightning(&m, &white_light(0.0, 0.0, -10.0), &p, &vector(0.0, h, -h), &normal, false);
    assert!(near_color(&aside, &color(1.0, 1.0, 1.0)));
}

#[test]
fn light_behind_the_surface_leaves_the_ambient_part() {
    let m = Material::new();
    let c = Material::lightning(
        &m,
        &white_light(0.0, 0.0, 10.0),
        &point(0.0, 0.0, 0.0),
        &vector(0.0, 0.0, -1.0),
        &vector(0.0, 0.0, -1.0),
        false,
    );
    assert_eq!(c, Color::new(m.ambient, m.ambient, m.ambient));
}

#[test]
fn a_shadow_takes_the_diffuse_and_the_specular_part_and_leaves_the_ambient() {
    let mut m = Material::new();
    m.set_color(color(0.8, 0.4, 0.2));
    m.set_ambient(s(0.25));
    let light = white_light(0.0, 0.0, -10.0);
    let eye = vector(0.0, 0.0, -1.0);
    let normal = vector(0.0, 0.0, -1.0);
    let p = point(0.0, 0.0, 0.0);
    let lit = Material::lightning(&m, &light, &p, &eye, &normal, false);
    let shadowed = Material::lightning(&m, &light, &p, &eye, &normal, true);
    assert_eq!(shadowed, color(0.8, 0.4, 0.2).scale(s(0.25)));
    assert!(near_color(&shadowed, &color(0.2, 0.1, 0.05)));
    assert!(lit.r.raw > shadowed.r.raw && lit.g.raw > shadowed.g.raw && lit.b.raw > shadowed.b.raw);
    assert!(shadowed.r.raw > 0);
}

#[test]
fn points_behind_a_sphere_are_in_shadow() {
    let w = default_world();
    assert!(!w.is_shadowed(&point(0.0, 10.0, 0.0)));
    assert!(w.is_shadowed(&point(10.0, -10.0, 10.0)));
    assert!(!w.is_shadowed(&point(-20.0, 20.0, -20.0)));
    assert!(!w.is_shadowed(&point(-2.0, 2.0, -2.0)));
}

#[test]
fn a_shape_that_casts_no_shadow_shades_nothing() {
    let mut w = default_world();
    assert!(w.is_shadowed(&point(10.0, -10.0, 10.0)));
    for shape in w.get_shapes_mut().iter_mut() {
        shape.set_casts_shadow(false);
    }
    assert!(!w.is_shadowed(&point(10.0, -10.0, 10.0)));
    w.get_shapes_mut()[1].set_casts_shadow(true);
    assert!(w.is_shadowed(&point(10.0, -10.0, 10.0)));
}

#[test]
fn a_hit_in_the_shadow_of_another_shape_shows_its_ambient_light_alone() {
    let w = world_of(white_light(0.0, 0.0, -10.0), vec![Shape::new(ShapeEnum::Sphere), sphere_at(0.0, 0.0, 10.0)]);
    let r = Ray::new(point(0.0, 0.0, 5.0), vector(0.0, 0.0, 1.0));
    let i = Intersection::new(s(4.0), 1);
    let comps = Intersection::prepare_computations(&i, &r, &IntersectionList::new(), &w);
    assert!(w.is_shadowed(&comps.over_point));
    let c = w.shade_hit(&comps, MAX_REFLECTION_RECURSION_DEPTH);
    let ambient = Material::new().ambient;
    assert_eq!(c, Color::new(ambient, ambient, ambient));
    assert!(near_color(&c, &color(0.1, 0.1, 0.1)));
}

#[test]
fn a_ray_that_meets_nothing_brings_back_black() {
    let w = default_world();
    let rays = [
        Ray::new(point(0.0, 0.0, -5.0), vector(0.0, 1.0, 0.0)),
        Ray::new(point(0.0, 0.0, -5.0), vector(1.0, 0.0, 0.0)),
        Ray::new(point(3.0, 3.0, -5.0), vector(0.0, 0.0, 1.0)),
        Ray::new(point(0.0, 5.0, 0.0), vector(0.0, 0.0, -1.0)),
    ];
    for r in rays {
        assert_eq!(Intersection::intersect_world(&w, &r).len(), 0);
        for depth in [0, 1, MAX_REFLECTION_RECURSION_DEPTH] {
            assert_eq!(World::color_at(&w, &r, depth), Color::black());
        }
    }
    let empty = World::new();
    assert_eq!(World::color_at(&empty, &rays[0], MAX_REFLECTION_RECURSION_DEPTH), Color::black());
}

#[test]
fn a_ray_whose_hits_all_lie_behind_it_brings_back_black() {
    let w = default_world();
    let r = Ray::new(point(0.0, 0.0, 5.0), vector(0.0, 0.0, 1.0));
    let xs = Intersection::intersect_world(&w, &r);
    assert_eq!(xs.len(), 4);
    assert_eq!(xs.hit(), None);
    assert_eq!(World::color_at(&w, &r, MAX_REFLECTION_RECURSION_DEPTH), Color::black());
}

#[test]
fn the_hit_record_of_a_hit_from_outside() {
    let w = world_of(white_light(-10.0, 10.0, -10.0), vec![Shape::new(ShapeEnum::Sphere)]);
    let r = Ray::new(point(0.0, 0.0, -5.0), vector(0.0, 0.0, 1.0));
    let comps = prepare(&w, &r, 0);
    assert_eq!(comps.get_t(), s(4.0));
    assert_eq!(*comps.get_shape(), w.get_shapes()[0]);
    assert_eq!(*comps.get_point(), point(0.0, 0.0, -1.0));
    assert_eq!(*comps.get_eye_vector(), vector(0.0, 0.0, -1.0));
    assert_eq!(*comps.get_normal_vector(), vector(0.0, 0.0, -1.0));
    assert!(!comps.get_inside());
    assert_eq!(comps.n1, s(1.0));
    assert_eq!(comps.n2, s(1.0));
}

#[test]
fn the_hit_record_of_a_hit_from_inside() {
    let w = world_of(white_light(-10.0, 10.0, -10.0), vec![Shape::new(ShapeEnum::Sphere)]);
    let r = Ray::new(point(0.0, 0.0, 0.0), vector(0.0, 0.0, 1.0));
    let comps = prepare(&w, &r, 1);
    assert_eq!(comps.get_t(), s(1.0));
    assert_eq!(*comps.get_point(), point(0.0, 0.0, 1.0));
    assert_eq!(*comps.get_eye_vector(), vector(0.0, 0.0, -1.0));
    assert!(comps.get_inside());
    assert_eq!(*comps.get_normal_vector(), vector(0.0, 0.0, -1.0));
}

#[test]
fn the_hit_record_lifts_the_point_off_the_surface() {
    let w = world_of(white_light(-10.0, 10.0, -10.0), vec![sphere_at(0.0, 0.0, 1.0)]);
    let r = Ray::new(point(0.0, 0.0, -5.0), vector(0.0, 0.0, 1.0));
    let comps = prepare(&w, &r, 0);
    assert_eq!(comps.point, point(0.0, 0.0, 0.0));
    assert_eq!(comps.over_point.z.raw, -EPSILON_RAW);
    assert_eq!(comps.under_point.z.raw, EPSILON_RAW);
    assert!(comps.over_point.z.raw < comps.point.z.raw);
    assert!(comps.under_point.z.raw > comps.point.z.raw);
}

#[test]
fn the_hit_record_holds_the_mirrored_direction() {
    let w = world_of(white_light(-10.0, 10.0, -10.0), vec![Shape::new(ShapeEnum::Plane)]);
    let h = 2f64.sqrt() / 2.0;
    let r = Ray::new(point(0.0, 1.0, -1.0), vector(0.0, -h, h));
    let comps = prepare(&w, &r, 0);
    assert!(near(comps.reflected_vector, vector(0.0, h, h)));
}

#[test]
fn a_hit_record_is_put_together_from_its_parts() {
    let shape = Shape::new(ShapeEnum::Sphere);
    let c = PrecomputedComponent::new(
        s(2.0),
        &shape,
        point(1.0, 2.0, 3.0),
        vector(0.0, 0.0, -1.0),
        vector(0.0, 1.0, 0.0),
        true,
        vector(1.0, 0.0, 0.0),
        point(1.0, 2.5, 3.0),
        point(1.0, 1.5, 3.0),
        s(1.0),
        s(1.5),
    );
    assert_eq!(c.get_t(), s(2.0));
    assert_eq!(*c.get_point(), point(1.0, 2.0, 3.0));
    assert_eq!(*c.get_eye_vector(), vector(0.0, 0.0, -1.0));
    assert_eq!(*c.get_normal_vector(), vector(0.0, 1.0, 0.0));
    assert!(c.get_inside());
    assert_eq!(c.reflected_vector, vector(1.0, 0.0, 0.0));
    assert_eq!(c.over_point, point(1.0, 2.5, 3.0));
    assert_eq!(c.under_point, point(1.0, 1.5, 3.0));
    assert_eq!((c.n1, c.n2), (s(1.0), s(1.5)));
}

#[test]
fn refractive_indices_on_the_way_through_three_glass_spheres() {
    let a = glass_sphere(Matrix::scale(s(2.0), s(2.0), s(2.0)), 1.5);
    let b = glass_sphere(Matrix::translation(s(0.0), s(0.0), s(-0.25)), 2.0);
    let c = glass_sphere(Matrix::translation(s(0.0), s(0.0), s(0.25)), 2.5);
    let w = world_of(white_light(-10.0, 10.0, -10.0), vec![a, b, c]);
    let r = Ray::new(point(0.0, 0.0, -4.0), vector(0.0, 0.0, 1.0));
    let xs = Intersection::intersect_world(&w, &r);
    let order: Vec<(f64, usize)> = xs.get_intersections().iter().map(|h| (f(h.t), h.shape)).collect();
    assert_eq!(order, vec![(2.0, 0), (2.75, 1), (3.25, 2), (4.75, 1), (5.25, 2), (6.0, 0)]);
    let want = [(1.0, 1.5), (1.5, 2.0), (2.0, 2.5), (2.5, 2.5), (2.5, 1.5), (1.5, 1.0)];
    for (k, (n1, n2)) in want.iter().enumerate() {
        let comps = Intersection::prepare_computations(&xs.at(k), &r, &xs, &w);
        assert_eq!((comps.n1, comps.n2), (s(*n1), s(*n2)), "hit {}", k);
    }
}

#[test]
fn a_hit_that_is_not_in_the_list_is_taken_to_be_in_the_open() {
    let w = world_of(white_light(-10.0, 10.0, -10.0), vec![glass_sphere(Matrix::new_identity_4x4(), 1.5)]);
    let r = Ray::new(point(0.0, 0.0, -5.0), vector(0.0, 0.0, 1.0));
    let stray = Intersection::new(s(4.0), 0);
    let comps = Intersection::prepare_computations(&stray, &r, &IntersectionList::new(), &w);
    assert_eq!((comps.n1, comps.n2), (s(1.0), s(1.0)));
}

#[test]
fn a_dull_surface_mirrors_nothing() {
    let mut w = default_world();
    w.get_shapes_mut()[1].get_material_mut().set_ambient(s(1.0));
    let r = Ray::new(point(0.0, 0.0, 0.0), vector(0.0, 0.0, 1.0));
    let i = Intersection::new(s(1.0), 1);
    let comps = Intersection::prepare_computations(&i, &r, &IntersectionList::new(), &w);
    assert_eq!(w.reflected_color(&comps, MAX_REFLECTION_RECURSION_DEPTH), Color::black());
}

#[test]
fn a_mirroring_floor_shows_the_sphere_above_it() {
    let mut w = default_world();
    let mut floor = plane_at(-1.0);
    floor.get_material_mut().set_reflective(s(0.5));
    w.add_shape(floor);
    let r = diagonal_down();
    let i = Intersection::new(s(2f64.sqrt()), 2);
    let comps = Intersection::prepare_computations(&i, &r, &IntersectionList::new(), &w);
    let mirrored = w.reflected_color(&comps, MAX_REFLECTION_RECURSION_DEPTH);
    assert!(near_color(&mirrored, &color(0.19032, 0.2379, 0.14274)), "{:?}", mirrored);
    let all = w.shade_hit(&comps, MAX_REFLECTION_RECURSION_DEPTH);
    assert!(near_color(&all, &color(0.87677, 0.92436, 0.82918)), "{:?}", all);
    assert_eq!(all, w.shade_hit(&comps, 1));
}

#[test]
fn with_no_depth_left_nothing_is_mirrored_or_refracted() {
    let mut w = default_world();
    let mut floor = plane_at(-1.0);
    floor.get_material_mut().set_reflective(s(0.5));
    floor.get_material_mut().set_transparency(s(0.5));
    floor.get_material_mut().set_refractive_index(s(1.5));
    w.add_shape(floor);
    let r = diagonal_down();
    let comps = prepare(&w, &r, 0);
    assert_eq!(comps.obj.kind, ShapeEnum::Plane);
    for depth in [0, -1, i32::MIN] {
        assert_eq!(w.reflected_color(&comps, depth), Color::black());
        assert_eq!(w.refracted_color(&comps, depth), Color::black());
    }
    assert_ne!(w.reflected_color(&comps, 1), Color::black());
    let surface = Material::lightning(
        &comps.obj.material,
        w.get_light(),
        &comps.over_point,
        &comps.eye_vector,
        &comps.normal_vector,
        w.is_shadowed(&comps.over_point),
    );
    assert_eq!(w.shade_hit(&comps, 0), surface);
    assert_eq!(World::color_at(&w, &r, 0), surface);
}

#[test]
fn two_mirrors_that_face_each_other_do_not_trap_the_ray() {
    let mut lower = plane_at(-1.0);
    lower.get_material_mut().set_reflective(s(1.0));
    let mut upper = plane_at(1.0);
    upper.get_material_mut().set_reflective(s(1.0));
    let w = world_of(white_light(0.0, 0.0, 0.0), vec![lower, upper]);
    let r = Ray::new(point(0.0, 0.0, 0.0), vector(0.0, 1.0, 0.0));
    let mut last = Color::black();
    for depth in 0..=MAX_REFLECTION_RECURSION_DEPTH {
        let c = World::color_at(&w, &r, depth);
        assert!(c.r.raw >= last.r.raw, "depth {}", depth);
        last = c;
    }
    assert!(last.r.raw > World::color_at(&w, &r, 0).r.raw);
    let deep = World::color_at(&w, &r, 200);
    assert!(deep.r.raw >= last.r.raw);
}

#[test]
fn an_opaque_surface_lets_nothing_through() {
    let w = default_world();
    let r = Ray::new(point(0.0, 0.0, -5.0), vector(0.0, 0.0, 1.0));
    let comps = prepare(&w, &r, 0);
    assert_eq!(w.refracted_color(&comps, 5), Color::black());
}

#[test]
fn a_surface_that_reflects_totally_lets_nothing_through() {
    let mut w = default_world();
    w.get_shapes_mut()[0].get_material_mut().set_transparency(s(1.0));
    w.get_shapes_mut()[0].get_material_mut().set_refractive_index(s(1.5));
    let h = 2f64.sqrt() / 2.0;
    let r = Ray::new(point(0.0, 0.0, h), vector(0.0, 1.0, 0.0));
    let xs = Intersection::intersect_world(&w, &r);
    let outer: Vec<Intersection> = xs.get_intersections().iter().filter(|x| x.shape == 0).cloned().collect();
    assert_eq!(outer.len(), 2);
    let comps = Intersection::prepare_computations(&outer[1], &r, &xs, &w);
    assert!(comps.inside);
    assert_eq!((comps.n1, comps.n2), (s(1.5), s(1.0)));
    assert_eq!(w.refracted_color(&comps, 5), Color::black());
}

#[test]
fn a_glass_floor_shows_what_lies_under_it() {
    let mut w = default_world();
    let mut floor = plane_at(-1.0);
    floor.get_material_mut().set_transparency(s(0.5));
    floor.get_material_mut().set_refractive_index(s(1.5));
    w.add_shape(floor);
    let mut ball = sphere_at(0.0, -3.5, -0.5);
    ball.get_material_mut().set_color(color(1.0, 0.0, 0.0));
    ball.get_material_mut().set_ambient(s(0.5));
    w.add_shape(ball);
    let r = diagonal_down();
    let xs = Intersection::intersect_world(&w, &r);
    let hit = xs.hit().unwrap();
    assert_eq!(hit.shape, 2);
    assert!((f(hit.t) - 2f64.sqrt()).abs() < 1e-6);
    let comps = Intersection::prepare_computations(&hit, &r, &xs, &w);
    let c = w.shade_hit(&comps, 5);
    assert!(near_color(&c, &color(0.93642, 0.68642, 0.68642)), "{:?}", c);
    assert_eq!(World::color_at(&w, &r, 5), c);
}

#[test]
fn colours_are_not_clamped() {
    let mut shape = Shape::new(ShapeEnum::Sphere);
    shape.get_material_mut().set_ambient(s(3.0));
    let w = world_of(white_light(0.0, 0.0, -10.0), vec![shape]);
    let r = Ray::new(point(0.0, 0.0, -5.0), vector(0.0, 0.0, 1.0));
    let c = World::color_at(&w, &r, MAX_REFLECTION_RECURSION_DEPTH);
    assert!(f(c.r) > 3.0 && f(c.g) > 3.0 && f(c.b) > 3.0);
}

#[test]
fn the_default_depth_is_ten() {
    assert_eq!(MAX_REFLECTION_RECURSION_DEPTH, 10);
}
