use raytracer::material::Material;
use raytracer::matrix::Matrix;
use raytracer::ray::Ray;
use raytracer::scalar::Scalar;
use raytracer::shape::{Cylinder, Shape, ShapeEnum};
use raytracer::tuple4d::Tuple4D;

fn s(x: f64) -> Scalar {
    Scalar { raw: (x * 4294967296.0).round() as i64 }
}

fn f(x: Scalar) -> f64 {
    x.raw as f64 / 4294967296.0
}

fn point(x: f64, y: f64, z: f64) -> Tuple4D {
    Tuple4D::new_point(s(x), s(y), s(z))
}

fn vector(x: f64, y: f64, z: f64) -> Tuple4D {
    Tuple4D::new_vector(s(x), s(y), s(z))
}

fn ray(o: (f64, f64, f64), d: (f64, f64, f64)) -> Ray {
    Ray::new(point(o.0, o.1, o.2), vector(d.0, d.1, d.2))
}

fn unit_ray(o: (f64, f64, f64), d: (f64, f64, f64)) -> Ray {
    Ray::new(point(o.0, o.1, o.2), vector(d.0, d.1, d.2).normalize())
}

fn near(a: Tuple4D, b: Tuple4D) -> bool {
    let eps = 1e-5;
    (f(a.x) - f(b.x)).abs() < eps
        && (f(a.y) - f(b.y)).abs() < eps
        && (f(a.z) - f(b.z)).abs() < eps
        && (f(a.w) - f(b.w)).abs() < eps
}

fn roots(kind: &ShapeEnum, r: &Ray) -> Vec<f64> {
    kind.local_intersect(r).iter().map(|t| f(*t)).collect()
}

fn near_roots(got: Vec<f64>, want: &[f64]) -> bool {
    got.len() == want.len() && got.iter().zip(want).all(|(g, w)| (g - w).abs() < 1e-4)
}

fn closed_cylinder(minimum: f64, maximum: f64) -> ShapeEnum {
    let mut c = Cylinder::new();
    c.set_minimum(s(minimum));
    c.set_maximum(s(maximum));
    c.set_closed(true);
    ShapeEnum::Cylinder(c)
}

#[test]
fn a_ray_meets_a_sphere_twice_or_not_at_all() {
    let sphere = ShapeEnum::Sphere;
    assert_eq!(sphere.local_intersect(&ray((0.0, 0.0, -5.0), (0.0, 0.0, 1.0))), vec![s(4.0), s(6.0)]);
    assert_eq!(sphere.local_intersect(&ray((0.0, 1.0, -5.0), (0.0, 0.0, 1.0))), vec![s(5.0), s(5.0)]);
    assert_eq!(sphere.local_intersect(&ray((0.0, 2.0, -5.0), (0.0, 0.0, 1.0))), vec![]);
    assert_eq!(sphere.local_intersect(&ray((0.0, 0.0, 0.0), (0.0, 0.0, 1.0))), vec![s(-1.0), s(1.0)]);
    assert_eq!(sphere.local_intersect(&ray((0.0, 0.0, 5.0), (0.0, 0.0, 1.0))), vec![s(-6.0), s(-4.0)]);
}

#[test]
fn a_ray_meets_a_moved_or_stretched_sphere() {
    let r = ray((0.0, 0.0, -5.0), (0.0, 0.0, 1.0));
    let mut stretched = Shape::new(ShapeEnum::Sphere);
    stretched.set_transformation(Matrix::scale(s(2.0), s(2.0), s(2.0)));
    assert_eq!(stretched.intersect(&r), vec![s(3.0), s(7.0)]);
    let mut moved = Shape::new(ShapeEnum::Sphere);
    moved.set_transformation(Matrix::translation(s(5.0), s(0.0), s(0.0)));
    assert_eq!(moved.intersect(&r), vec![]);
}

#[test]
fn a_ray_along_a_plane_never_meets_it() {
    let plane = ShapeEnum::Plane;
    assert_eq!(plane.local_intersect(&ray((0.0, 10.0, 0.0), (0.0, 0.0, 1.0))), vec![]);
    assert_eq!(plane.local_intersect(&ray((0.0, 0.0, 0.0), (0.0, 0.0, 1.0))), vec![]);
    assert_eq!(plane.local_intersect(&ray((0.0, 1.0, 0.0), (0.0, -1.0, 0.0))), vec![s(1.0)]);
    assert_eq!(plane.local_intersect(&ray((0.0, -1.0, 0.0), (0.0, 1.0, 0.0))), vec![s(1.0)]);
    assert_eq!(plane.local_intersect(&ray((0.0, 1.0, 0.0), (0.0, 1.0, 0.0))), vec![s(-1.0)]);
}

#[test]
fn a_ray_meets_a_cube_on_two_faces() {
    let cube = ShapeEnum::Cube;
    let cases = [
        ((5.0, 0.5, 0.0), (-1.0, 0.0, 0.0), 4.0, 6.0),
        ((-5.0, 0.5, 0.0), (1.0, 0.0, 0.0), 4.0, 6.0),
        ((0.5, 5.0, 0.0), (0.0, -1.0, 0.0), 4.0, 6.0),
        ((0.5, -5.0, 0.0), (0.0, 1.0, 0.0), 4.0, 6.0),
        ((0.5, 0.0, 5.0), (0.0, 0.0, -1.0), 4.0, 6.0),
        ((0.5, 0.0, -5.0), (0.0, 0.0, 1.0), 4.0, 6.0),
        ((0.0, 0.5, 0.0), (0.0, 0.0, 1.0), -1.0, 1.0),
    ];
    for (o, d, t1, t2) in cases {
        assert_eq!(cube.local_intersect(&ray(o, d)), vec![s(t1), s(t2)]);
    }
}

#[test]
fn a_ray_misses_a_cube() {
    let cube = ShapeEnum::Cube;
    let cases = [
        ((-2.0, 0.0, 0.0), (0.2673, 0.5345, 0.8018)),
        ((0.0, -2.0, 0.0), (0.8018, 0.2673, 0.5345)),
        ((0.0, 0.0, -2.0), (0.5345, 0.8018, 0.2673)),
        ((2.0, 0.0, 2.0), (0.0, 0.0, -1.0)),
        ((0.0, 2.0, 2.0), (0.0, -1.0, 0.0)),
        ((2.0, 2.0, 0.0), (-1.0, 0.0, 0.0)),
    ];
    for (o, d) in cases {
        assert_eq!(cube.local_intersect(&ray(o, d)), vec![]);
    }
}

#[test]
fn a_ray_misses_a_cylinder() {
    let cylinder = ShapeEnum::Cylinder(Cylinder::new());
    let cases = [
        ((1.0, 0.0, 0.0), (0.0, 1.0, 0.0)),
        ((0.0, 0.0, 0.0), (0.0, 1.0, 0.0)),
        ((0.0, 0.0, -5.0), (1.0, 1.0, 1.0)),
    ];
    for (o, d) in cases {
        assert_eq!(cylinder.local_intersect(&unit_ray(o, d)), vec![]);
    }
}

#[test]
fn a_ray_meets_the_wall_of_a_cylinder() {
    let cylinder = ShapeEnum::Cylinder(Cylinder::new());
    assert!(near_roots(roots(&cylinder, &unit_ray((1.0, 0.0, -5.0), (0.0, 0.0, 1.0))), &[5.0, 5.0]));
    assert!(near_roots(roots(&cylinder, &unit_ray((0.0, 0.0, -5.0), (0.0, 0.0, 1.0))), &[4.0, 6.0]));
    assert!(near_roots(roots(&cylinder, &unit_ray((0.5, 0.0, -5.0), (0.1, 1.0, 1.0))), &[6.80798, 7.08872]));
}

#[test]
fn a_cut_cylinder_is_met_between_its_ends_only() {
    let mut c = Cylinder::new();
    c.set_minimum(s(1.0));
    c.set_maximum(s(2.0));
    let cylinder = ShapeEnum::Cylinder(c);
    let cases = [
        ((0.0, 1.5, 0.0), (0.1, 1.0, 0.0), 0),
        ((0.0, 3.0, -5.0), (0.0, 0.0, 1.0), 0),
        ((0.0, 0.0, -5.0), (0.0, 0.0, 1.0), 0),
        ((0.0, 2.0, -5.0), (0.0, 0.0, 1.0), 0),
        ((0.0, 1.0, -5.0), (0.0, 0.0, 1.0), 0),
        ((0.0, 1.5, -2.0), (0.0, 0.0, 1.0), 2),
    ];
    for (o, d, count) in cases {
        assert_eq!(cylinder.local_intersect(&unit_ray(o, d)).len(), count);
    }
}

#[test]
fn a_closed_cylinder_is_met_on_its_caps() {
    let cylinder = closed_cylinder(1.0, 2.0);
    let cases = [
        ((0.0, 3.0, 0.0), (0.0, -1.0, 0.0)),
        ((0.0, 3.0, -2.0), (0.0, -1.0, 2.0)),
        ((0.0, 0.0, -2.0), (0.0, 1.0, 2.0)),
    ];
    for (o, d) in cases {
        assert_eq!(cylinder.local_intersect(&unit_ray(o, d)).len(), 2, "{:?} {:?}", o, d);
    }
    let straight_down = cylinder.local_intersect(&ray((0.0, 3.0, 0.0), (0.0, -1.0, 0.0)));
    assert_eq!(straight_down, vec![s(2.0), s(1.0)]);
}

#[test]
fn a_new_cylinder_has_no_ends_and_no_caps() {
    let c = Cylinder::new();
    assert_eq!(c.minimum.raw, i64::MIN);
    assert_eq!(c.maximum.raw, i64::MAX);
    assert!(!c.closed);
}

#[test]
fn normals_of_a_sphere() {
    let sphere = ShapeEnum::Sphere;
    assert_eq!(sphere.local_normal_at(&point(1.0, 0.0, 0.0)), vector(1.0, 0.0, 0.0));
    assert_eq!(sphere.local_normal_at(&point(0.0, 1.0, 0.0)), vector(0.0, 1.0, 0.0));
    let k = 3f64.sqrt() / 3.0;
    let shape = Shape::new(ShapeEnum::Sphere);
    let n = shape.normal_at(&point(k, k, k));
    assert!(near(n, vector(k, k, k)));
    assert!(near(n, n.normalize()));
}

#[test]
fn normals_of_a_moved_and_of_a_squeezed_sphere() {
    let mut moved = Shape::new(ShapeEnum::Sphere);
    moved.set_transformation(Matrix::translation(s(0.0), s(1.0), s(0.0)));
    assert!(near(moved.normal_at(&point(0.0, 1.70711, -0.70711)), vector(0.0, 0.70711, -0.70711)));
    let mut squeezed = Shape::new(ShapeEnum::Sphere);
    let m = Matrix::scale(s(1.0), s(0.5), s(1.0)).mul(&Matrix::rotate_z(s(std::f64::consts::PI / 5.0)));
    squeezed.set_transformation(m);
    let h = 2f64.sqrt() / 2.0;
    assert!(near(squeezed.normal_at(&point(0.0, h, -h)), vector(0.0, 0.97014, -0.24254)));
}

#[test]
fn the_normal_of_a_plane_points_up_everywhere() {
    let plane = ShapeEnum::Plane;
    assert_eq!(plane.local_normal_at(&point(0.0, 0.0, 0.0)), vector(0.0, 1.0, 0.0));
    assert_eq!(plane.local_normal_at(&point(10.0, 0.0, -10.0)), vector(0.0, 1.0, 0.0));
    assert_eq!(plane.local_normal_at(&point(-5.0, 0.0, 150.0)), vector(0.0, 1.0, 0.0));
}

#[test]
fn normals_of_a_cube_follow_the_largest_coordinate() {
    let cube = ShapeEnum::Cube;
    let cases = [
        ((1.0, 0.5, -0.8), (1.0, 0.0, 0.0)),
        ((-1.0, -0.2, 0.9), (-1.0, 0.0, 0.0)),
        ((-0.4, 1.0, -0.1), (0.0, 1.0, 0.0)),
        ((0.3, -1.0, -0.7), (0.0, -1.0, 0.0)),
        ((-0.6, 0.3, 1.0), (0.0, 0.0, 1.0)),
        ((0.4, 0.4, -1.0), (0.0, 0.0, -1.0)),
        ((1.0, 1.0, 1.0), (1.0, 0.0, 0.0)),
        ((-1.0, -1.0, -1.0), (-1.0, 0.0, 0.0)),
    ];
    for (p, n) in cases {
        assert_eq!(cube.local_normal_at(&point(p.0, p.1, p.2)), vector(n.0, n.1, n.2));
    }
}

#[test]
fn normals_of_a_cylinder() {
    let open = ShapeEnum::Cylinder(Cylinder::new());
    assert_eq!(open.local_normal_at(&point(1.0, 0.0, 0.0)), vector(1.0, 0.0, 0.0));
    assert_eq!(open.local_normal_at(&point(0.0, 5.0, -1.0)), vector(0.0, 0.0, -1.0));
    assert_eq!(open.local_normal_at(&point(-1.0, 1.0, 0.0)), vector(-1.0, 0.0, 0.0));
    let closed = closed_cylinder(1.0, 2.0);
    assert_eq!(closed.local_normal_at(&point(0.0, 1.0, 0.0)), vector(0.0, -1.0, 0.0));
    assert_eq!(closed.local_normal_at(&point(0.5, 1.0, 0.0)), vector(0.0, -1.0, 0.0));
    assert_eq!(closed.local_normal_at(&point(0.0, 2.0, 0.5)), vector(0.0, 1.0, 0.0));
    assert_eq!(closed.local_normal_at(&point(1.0, 1.5, 0.0)), vector(1.0, 0.0, 0.0));
}

#[test]
fn a_new_shape_stands_in_its_own_space() {
    let shape = Shape::new(ShapeEnum::Cube);
    assert_eq!(*shape.get_transformation(), Matrix::new_identity_4x4());
    assert_eq!(*shape.get_inverse_transformation(), Matrix::new_identity_4x4());
    assert_eq!(*shape.get_material(), Material::new());
    assert!(shape.get_casts_shadow());
    assert_eq!(shape.kind, ShapeEnum::Cube);
}

#[test]
fn a_shape_keeps_the_inverse_of_its_transformation() {
    let mut shape = Shape::new(ShapeEnum::Sphere);
    let m = Matrix::translation(s(2.0), s(3.0), s(4.0));
    shape.set_transformation(m);
    assert_eq!(*shape.get_transformation(), m);
    assert_eq!(*shape.get_inverse_transformation(), Matrix::translation(s(-2.0), s(-3.0), s(-4.0)));
    shape.set_casts_shadow(false);
    assert!(!shape.get_casts_shadow());
    shape.get_material_mut().set_ambient(s(1.0));
    assert_eq!(shape.get_material().ambient, s(1.0));
    let mut glass = Material::new();
    glass.set_transparency(s(1.0));
    glass.set_refractive_index(s(1.5));
    glass.set_shininess(300);
    shape.set_material(glass);
    assert_eq!(*shape.get_material(), glass);
    assert_eq!(*shape.get_transformation(), m);
}
