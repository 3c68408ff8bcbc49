use raytracer::backend::{pixel_color, shade_pixel, Backend, BackendCpu, RenderError};
use raytracer::camera::Camera;
use raytracer::canvas::{Canvas, CanvasError, Pixel};
use raytracer::color::Color;
use raytracer::matrix::Matrix;
use raytracer::ray::Ray;
use raytracer::scalar::Scalar;
use raytracer::shading::MAX_REFLECTION_RECURSION_DEPTH;
use raytracer::shape::{Shape, ShapeEnum};
use raytracer::tuple4d::Tuple4D;
use raytracer::world::{default_world, World, WorldOps};

fn s(x: f64) -> Scalar {
    Scalar { raw: (x * 4294967296.0).round() as i64 }
}

fn f(x: Scalar) -> f64 {
    x.raw as f64 / 4294967296.0
}

fn point(x: f64, y: f64, z: f64) -> Tuple4D {
    Tuple4D::new_point(s(x), s(y), s(z))
}

fn vector(x: f64, y: f64, z: f64) -> Tuple4D {
    Tuple4D::new_vector(s(x), s(y), s(z))
}

fn color(r: f64, g: f64, b: f64) -> Color {
    Color::new(s(r), s(g), s(b))
}

fn near(a: Tuple4D, b: Tuple4D) -> bool {
    let eps = 1e-5;
    (f(a.x) - f(b.x)).abs() < eps && (f(a.y) - f(b.y)).abs() < eps && (f(a.z) - f(b.z)).abs() < eps
}

fn near_color(a: &Color, b: &Color) -> bool {
    let eps = 1e-4;
    (f(a.r) - f(b.r)).abs() < eps && (f(a.g) - f(b.g)).abs() < eps && (f(a.b) - f(b.b)).abs() < eps
}

fn camera(hsize: usize, vsize: usize) -> Camera {
    let mut c = Camera::new(hsize, vsize, s(std::f64::consts::FRAC_PI_2));
    c.calc_pixel_size();
    c.set_transformation(Matrix::view_transform(
        &point(0.0, 0.0, -5.0),
        &point(0.0, 0.0, 0.0),
        &vector(0.0, 1.0, 0.0),
    ));
    c
}

fn mirror_world() -> World {
    let mut w = default_world();
    let mut floor = Shape::new(ShapeEnum::Plane);
    floor.set_transformation(Matrix::translation(s(0.0), s(-1.0), s(0.0)));
    floor.get_material_mut().set_reflective(s(0.5));
    floor.get_material_mut().set_transparency(s(0.3));
    floor.get_material_mut().set_refractive_index(s(1.5));
    w.add_shape(floor);
    w
}

#[test]
fn a_new_backend_renders_on_one_core() {
    let mut b = BackendCpu::new();
    assert!(!b.multi_core);
    assert_eq!(b.num_cores, 0);
    b.enable_multicore();
    assert!(b.multi_core);
    assert_eq!(b.num_cores, 0);
    b.enable_multicore();
    assert!(b.multi_core);
}

#[test]
fn the_size_of_a_pixel() {
    let mut wide = Camera::new(200, 125, s(std::f64::consts::FRAC_PI_2));
    assert_eq!(wide.get_pixel_size(), s(0.0));
    wide.calc_pixel_size();
    assert!((f(wide.get_pixel_size()) - 0.01).abs() < 1e-7);
    let mut tall = Camera::new(125, 200, s(std::f64::consts::FRAC_PI_2));
    tall.calc_pixel_size();
    assert!((f(tall.get_pixel_size()) - 0.01).abs() < 1e-7);
    assert_eq!(wide.get_hsize(), 200);
    assert_eq!(wide.get_vsize(), 125);
    assert!(!wide.get_antialiasing());
    assert_eq!(wide.transformation, Matrix::new_identity_4x4());
}

#[test]
fn rays_through_the_centre_and_through_a_corner() {
    let mut c = Camera::new(201, 101, s(std::f64::consts::FRAC_PI_2));
    c.calc_pixel_size();
    let centre = Camera::ray_for_pixel(&c, 100, 50);
    assert_eq!(*centre.get_origin(), point(0.0, 0.0, 0.0));
    assert!(near(*centre.get_direction(), vector(0.0, 0.0, -1.0)));
    let corner = Camera::ray_for_pixel(&c, 0, 0);
    assert_eq!(*corner.get_origin(), point(0.0, 0.0, 0.0));
    assert!(near(*corner.get_direction(), vector(0.66519, 0.33259, -0.66851)));
}

#[test]
fn rays_of_a_camera_that_was_moved_and_turned() {
    let mut c = Camera::new(201, 101, s(std::f64::consts::FRAC_PI_2));
    c.calc_pixel_size();
    let m = Matrix::rotate_y(s(std::f64::consts::FRAC_PI_4)).mul(&Matrix::translation(s(0.0), s(-2.0), s(5.0)));
    c.set_transformation(m);
    let r = Camera::ray_for_pixel(&c, 100, 50);
    let h = 2f64.sqrt() / 2.0;
    assert!(near(*r.get_origin(), point(0.0, 2.0, -5.0)));
    assert!(near(*r.get_direction(), vector(h, 0.0, -h)));
}

#[test]
fn a_jittered_ray_leaves_the_centre_of_its_pixel() {
    let mut c = Camera::new(201, 101, s(std::f64::consts::FRAC_PI_2));
    c.calc_pixel_size();
    let plain = Camera::ray_for_pixel(&c, 100, 50);
    assert_eq!(Camera::ray_for_pixel_anti_aliasing(&c, 100, 50, s(0.0), s(0.0)), plain);
    let whole = c.get_pixel_size();
    assert_eq!(
        Camera::ray_for_pixel_anti_aliasing(&c, 100, 50, whole, whole),
        Camera::ray_for_pixel(&c, 101, 51)
    );
    let quarter = Camera::ray_for_pixel_anti_aliasing(&c, 100, 50, whole.div(s(4.0)), s(0.0));
    assert!(quarter.direction.x.raw < plain.direction.x.raw);
    assert!((quarter.direction.y.raw - plain.direction.y.raw).abs() < 1000);
    assert_eq!(quarter.origin, plain.origin);
}

#[test]
fn a_new_canvas_is_black() {
    let c = Canvas::new(10, 20).unwrap();
    assert_eq!(c.get_width(), 10);
    assert_eq!(c.get_height(), 20);
    assert_eq!(c.get_pixels().len(), 200);
    for (i, p) in c.get_pixels().iter().enumerate() {
        assert_eq!(*p, Pixel { x: i % 10, y: i / 10, color: Color::black() });
    }
    assert_eq!(c.pixel_at(9, 19), Color::black());
}

#[test]
fn an_empty_canvas_has_no_pixels() {
    for (w, h) in [(0, 0), (0, 7), (7, 0)] {
        let c = Canvas::new(w, h).unwrap();
        assert_eq!(c.get_pixels().len(), 0);
        assert_eq!((c.get_width(), c.get_height()), (w, h));
    }
}

#[test]
fn a_canvas_too_large_to_count_is_refused() {
    assert!(matches!(Canvas::new(usize::MAX, 2), Err(CanvasError::InvalidDimensions)));
    assert!(matches!(Canvas::new(2, usize::MAX), Err(CanvasError::InvalidDimensions)));
    assert!(matches!(Canvas::new(usize::MAX / 2 + 1, 2), Err(CanvasError::InvalidDimensions)));
}

#[test]
fn a_pixel_is_written_and_read() {
    let mut c = Canvas::new(10, 20).unwrap();
    let red = color(1.0, 0.0, 0.0);
    c.write_pixel(2, 3, red);
    assert_eq!(c.pixel_at(2, 3), red);
    assert_eq!(c.get_pixels()[3 * 10 + 2], Pixel { x: 2, y: 3, color: red });
    assert_eq!(c.get_pixels().iter().filter(|p| p.color != Color::black()).count(), 1);
    c.write_pixel(2, 3, color(0.0, 0.5, 0.0));
    assert_eq!(c.pixel_at(2, 3), color(0.0, 0.5, 0.0));
    assert_eq!(c.pixel_at(3, 2), Color::black());
}

#[test]
fn a_render_that_cannot_have_its_buffer_fails() {
    let w = default_world();
    let c = Camera::new(usize::MAX, 2, s(1.0));
    let failure = RenderError::Buffer(CanvasError::InvalidDimensions);
    let mut b = BackendCpu::new();
    assert_eq!(b.render_world(&w, &c).err(), Some(failure));
    assert_eq!(b.render_single_core(&w, &c).err(), Some(failure));
    assert_eq!(b.render_multi_core(&w, &c).err(), Some(failure));
    let wide = Camera::new(usize::MAX, usize::MAX, s(1.0));
    assert_eq!(b.render_single_core_debug(&w, &wide).err(), Some(failure));
    b.enable_multicore();
    assert_eq!(b.render_world(&w, &c).err(), Some(failure));
}

#[test]
fn the_render_of_the_default_world() {
    let w = default_world();
    let c = camera(11, 11);
    let canvas = BackendCpu::new().render_world(&w, &c).unwrap();
    assert_eq!((canvas.get_width(), canvas.get_height()), (11, 11));
    assert!(near_color(&canvas.pixel_at(5, 5), &color(0.38066, 0.47583, 0.2855)));
    assert_eq!(canvas.pixel_at(0, 0), Color::black());
}

#[test]
fn every_pixel_has_the_colour_of_its_ray() {
    let w = mirror_world();
    let c = camera(9, 7);
    let canvas = BackendCpu::new().render_single_core(&w, &c).unwrap();
    for y in 0..7 {
        for x in 0..9 {
            let r: Ray = Camera::ray_for_pixel(&c, x, y);
            let want = World::color_at(&w, &r, MAX_REFLECTION_RECURSION_DEPTH);
            assert_eq!(canvas.pixel_at(x, y), want);
            assert_eq!(pixel_color(&w, &c, x, y), want);
        }
    }
    assert!(canvas.get_pixels().iter().any(|p| p.color != Color::black()));
}

#[test]
fn one_core_and_many_render_the_same_picture() {
    let w = mirror_world();
    let c = camera(16, 12);
    let mut b = BackendCpu::new();
    let single = b.render_world(&w, &c).unwrap();
    b.enable_multicore();
    let multi = b.render_world(&w, &c).unwrap();
    assert_eq!(single.get_pixels(), multi.get_pixels());
    assert_eq!((single.get_width(), single.get_height()), (multi.get_width(), multi.get_height()));
    assert_eq!(multi.get_pixels(), b.render_multi_core(&w, &c).unwrap().get_pixels());
    assert_eq!(single.get_pixels(), b.render_single_core(&w, &c).unwrap().get_pixels());
}

#[test]
fn rendering_on_many_cores_colours_the_pixels() {
    let w = default_world();
    let c = camera(11, 11);
    let canvas = BackendCpu::new().render_multi_core(&w, &c).unwrap();
    assert!(near_color(&canvas.pixel_at(5, 5), &color(0.38066, 0.47583, 0.2855)));
    assert_ne!(canvas.get_pixels(), Canvas::new(11, 11).unwrap().get_pixels());
    for (i, p) in canvas.get_pixels().iter().enumerate() {
        assert_eq!((p.x, p.y), (i % 11, i / 11));
    }
}

#[test]
fn one_core_and_many_agree_on_jittered_pictures() {
    let w = mirror_world();
    for size in [2, 3] {
        let mut c = camera(8, 6);
        c.set_antialiasing(true);
        c.set_antialiasing_size(size);
        assert!(c.get_antialiasing());
        assert_eq!(c.get_antialiasing_size(), size);
        let b = BackendCpu::new();
        let single = b.render_single_core(&w, &c).unwrap();
        let multi = b.render_multi_core(&w, &c).unwrap();
        assert_eq!(single.get_pixels(), multi.get_pixels());
    }
}

#[test]
fn a_jittered_pixel_is_the_mean_of_its_rays() {
    let w = default_world();
    let mut c = camera(8, 6);
    c.set_antialiasing(true);
    c.set_antialiasing_size(2);
    let quarter = s(0.25).mul(c.get_pixel_size());
    let three_quarters = s(-0.75).mul(c.get_pixel_size());
    let offsets = [
        (quarter.neg(), quarter),
        (quarter, quarter),
        (quarter.neg(), quarter.neg()),
        (quarter, three_quarters),
    ];
    let (x, y) = (4, 3);
    let mut sum = Color::black();
    for (dx, dy) in offsets {
        let r = Camera::ray_for_pixel_anti_aliasing(&c, x, y, dx, dy);
        sum = World::color_at(&w, &r, MAX_REFLECTION_RECURSION_DEPTH).add(sum);
    }
    let mean = sum.shrink(s(4.0));
    assert_eq!(pixel_color(&w, &c, x, y), mean);
    let canvas = BackendCpu::new().render_single_core(&w, &c).unwrap();
    assert_eq!(canvas.pixel_at(x, y), mean);
}

#[test]
fn nine_rays_per_pixel_soften_an_edge() {
    let w = default_world();
    let mut sharp = camera(6, 6);
    sharp.set_antialiasing(false);
    let mut soft = sharp;
    soft.set_antialiasing(true);
    soft.set_antialiasing_size(3);
    let a = BackendCpu::new().render_single_core(&w, &sharp).unwrap();
    let b = BackendCpu::new().render_single_core(&w, &soft).unwrap();
    assert_ne!(a.get_pixels(), b.get_pixels());
    let third = s(2.0).div(s(6.0)).mul(soft.get_pixel_size());
    let zero = s(0.0).mul(soft.get_pixel_size());
    let steps = [
        (third.neg(), third),
        (zero, third),
        (third, third),
        (third.neg(), zero),
        (zero, zero),
        (third, zero),
        (third.neg(), third.neg()),
        (zero, third.neg()),
        (third, third.neg()),
    ];
    let mut sum = Color::black();
    for (dx, dy) in steps {
        let r = Camera::ray_for_pixel_anti_aliasing(&soft, 2, 2, dx, dy);
        sum = World::color_at(&w, &r, MAX_REFLECTION_RECURSION_DEPTH).add(sum);
    }
    assert_eq!(b.pixel_at(2, 2), sum.shrink(s(9.0)));
}

#[test]
fn one_pixel_is_shaded_in_place() {
    let w = default_world();
    let c = camera(11, 11);
    let mut p = Pixel { x: 5, y: 5, color: color(9.0, 9.0, 9.0) };
    shade_pixel(&mut p, &w, &c);
    assert_eq!((p.x, p.y), (5, 5));
    assert_eq!(p.color, pixel_color(&w, &c, 5, 5));
    assert!(near_color(&p.color, &color(0.38066, 0.47583, 0.2855)));
}

#[test]
fn the_debug_render_colours_one_pixel() {
    let w = default_world();
    let c = camera(302, 242);
    let canvas = BackendCpu::new().render_single_core_debug(&w, &c).unwrap();
    assert_eq!((canvas.get_width(), canvas.get_height()), (302, 242));
    let r = Camera::ray_for_pixel(&c, 300, 240);
    assert_eq!(canvas.pixel_at(300, 240), World::color_at(&w, &r, MAX_REFLECTION_RECURSION_DEPTH));
    let lit = canvas.get_pixels().iter().filter(|p| p.color != Color::black()).count();
    assert!(lit <= 1);
    let mut near_camera = Camera::new(302, 242, s(0.1));
    near_camera.calc_pixel_size();
    near_camera.set_transformation(Matrix::view_transform(
        &point(0.0, 0.0, -5.0),
        &point(0.0, 0.0, 0.0),
        &vector(0.0, 1.0, 0.0),
    ));
    let close = BackendCpu::new().render_single_core_debug(&w, &near_camera).unwrap();
    assert_ne!(close.pixel_at(300, 240), Color::black());
    assert_eq!(close.get_pixels().iter().filter(|p| p.color != Color::black()).count(), 1);
}
