//! A scene that shows the three coordinate axes, and parts to build on it.

use vstd::prelude::*;
use crate::camera::Camera;
use crate::color::Color;
use crate::material::Material;
use crate::matrix::Matrix;
use crate::scalar::Scalar;
use crate::shape::{Cylinder, Shape, ShapeEnum};
use crate::world::{World, WorldOps};

verus! {

/// The colour with whole-number channels `r`, `g`, `b`.
pub open spec fn spec_rgb(r: int, g: int, b: int) -> Color {
    Color { r: Scalar::spec_from_int(r), g: Scalar::spec_from_int(g), b: Scalar::spec_from_int(b) }
}

/// A slightly mirroring material without highlight: ambient `0.3`, diffuse
/// `0.6`, specular `0`, reflective `0.1`.
pub open spec fn spec_matte(color: Color) -> Material {
    Material {
        color,
        ambient: Scalar::spec_ratio(3, 10),
        diffuse: Scalar::spec_ratio(6, 10),
        specular: Scalar::spec_zero(),
        reflective: Scalar::spec_ratio(1, 10),
        ..Material::spec_default()
    }
}

/// `translation * (rotation * scale)`: scale first, then rotate, then move.
pub open spec fn spec_compose(translation: Matrix, rotation: Matrix, scale: Matrix) -> Matrix {
    translation.spec_mul(rotation.spec_mul(scale))
}

/// The floor: a white, flat slab of `6` by `20` that casts no shadow.
pub open spec fn spec_floor() -> Shape {
    Shape::spec_new(ShapeEnum::Cube).spec_with_material(spec_matte(spec_rgb(1, 1, 1))).spec_with_transformation(
        Matrix::spec_scale(Scalar::spec_from_int(3), Scalar::spec_ratio(1, 100), Scalar::spec_from_int(10)),
    ).spec_with_casts_shadow(false)
}

/// A border: a thin wall of the default material in the given colour, at
/// `x` beside the z axis, that casts no shadow.
pub open spec fn spec_border(color: Color, x: int) -> Shape {
    let length = Scalar::spec_from_int(1);
    let height = Scalar::spec_ratio(1, 10);
    let thick = Scalar::spec_ratio(1, 100);
    Shape::spec_new(ShapeEnum::Cube).spec_with_material(
        Material { color, ..Material::spec_default() },
    ).spec_with_transformation(
        spec_compose(
            Matrix::spec_translation(Scalar::spec_from_int(x), height, length),
            Matrix::spec_identity(),
            Matrix::spec_scale(thick, height, length),
        ),
    ).spec_with_casts_shadow(false)
}

/// An axis: a closed cylinder of radius `0.05` and length `2` in the given
/// colour, turned by `rotation` out of the y axis.
pub open spec fn spec_axis(color: Color, rotation: Matrix) -> Shape {
    let radius = Scalar::spec_ratio(5, 100);
    let n = Scalar::spec_zero();
    Shape::spec_new(
        ShapeEnum::Cylinder(Cylinder { minimum: n, maximum: Scalar::spec_one(), closed: true }),
    ).spec_with_material(spec_matte(color)).spec_with_transformation(
        spec_compose(
            Matrix::spec_translation(n, n, n),
            rotation,
            Matrix::spec_scale(radius, Scalar::spec_from_int(2), radius),
        ),
    ).spec_with_casts_shadow(false)
}

/// A unit sphere of the given material with its centre at `(x, y, z)`, that
/// casts no shadow.
pub open spec fn spec_marker(material: Material, x: int, y: int, z: int) -> Shape {
    Shape::spec_new(ShapeEnum::Sphere).spec_with_material(material).spec_with_transformation(
        Matrix::spec_translation(Scalar::spec_from_int(x), Scalar::spec_from_int(y), Scalar::spec_from_int(z)),
    ).spec_with_casts_shadow(false)
}

/// A quarter turn.
pub open spec fn spec_quarter_turn() -> Scalar {
    Scalar::spec_pi().spec_div(Scalar::spec_from_int(2))
}

/// A quarter turn the other way.
pub open spec fn spec_quarter_turn_back() -> Scalar {
    Scalar::spec_pi().spec_neg().spec_div(Scalar::spec_from_int(2))
}

/// `shapes` and behind them the three axes: x in red, y in green, z in blue.
pub open spec fn spec_with_axes(shapes: Seq<Shape>) -> Seq<Shape> {
    shapes.push(spec_axis(spec_rgb(1, 0, 0), Matrix::spec_rotate_z(spec_quarter_turn_back()))).push(
        spec_axis(spec_rgb(0, 1, 0), Matrix::spec_rotate_y(spec_quarter_turn())),
    ).push(spec_axis(spec_rgb(0, 0, 1), Matrix::spec_rotate_x(spec_quarter_turn())))
}

/// `shapes` and behind them the three spheres that mark the unit points of
/// the axes, in the colours of their axes: x, y, z.
pub open spec fn spec_with_markers(shapes: Seq<Shape>) -> Seq<Shape> {
    shapes.push(spec_marker(Material { color: spec_rgb(1, 0, 0), ..Material::spec_default() }, 1, 0, 0)).push(
        spec_marker(Material { color: spec_rgb(0, 1, 0), ..Material::spec_default() }, 0, 1, 0),
    ).push(
        spec_marker(
            Material { color: spec_rgb(0, 0, 1), ambient: Scalar::spec_ratio(3, 10), ..Material::spec_default() },
            0,
            0,
            1,
        ),
    )
}

/// A camera for `width` by `height` pixels with the given angle of view,
/// one ray per pixel, ready to give rays.
pub open spec fn spec_plain_camera(width: usize, height: usize, field_of_view: Scalar) -> Camera {
    Camera::spec_new(width, height, field_of_view).spec_with_pixel_size()
}

fn rgb(r: i32, g: i32, b: i32) -> (c: Color)
    ensures
        c == spec_rgb(r as int, g as int, b as int),
{
    Color::new(Scalar::from_int(r), Scalar::from_int(g), Scalar::from_int(b))
}

fn matte(color: Color) -> (m: Material)
    ensures
        m == spec_matte(color),
{
    let mut m = Material::new();
    m.set_color(color);
    m.set_ambient(Scalar::ratio(3, 10));
    m.set_diffuse(Scalar::ratio(6, 10));
    m.set_specular(Scalar::zero());
    m.set_reflective(Scalar::ratio(1, 10));
    m
}

fn border(color: Color, x: i32) -> (s: Shape)
    ensures
        s == spec_border(color, x as int),
{
    let length = Scalar::from_int(1);
    let height = Scalar::ratio(1, 10);
    let thick = Scalar::ratio(1, 100);
    let mut s = Shape::new(ShapeEnum::Cube);
    s.get_material_mut().set_color(color);
    let m_trans = Matrix::translation(Scalar::from_int(x), height, length);
    let m_rot = Matrix::new_identity_4x4();
    let m_scale = Matrix::scale(thick, height, length);
    s.set_transformation(m_trans.mul(&m_rot.mul(&m_scale)));
    s.set_casts_shadow(false);
    s
}

fn axis(color: Color, rotation: Matrix) -> (s: Shape)
    ensures
        s == spec_axis(color, rotation),
{
    let radius = Scalar::ratio(5, 100);
    let len = Scalar::from_int(2);
    let mut cylinder = Cylinder::new();
    cylinder.set_minimum(Scalar::zero());
    cylinder.set_maximum(Scalar::one());
    cylinder.set_closed(true);
    let mut s = Shape::new(ShapeEnum::Cylinder(cylinder));
    s.set_material(matte(color));
    let m_trans = Matrix::translation(Scalar::zero(), Scalar::zero(), Scalar::zero());
    let m_scale = Matrix::scale(radius, len, radius);
    s.set_transformation(m_trans.mul(&rotation.mul(&m_scale)));
    s.set_casts_shadow(false);
    s
}

fn marker(material: Material, x: i32, y: i32, z: i32) -> (s: Shape)
    ensures
        s == spec_marker(material, x as int, y as int, z as int),
{
    let mut s = Shape::new(ShapeEnum::Sphere);
    s.set_material(material);
    s.set_transformation(Matrix::translation(Scalar::from_int(x), Scalar::from_int(y), Scalar::from_int(z)));
    s.set_casts_shadow(false);
    s
}

/// Lays the floor under whatever the scene holds.
pub fn add_floor(world: &mut World)
    ensures
        final(world).shapes@ == old(world).shapes@.push(spec_floor()),
        final(world).light == old(world).light,
{
    let mut floor = Shape::new(ShapeEnum::Cube);
    floor.set_material(matte(rgb(1, 1, 1)));
    let m_scale = Matrix::scale(Scalar::from_int(3), Scalar::ratio(1, 100), Scalar::from_int(10));
    floor.set_transformation(m_scale);
    floor.set_casts_shadow(false);
    world.add_shape(floor);
}

/// Puts a magenta border at the left and a yellow one at the right.
pub fn add_borders(world: &mut World)
    ensures
        final(world).shapes@ == old(world).shapes@.push(spec_border(spec_rgb(1, 0, 1), -1)).push(
            spec_border(spec_rgb(1, 1, 0), 1),
        ),
        final(world).light == old(world).light,
{
    let left_border = border(rgb(1, 0, 1), -1);
    let right_border = border(rgb(1, 1, 0), 1);
    world.add_shape(left_border);
    world.add_shape(right_border);
}

fn quarter_turn() -> (a: Scalar)
    ensures
        a == spec_quarter_turn(),
{
    Scalar::pi().div(Scalar::from_int(2))
}

fn quarter_turn_back() -> (a: Scalar)
    ensures
        a == spec_quarter_turn_back(),
{
    Scalar::pi().neg().div(Scalar::from_int(2))
}

fn add_axes(world: &mut World)
    ensures
        final(world).shapes@ == spec_with_axes(old(world).shapes@),
        final(world).light == old(world).light,
{
    let x_axis = axis(rgb(1, 0, 0), Matrix::rotate_z(quarter_turn_back()));
    let y_axis = axis(rgb(0, 1, 0), Matrix::rotate_y(quarter_turn()));
    let z_axis = axis(rgb(0, 0, 1), Matrix::rotate_x(quarter_turn()));
    world.add_shape(x_axis);
    world.add_shape(y_axis);
    world.add_shape(z_axis);
}

fn add_markers(world: &mut World)
    ensures
        final(world).shapes@ == spec_with_markers(old(world).shapes@),
        final(world).light == old(world).light,
{
    let mut blue = Material::new();
    blue.set_color(rgb(0, 0, 1));
    blue.set_ambient(Scalar::ratio(3, 10));
    let sphere_z = marker(blue, 0, 0, 1);

    let mut green = Material::new();
    green.set_color(rgb(0, 1, 0));
    let sphere_y = marker(green, 0, 1, 0);

    let mut red = Material::new();
    red.set_color(rgb(1, 0, 0));
    let sphere_x = marker(red, 1, 0, 0);

    world.add_shape(sphere_x);
    world.add_shape(sphere_y);
    world.add_shape(sphere_z);
}

/// A camera for `width` by `height` pixels with the given angle of view,
/// one ray per pixel, ready to give rays.
pub fn plain_camera(width: usize, height: usize, field_of_view: Scalar) -> (c: Camera)
    ensures
        c == spec_plain_camera(width, height, field_of_view),
{
    let mut c = Camera::new(width, height, field_of_view);
    c.set_antialiasing(false);

    c.calc_pixel_size();
    c
}

/// The scene of the three axes, with or without the spheres that mark their
/// unit points, and a camera for `width` by `height` pixels.
pub fn setup_world_coord_axes(width: usize, height: usize, show_axis_shperes: bool) -> (r: (World, Camera))
    ensures
        r.0.shapes@ == (if show_axis_shperes {
            spec_with_markers(spec_with_axes(Seq::empty()))
        } else {
            spec_with_axes(Seq::empty())
        }),
        r.0.light == World::spec_unlit(),
        r.1 == spec_plain_camera(width, height, Scalar::spec_ratio(6, 10)),
{
    let mut w = World::new();
    add_axes(&mut w);
    if show_axis_shperes {
        add_markers(&mut w);
    }
    let c = plain_camera(width, height, Scalar::ratio(6, 10));
    (w, c)
}

} // verus!
