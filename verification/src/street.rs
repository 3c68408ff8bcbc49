//! A scene of a street: a plane between two long walls, with a few spheres
//! on it and a board at its far end.

use vstd::prelude::*;
use crate::camera::Camera;
use crate::color::Color;
use crate::coord_axes::{plain_camera, spec_matte, spec_plain_camera};
use crate::material::Material;
use crate::matrix::Matrix;
use crate::scalar::Scalar;
use crate::shape::{Shape, ShapeEnum};
use crate::world::{World, WorldOps};

verus! {

/// A material without highlight.
pub open spec fn spec_dull(color: Color, ambient: Scalar, diffuse: Scalar, reflective: Scalar) -> Material {
    Material { color, ambient, diffuse, specular: Scalar::spec_zero(), reflective, ..Material::spec_default() }
}

/// The material of the spheres: ambient `0.1`, diffuse `0.6`, reflective
/// `0.3`, without highlight.
pub open spec fn spec_glossy(color: Color) -> Material {
    spec_dull(color, Scalar::spec_ratio(1, 10), Scalar::spec_ratio(6, 10), Scalar::spec_ratio(3, 10))
}

/// A sphere, first scaled and then moved.
pub open spec fn spec_ball(material: Material, translation: Matrix, scale: Matrix) -> Shape {
    Shape::spec_new(ShapeEnum::Sphere).spec_with_material(material).spec_with_transformation(
        translation.spec_mul(scale),
    )
}

/// A cube, first scaled and then moved, that casts no shadow.
pub open spec fn spec_block(material: Material, translation: Matrix, scale: Matrix) -> Shape {
    Shape::spec_new(ShapeEnum::Cube).spec_with_material(material).spec_with_transformation(
        translation.spec_mul(scale),
    ).spec_with_casts_shadow(false)
}

/// The red sphere at the origin.
pub open spec fn spec_red_ball() -> Shape {
    let n = Scalar::spec_zero();
    let s = Scalar::spec_ratio(2, 10);
    spec_ball(
        spec_glossy(Color { r: Scalar::spec_one(), g: n, b: n }),
        Matrix::spec_translation(n, n, n),
        Matrix::spec_scale(s, s, s),
    )
}

/// The orange board at the far end, lit by itself.
pub open spec fn spec_board() -> Shape {
    let n = Scalar::spec_zero();
    let o = Scalar::spec_one();
    spec_block(
        spec_dull(Color { r: o, g: Scalar::spec_ratio(1, 2), b: Scalar::spec_ratio(2, 10) }, o, n, n),
        Matrix::spec_translation(n, Scalar::spec_from_int(3), Scalar::spec_from_int(40)),
        Matrix::spec_scale(o, o, Scalar::spec_ratio(1, 100)),
    )
}

/// The green ground.
pub open spec fn spec_ground() -> Shape {
    let n = Scalar::spec_zero();
    Shape::spec_new(ShapeEnum::Plane).spec_with_material(
        spec_dull(
            Color { r: n, g: Scalar::spec_ratio(1, 2), b: n },
            Scalar::spec_ratio(25, 1000),
            Scalar::spec_ratio(67, 100),
            n,
        ),
    )
}

/// A long grey wall at `x` beside the street.
pub open spec fn spec_wall(x: int) -> Shape {
    let half = Scalar::spec_ratio(1, 2);
    spec_block(
        spec_matte(Color { r: half, g: half, b: half }),
        Matrix::spec_translation(Scalar::spec_from_int(x), half, Scalar::spec_zero()),
        Matrix::spec_scale(Scalar::spec_ratio(1, 100), Scalar::spec_ratio(2, 10), Scalar::spec_from_int(100)),
    )
}

/// A bluish sphere with its centre at `(x, 0, z)`, scaled by `sx` across
/// and `sz` along the street.
pub open spec fn spec_blue_ball(x: int, z: int, sx: Scalar, sz: Scalar) -> Shape {
    let half = Scalar::spec_ratio(1, 2);
    let n = Scalar::spec_zero();
    spec_ball(
        spec_glossy(Color { r: half, g: half, b: Scalar::spec_one() }),
        Matrix::spec_translation(Scalar::spec_from_int(x), n, Scalar::spec_from_int(z)),
        Matrix::spec_scale(sx, sx, sz),
    )
}

/// The shapes of the street, in the order in which the scene holds them.
pub open spec fn spec_street() -> Seq<Shape> {
    let tenth = Scalar::spec_ratio(1, 10);
    let three_tenths = Scalar::spec_ratio(3, 10);
    Seq::empty().push(spec_red_ball()).push(spec_board()).push(spec_ground()).push(spec_wall(-1)).push(
        spec_wall(1),
    ).push(spec_blue_ball(0, 0, tenth, three_tenths)).push(spec_blue_ball(1, 0, tenth, tenth)).push(
        spec_blue_ball(1, 3, three_tenths, three_tenths),
    )
}

fn dull(color: Color, ambient: Scalar, diffuse: Scalar, reflective: Scalar) -> (m: Material)
    ensures
        m == spec_dull(color, ambient, diffuse, reflective),
{
    let mut m = Material::new();
    m.set_color(color);
    m.set_ambient(ambient);
    m.set_diffuse(diffuse);
    m.set_specular(Scalar::zero());
    m.set_reflective(reflective);
    m
}

fn glossy(color: Color) -> (m: Material)
    ensures
        m == spec_glossy(color),
{
    dull(color, Scalar::ratio(1, 10), Scalar::ratio(6, 10), Scalar::ratio(3, 10))
}

fn ball(material: Material, translation: Matrix, scale: Matrix) -> (s: Shape)
    ensures
        s == spec_ball(material, translation, scale),
{
    let mut s = Shape::new(ShapeEnum::Sphere);
    s.set_material(material);
    s.set_transformation(translation.mul(&scale));
    s
}

fn block(material: Material, translation: Matrix, scale: Matrix) -> (s: Shape)
    ensures
        s == spec_block(material, translation, scale),
{
    let mut s = Shape::new(ShapeEnum::Cube);
    s.set_material(material);
    s.set_transformation(translation.mul(&scale));
    s.set_casts_shadow(false);
    s
}

fn red_ball() -> (s: Shape)
    ensures
        s == spec_red_ball(),
{
    let n = Scalar::zero();
    let s = Scalar::ratio(2, 10);
    ball(glossy(Color::new(Scalar::one(), n, n)), Matrix::translation(n, n, n), Matrix::scale(s, s, s))
}

fn board() -> (s: Shape)
    ensures
        s == spec_board(),
{
    let n = Scalar::zero();
    let o = Scalar::one();
    block(
        dull(Color::new(o, Scalar::ratio(1, 2), Scalar::ratio(2, 10)), o, n, n),
        Matrix::translation(n, Scalar::from_int(3), Scalar::from_int(40)),
        Matrix::scale(o, o, Scalar::ratio(1, 100)),
    )
}

fn ground() -> (s: Shape)
    ensures
        s == spec_ground(),
{
    let n = Scalar::zero();
    let mut s = Shape::new(ShapeEnum::Plane);
    s.set_material(
        dull(Color::new(n, Scalar::ratio(1, 2), n), Scalar::ratio(25, 1000), Scalar::ratio(67, 100), n),
    );
    s
}

fn wall(x: i32) -> (s: Shape)
    ensures
        s == spec_wall(x as int),
{
    let half = Scalar::ratio(1, 2);
    let mut material = Material::new();
    material.set_color(Color::new(half, half, half));
    material.set_ambient(Scalar::ratio(3, 10));
    material.set_diffuse(Scalar::ratio(6, 10));
    material.set_specular(Scalar::zero());
    material.set_reflective(Scalar::ratio(1, 10));
    block(
        material,
        Matrix::translation(Scalar::from_int(x), half, Scalar::zero()),
        Matrix::scale(Scalar::ratio(1, 100), Scalar::ratio(2, 10), Scalar::from_int(100)),
    )
}

fn blue_ball(x: i32, z: i32, sx: Scalar, sz: Scalar) -> (s: Shape)
    ensures
        s == spec_blue_ball(x as int, z as int, sx, sz),
{
    let half = Scalar::ratio(1, 2);
    let n = Scalar::zero();
    ball(
        glossy(Color::new(half, half, Scalar::one())),
        Matrix::translation(Scalar::from_int(x), n, Scalar::from_int(z)),
        Matrix::scale(sx, sx, sz),
    )
}

/// The street and a camera for `width` by `height` pixels.
pub fn setup_world(width: usize, height: usize) -> (r: (World, Camera))
    ensures
        r.0.shapes@ == spec_street(),
        r.0.light == World::spec_unlit(),
        r.1 == spec_plain_camera(width, height, Scalar::spec_ratio(1, 2)),
{
    let tenth = Scalar::ratio(1, 10);
    let three_tenths = Scalar::ratio(3, 10);
    let sphere1 = red_ball();
    let cube = board();
    let plane = ground();
    let border_left = wall(-1);
    let border_right = wall(1);
    let sphere2 = blue_ball(0, 0, tenth, three_tenths);
    let sphere2_clone = blue_ball(1, 0, tenth, tenth);
    let sphere2_clone_clone = blue_ball(1, 3, three_tenths, three_tenths);

    let mut w = World::new();
    w.add_shape(sphere1);
    w.add_shape(cube);
    w.add_shape(plane);
    w.add_shape(border_left);
    w.add_shape(border_right);
    w.add_shape(sphere2);
    w.add_shape(sphere2_clone);
    w.add_shape(sphere2_clone_clone);
    let c = plain_camera(width, height, Scalar::ratio(1, 2));
    (w, c)
}

} // verus!
