//! Surface materials and the local illumination model.

use vstd::prelude::*;
use crate::color::Color;
use crate::light::Light;
use crate::scalar::Scalar;
use crate::tuple4d::Tuple4D;

verus! {

/// How a surface answers to light.
#[derive(Clone, Copy, Debug, PartialEq, Eq, Structural)]
pub struct Material {
    pub color: Color,
    pub ambient: Scalar,
    pub diffuse: Scalar,
    pub specular: Scalar,
    /// Exponent of the specular highlight.
    pub shininess: u32,
    pub reflective: Scalar,
    pub transparency: Scalar,
    pub refractive_index: Scalar,
}

impl Material {
    /// White, mostly diffuse, opaque and dull.
    pub open spec fn spec_default() -> Material {
        Material {
            color: Color { r: Scalar::spec_one(), g: Scalar::spec_one(), b: Scalar::spec_one() },
            ambient: Scalar::spec_ratio(1, 10),
            diffuse: Scalar::spec_ratio(9, 10),
            specular: Scalar::spec_ratio(9, 10),
            shininess: 200,
            reflective: Scalar::spec_zero(),
            transparency: Scalar::spec_zero(),
            refractive_index: Scalar::spec_one(),
        }
    }

    pub fn new() -> (m: Material)
        ensures
            m == Material::spec_default(),
    {
        Material {
            color: Color::new(Scalar::one(), Scalar::one(), Scalar::one()),
            ambient: Scalar::ratio(1, 10),
            diffuse: Scalar::ratio(9, 10),
            specular: Scalar::ratio(9, 10),
            shininess: 200,
            reflective: Scalar::zero(),
            transparency: Scalar::zero(),
            refractive_index: Scalar::one(),
        }
    }

    pub fn set_color(&mut self, c: Color)
        ensures
            *final(self) == (Material { color: c, ..*old(self) }),
    {
        self.color = c;
    }

    pub fn set_ambient(&mut self, a: Scalar)
        ensures
            *final(self) == (Material { ambient: a, ..*old(self) }),
    {
        self.ambient = a;
    }

    pub fn set_diffuse(&mut self, d: Scalar)
        ensures
            *final(self) == (Material { diffuse: d, ..*old(self) }),
    {
        self.diffuse = d;
    }

    pub fn set_specular(&mut self, s: Scalar)
        ensures
            *final(self) == (Material { specular: s, ..*old(self) }),
    {
        self.specular = s;
    }

    pub fn set_shininess(&mut self, s: u32)
        ensures
            *final(self) == (Material { shininess: s, ..*old(self) }),
    {
        self.shininess = s;
    }

    pub fn set_reflective(&mut self, r: Scalar)
        ensures
            *final(self) == (Material { reflective: r, ..*old(self) }),
    {
        self.reflective = r;
    }

    pub fn set_transparency(&mut self, t: Scalar)
        ensures
            *final(self) == (Material { transparency: t, ..*old(self) }),
    {
        self.transparency = t;
    }

    pub fn set_refractive_index(&mut self, n: Scalar)
        ensures
            *final(self) == (Material { refractive_index: n, ..*old(self) }),
    {
        self.refractive_index = n;
    }

    pub fn get_color(&self) -> (c: &Color)
        ensures
            *c == self.color,
    {
        &self.color
    }

    /// The surface colour as the light tints it.
    pub open spec fn spec_effective_color(self, light: Light) -> Color {
        self.color.spec_blend(light.spec_intensity())
    }

    /// Light that reaches the surface from everywhere, shadowed or not.
    pub open spec fn spec_ambient_term(self, light: Light) -> Color {
        self.spec_effective_color(light).spec_scale(self.ambient)
    }

    /// The unit vector from `point` toward the light.
    pub open spec fn spec_light_vector(light: Light, point: Tuple4D) -> Tuple4D {
        light.spec_position().spec_sub(point).spec_normalize()
    }

    /// Light scattered by the surface: none where the light stands behind it.
    pub open spec fn spec_diffuse_term(self, light: Light, point: Tuple4D, normal: Tuple4D) -> Color {
        let cosine = Material::spec_light_vector(light, point).spec_dot(normal);
        if cosine.raw < 0 {
            Color::spec_black()
        } else {
            self.spec_effective_color(light).spec_scale(self.diffuse).spec_scale(cosine)
        }
    }

    /// The highlight: none where the light stands behind the surface or its
    /// mirror image points away from the eye.
    pub open spec fn spec_specular_term(self, light: Light, point: Tuple4D, eye: Tuple4D, normal: Tuple4D) -> Color {
        let lightv = Material::spec_light_vector(light, point);
        let mirrored = lightv.spec_neg().spec_reflect(normal).spec_dot(eye);
        if lightv.spec_dot(normal).raw < 0 || mirrored.raw <= 0 {
            Color::spec_black()
        } else {
            light.spec_intensity().spec_scale(self.specular).spec_scale(mirrored.spec_powi(self.shininess as nat))
        }
    }

    /// Ambient plus diffuse plus specular light at `point`; a point in shadow
    /// gets the ambient term alone.
    pub open spec fn spec_lightning(
        self,
        light: Light,
        point: Tuple4D,
        eye: Tuple4D,
        normal: Tuple4D,
        in_shadow: bool,
    ) -> Color {
        if in_shadow {
            self.spec_ambient_term(light)
        } else {
            self.spec_ambient_term(light).spec_add(self.spec_diffuse_term(light, point, normal)).spec_add(
                self.spec_specular_term(light, point, eye, normal),
            )
        }
    }

    /// Local illumination of a surface point.
    pub fn lightning(
        material: &Material,
        light: &Light,
        point: &Tuple4D,
        eye: &Tuple4D,
        normal: &Tuple4D,
        in_shadow: bool,
    ) -> (c: Color)
        ensures
            c == material.spec_lightning(*light, *point, *eye, *normal, in_shadow),
            in_shadow ==> c == material.spec_ambient_term(*light),
    {
        let effective = material.color.blend(light.get_intensity());
        let ambient = effective.scale(material.ambient);
        if in_shadow {
            return ambient;
        }
        let lightv = light.get_position().sub(*point).normalize();
        let cosine = lightv.dot(*normal);
        let mut diffuse = Color::black();
        let mut specular = Color::black();
        if cosine.raw >= 0 {
            diffuse = effective.scale(material.diffuse).scale(cosine);
            let mirrored = lightv.neg().reflect(*normal).dot(*eye);
            if mirrored.raw > 0 {
                specular = light.get_intensity().scale(material.specular).scale(mirrored.powi(material.shininess));
            }
        }
        ambient.add(diffuse).add(specular)
    }
}

} // verus!
