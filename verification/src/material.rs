use vstd::prelude::*;

use crate::color::{c3_add, c3_black, c3_mul, c3_scale, C3, Color};
use crate::fx::{fx_exponent, fx_pow_raw, Fx, FX_ONE};
use crate::light::PointLight;
use crate::pattern::Pattern;
use crate::point::Point;
use crate::vector::{v3_dot, v3_neg, v3_normalize, v3_reflect, v3_sub, V3, Vector};

verus! {

/// The Phong reflectance parameters of a surface: a flat base color or a
/// pattern, with ambient, diffuse and specular coefficients and the
/// shininess exponent.
#[derive(Debug, Clone, Copy, PartialEq)]
pub struct Material {
    pub color: Color,
    pub pattern: Pattern,
    pub ambient: Fx,
    pub diffuse: Fx,
    pub specular: Fx,
    pub shininess: Fx,
}

/// Raw value of the default ambient coefficient 0.1.
pub const MATERIAL_AMBIENT_RAW: i64 = 107_374_182;

/// Raw value of the default diffuse and specular coefficients 0.9.
pub const MATERIAL_DIFFUSE_RAW: i64 = 966_367_642;

/// Raw value of the default shininess exponent 200.
pub const MATERIAL_SHININESS_RAW: i64 = 214_748_364_800;

/// The default material: white, ambient 0.1, diffuse 0.9, specular 0.9,
/// shininess 200, no pattern.
pub open spec fn default_material() -> Material {
    Material {
        color: Color { r: Fx { raw: FX_ONE }, g: Fx { raw: FX_ONE }, b: Fx { raw: FX_ONE } },
        pattern: Pattern::Plain,
        ambient: Fx { raw: MATERIAL_AMBIENT_RAW },
        diffuse: Fx { raw: MATERIAL_DIFFUSE_RAW },
        specular: Fx { raw: MATERIAL_DIFFUSE_RAW },
        shininess: Fx { raw: MATERIAL_SHININESS_RAW },
    }
}

/// The Phong illumination model. The effective color is the base color
/// modulated by the light; the ambient term always contributes and is all
/// that survives in shadow; the diffuse term scales with the angle between
/// the light and the normal; the specular term scales with the angle
/// between the reflected light and the eye, raised to the shininess
/// exponent. A surface facing away from the light gets neither diffuse nor
/// specular light.
pub open spec fn lighting_spec(
    m: Material,
    point: V3,
    light: PointLight,
    eyev: V3,
    normal: V3,
    in_shadow: bool,
) -> C3 {
    let effective = c3_mul(m.color@, light.intensity@);
    let lightv = v3_normalize(v3_sub(light.position@, point));
    let ambient = c3_scale(effective, m.ambient@);
    let light_dot_normal = v3_dot(lightv, normal);
    if in_shadow {
        ambient
    } else {
        let diffuse = if light_dot_normal < 0 {
            c3_black()
        } else {
            c3_scale(c3_scale(effective, m.diffuse@), light_dot_normal)
        };
        let specular = if light_dot_normal < 0 {
            c3_black()
        } else {
            let reflectv = v3_reflect(v3_neg(lightv), normal);
            let reflect_dot_eye = v3_dot(reflectv, eyev);
            if reflect_dot_eye <= 0 {
                c3_black()
            } else {
                let factor = fx_pow_raw(reflect_dot_eye, fx_exponent(m.shininess@) as nat);
                c3_scale(c3_scale(light.intensity@, m.specular@), factor)
            }
        };
        c3_add(c3_add(ambient, diffuse), specular)
    }
}

impl Material {
    /// A material with a flat base color and no pattern.
    pub fn new(color: Color, ambient: Fx, diffuse: Fx, specular: Fx, shininess: Fx) -> (r:
        Material)
        ensures
            r.color == color,
            r.pattern is Plain,
            r.ambient == ambient,
            r.diffuse == diffuse,
            r.specular == specular,
            r.shininess == shininess,
    {
        Material { color, pattern: Pattern::Plain, ambient, diffuse, specular, shininess }
    }

    /// The Phong reflectance of this material at a surface point.
    pub fn lighting(
        &self,
        point: Point,
        light: PointLight,
        eyev: Vector,
        normal: Vector,
        in_shadow: bool,
    ) -> (r: Color)
        ensures
            r@ == lighting_spec(*self, point@, light, eyev@, normal@, in_shadow),
    {
        let effective_color = self.color.mul(light.intensity);
        let lightv = light.position.sub_point(point).normalize();
        let ambient = effective_color.scale(self.ambient);
        let light_dot_normal = lightv.dot(&normal);
        if in_shadow {
            ambient
        } else {
            let diffuse;
            let specular;
            if light_dot_normal.raw < 0 {
                diffuse = Color::black();
                specular = Color::black();
            } else {
                diffuse = effective_color.scale(self.diffuse).scale(light_dot_normal);
                let reflectv = lightv.neg().reflect(&normal);
                let reflect_dot_eye = reflectv.dot(&eyev);
                if reflect_dot_eye.raw <= 0 {
                    specular = Color::black();
                } else {
                    let factor = reflect_dot_eye.pow_int(self.shininess.round_exponent());
                    specular = light.intensity.scale(self.specular).scale(factor);
                }
            }
            ambient.add(diffuse).add(specular)
        }
    }
}

impl Default for Material {
    /// White, ambient 0.1, diffuse 0.9, specular 0.9, shininess 200.
    fn default() -> (r: Material)
        ensures
            r == default_material(),
    {
        Material {
            color: Color::white(),
            pattern: Pattern::Plain,
            ambient: Fx { raw: MATERIAL_AMBIENT_RAW },
            diffuse: Fx { raw: MATERIAL_DIFFUSE_RAW },
            specular: Fx { raw: MATERIAL_DIFFUSE_RAW },
            shininess: Fx { raw: MATERIAL_SHININESS_RAW },
        }
    }
}

} // verus!
