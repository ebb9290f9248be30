use raytracer::color::Color;
use raytracer::fx::{approx, Fx};
use raytracer::light::PointLight;
use raytracer::material::Material;
use raytracer::matrix::Matrix;
use raytracer::pattern::{
    CheckerPattern, GradientPattern, Pattern, RingPattern, StripePattern,
};
use raytracer::point::Point;
use raytracer::shape::Object;
use raytracer::sphere::Sphere;
use raytracer::vector::Vector;

fn fx(v: f64) -> Fx {
    Fx::from_raw((v * 1_073_741_824.0).round() as i64)
}

fn equal(a: Fx, b: f64) -> bool {
    approx(a, fx(b))
}

fn point(x: f64, y: f64, z: f64) -> Point {
    Point::new(fx(x), fx(y), fx(z))
}

fn vector(x: f64, y: f64, z: f64) -> Vector {
    Vector::new(fx(x), fx(y), fx(z))
}

fn color(r: f64, g: f64, b: f64) -> Color {
    Color::new(fx(r), fx(g), fx(b))
}

#[test]
fn new_point_light() {
    let l = PointLight::default();

    assert!(l.position.approx_eq(&Point::default()));
    assert!(l.intensity.approx_eq(&color(1.0, 1.0, 1.0)));
}

#[test]
fn new_material() {
    let m = Material::default();
    assert!(m.color.approx_eq(&color(1.0, 1.0, 1.0)));
    assert!(equal(m.ambient, 0.1));
    assert!(equal(m.diffuse, 0.9));
    assert!(equal(m.specular, 0.9));
    assert!(equal(m.shininess, 200.0));
}

#[test]
fn lighting_straight() {
    let eye = vector(0.0, 0.0, -1.0);
    let normal = vector(0.0, 0.0, -1.0);
    let light = PointLight::new(point(0.0, 0.0, -10.0), Color::default());

    assert!(Material::default().lighting(Point::default(), light, eye, normal, false).approx_eq(
        &color(1.9, 1.9, 1.9)
    ));
}

#[test]
fn lighting_eye_45_degrees() {
    let eye = vector(0.0, 2_f64.sqrt() / 2.0, -(2_f64.sqrt()) / 2.0);
    let normal = vector(0.0, 0.0, -1.0);
    let light = PointLight::new(point(0.0, 0.0, -10.0), Color::default());

    assert!(Material::default().lighting(Point::default(), light, eye, normal, false).approx_eq(
        &color(1.0, 1.0, 1.0)
    ));
}

#[test]
fn lighting_light_45_degrees() {
    let eye = vector(0.0, 0.0, -1.0);
    let normal = vector(0.0, 0.0, -1.0);
    let light = PointLight::new(point(0.0, 10.0, -10.0), Color::default());

    assert!(Material::default().lighting(Point::default(), light, eye, normal, false).approx_eq(
        &color(0.7364, 0.7364, 0.7364)
    ));
}

#[test]
fn lighting_eye_light_45_degrees() {
    let eye = vector(0.0, -(2_f64.sqrt()) / 2.0, -(2_f64.sqrt()) / 2.0);
    let normal = vector(0.0, 0.0, -1.0);
    let light = PointLight::new(point(0.0, 10.0, -10.0), Color::default());

    assert!(Material::default().lighting(Point::default(), light, eye, normal, false).approx_eq(
        &color(1.6364, 1.6364, 1.6364)
    ));
}

#[test]
fn lighting_behind() {
    let eye = vector(0.0, 0.0, -1.0);
    let normal = vector(0.0, 0.0, -1.0);
    let light = PointLight::new(point(0.0, 0.0, 10.0), Color::default());

    assert!(Material::default().lighting(Point::default(), light, eye, normal, false).approx_eq(
        &color(0.1, 0.1, 0.1)
    ));
}

#[test]
fn lighting_in_shadow() {
    let eye = vector(0.0, 0.0, -1.0);
    let normal = vector(0.0, 0.0, -1.0);
    let light = PointLight::new(point(0.0, 0.0, -10.0), Color::default());

    assert!(Material::default().lighting(Point::default(), light, eye, normal, true).approx_eq(
        &color(0.1, 0.1, 0.1)
    ));
}

#[test]
fn default_striped_pattern() {
    let pattern = StripePattern::default();
    assert!(pattern.color1.approx_eq(&Color::white()));
    assert!(pattern.color2.approx_eq(&Color::black()));
}

#[test]
fn stripe_at_x() {
    let pattern = StripePattern::default();
    assert!(pattern.color_at(point(0.0, 0.0, 0.0)).approx_eq(&Color::white()));
    assert!(pattern.color_at(point(0.9, 0.0, 0.0)).approx_eq(&Color::white()));
    assert!(pattern.color_at(point(1.0, 0.0, 0.0)).approx_eq(&Color::black()));
    assert!(pattern.color_at(point(-0.1, 0.0, 0.0)).approx_eq(&Color::black()));
    assert!(pattern.color_at(point(-1.0, 0.0, 0.0)).approx_eq(&Color::black()));
    assert!(pattern.color_at(point(-1.1, 0.0, 0.0)).approx_eq(&Color::white()));
}

#[test]
fn stripe_at_y() {
    let pattern = StripePattern::default();
    assert!(pattern.color_at(point(0.0, 0.0, 0.0)).approx_eq(&Color::white()));
    assert!(pattern.color_at(point(0.0, 1.0, 0.0)).approx_eq(&Color::white()));
    assert!(pattern.color_at(point(0.0, 2.0, 0.0)).approx_eq(&Color::white()));
}

#[test]
fn stripe_at_z() {
    let pattern = StripePattern::default();
    assert!(pattern.color_at(point(0.0, 0.0, 0.0)).approx_eq(&Color::white()));
    assert!(pattern.color_at(point(0.0, 0.0, 1.0)).approx_eq(&Color::white()));
    assert!(pattern.color_at(point(0.0, 0.0, 2.0)).approx_eq(&Color::white()));
}

#[test]
fn default_gradient_pattern() {
    let pattern = GradientPattern::default();
    assert!(pattern.color1.approx_eq(&Color::white()));
    assert!(pattern.color2.approx_eq(&Color::black()));
}

#[test]
fn gradient_at_x() {
    let pattern = GradientPattern::default();
    assert!(pattern.color_at(point(0.0, 0.0, 0.0)).approx_eq(&Color::white()));
    assert!(pattern.color_at(point(0.25, 0.0, 0.0)).approx_eq(&color(0.75, 0.75, 0.75)));
    assert!(pattern.color_at(point(0.5, 0.0, 0.0)).approx_eq(&color(0.5, 0.5, 0.5)));
    assert!(pattern.color_at(point(0.75, 0.0, 0.0)).approx_eq(&color(0.25, 0.25, 0.25)));
}

#[test]
fn gradient_at_y() {
    let pattern = GradientPattern::default();
    assert!(pattern.color_at(point(0.0, 0.0, 0.0)).approx_eq(&Color::white()));
    assert!(pattern.color_at(point(0.0, 1.0, 0.0)).approx_eq(&Color::white()));
    assert!(pattern.color_at(point(0.0, 2.0, 0.0)).approx_eq(&Color::white()));
}

#[test]
fn gradient_at_z() {
    let pattern = GradientPattern::default();
    assert!(pattern.color_at(point(0.0, 0.0, 0.0)).approx_eq(&Color::white()));
    assert!(pattern.color_at(point(0.0, 0.0, 1.0)).approx_eq(&Color::white()));
    assert!(pattern.color_at(point(0.0, 0.0, 2.0)).approx_eq(&Color::white()));
}

#[test]
fn default_ring_pattern() {
    let pattern = StripePattern::default();
    assert!(pattern.color1.approx_eq(&Color::white()));
    assert!(pattern.color2.approx_eq(&Color::black()));
}

#[test]
fn ring_at_x() {
    let pattern = RingPattern::default();
    assert!(pattern.color_at(point(0.0, 0.0, 0.0)).approx_eq(&Color::white()));
    assert!(pattern.color_at(point(0.9, 0.0, 0.0)).approx_eq(&Color::white()));
    assert!(pattern.color_at(point(1.0, 0.0, 0.0)).approx_eq(&Color::black()));
    assert!(pattern.color_at(point(-0.1, 0.0, 0.0)).approx_eq(&Color::white()));
    assert!(pattern.color_at(point(-1.0, 0.0, 0.0)).approx_eq(&Color::black()));
    assert!(pattern.color_at(point(-1.1, 0.0, 0.0)).approx_eq(&Color::black()));
}

#[test]
fn ring_at_y() {
    let pattern = RingPattern::default();
    assert!(pattern.color_at(point(0.0, 0.0, 0.0)).approx_eq(&Color::white()));
    assert!(pattern.color_at(point(0.0, 1.0, 0.0)).approx_eq(&Color::white()));
    assert!(pattern.color_at(point(0.0, 2.0, 0.0)).approx_eq(&Color::white()));
}

#[test]
fn ring_at_z() {
    let pattern = RingPattern::default();
    assert!(pattern.color_at(point(0.0, 0.0, 0.0)).approx_eq(&Color::white()));
    assert!(pattern.color_at(point(0.0, 0.0, 0.9)).approx_eq(&Color::white()));
    assert!(pattern.color_at(point(0.0, 0.0, 1.0)).approx_eq(&Color::black()));
    assert!(pattern.color_at(point(0.0, 0.0, -0.1)).approx_eq(&Color::white()));
    assert!(pattern.color_at(point(0.0, 0.0, -1.0)).approx_eq(&Color::black()));
    assert!(pattern.color_at(point(0.0, 0.0, -1.1)).approx_eq(&Color::black()));
}

#[test]
fn checker_at() {
    let pattern = CheckerPattern::default();
    assert!(pattern.color_at(point(0.0, 0.0, 0.0)).approx_eq(&Color::white()));
    assert!(pattern.color_at(point(0.0, 0.9, 0.9)).approx_eq(&Color::white()));
    assert!(pattern.color_at(point(1.0, 0.0, 1.0)).approx_eq(&Color::white()));
    assert!(pattern.color_at(point(0.0, -0.1, 0.0)).approx_eq(&Color::black()));
    assert!(pattern.color_at(point(-1.0, -1.0, -1.0)).approx_eq(&Color::black()));
    assert!(pattern.color_at(point(-1.1, -1.1, 0.0)).approx_eq(&Color::white()));
}

#[test]
fn stripe_with_object_transform() {
    let sphere = Object::Sphere(Sphere::new(
        Matrix::scaling(Vector::new(fx(2.0), fx(2.0), fx(2.0))),
        Material::default(),
    ));
    let pattern = Pattern::Stripe(StripePattern::default());
    assert!(pattern.color_at_object(&sphere, point(1.5, 0.0, 0.0)).approx_eq(&Color::white()));

    let mut scaled = Pattern::Stripe(StripePattern::default());
    scaled.set_transform(Matrix::scaling(Vector::new(fx(2.0), fx(2.0), fx(2.0))));
    let unit = Object::Sphere(Sphere::default());
    assert!(scaled.color_at_object(&unit, point(1.5, 0.0, 0.0)).approx_eq(&Color::white()));
}
