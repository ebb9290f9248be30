use raytracer::fx::{approx, Fx};
use raytracer::material::Material;
use raytracer::matrix::Matrix;
use raytracer::plane::Plane;
use raytracer::point::Point;
use raytracer::ray::Ray;
use raytracer::shape::Object;
use raytracer::sphere::Sphere;
use raytracer::vector::{unit_y, unit_z, Vector};
use raytracer::color::Color;

fn fx(v: f64) -> Fx {
    Fx::from_raw((v * 1_073_741_824.0).round() as i64)
}

fn equal(a: Fx, b: f64) -> bool {
    approx(a, fx(b))
}

fn point(x: f64, y: f64, z: f64) -> Point {
    Point::new(fx(x), fx(y), fx(z))
}

fn vector(x: f64, y: f64, z: f64) -> Vector {
    Vector::new(fx(x), fx(y), fx(z))
}

const PI: f64 = std::f64::consts::PI;

#[test]
fn sphere_normals() {
    let s = Sphere::default();

    assert!(s.local_normal_at(point(1.0, 0.0, 0.0)).approx_eq(&vector(1.0, 0.0, 0.0)));
    assert!(s.local_normal_at(point(0.0, 1.0, 0.0)).approx_eq(&vector(0.0, 1.0, 0.0)));
    assert!(s.local_normal_at(point(0.0, 0.0, 1.0)).approx_eq(&vector(0.0, 0.0, 1.0)));
    let k = 3_f64.sqrt() / 3.0;
    assert!(s.local_normal_at(point(k, k, k)).approx_eq(&vector(k, k, k)));
}

#[test]
fn intersect_2_points() {
    let r = Ray::new(point(0.0, 0.0, -5.0), vector(0.0, 0.0, 1.0));
    let s = Sphere::default();
    let intersections = s.local_intersect(&r);

    assert_eq!(intersections.len(), 2);
    assert!(equal(intersections[0].t, 4.0));
    assert!(equal(intersections[1].t, 6.0));
    assert_eq!(intersections[0].object, Object::Sphere(s));
    assert_eq!(intersections[1].object, Object::Sphere(s));
}

#[test]
fn intersect_sphere_1_point() {
    let r = Ray::new(point(0.0, 1.0, -5.0), vector(0.0, 0.0, 1.0));
    let s = Sphere::default();
    let intersections = s.local_intersect(&r);

    assert_eq!(intersections.len(), 2);
    assert!(equal(intersections[0].t, 5.0));
    assert!(equal(intersections[1].t, 5.0));
    assert_eq!(intersections[0].object, Object::Sphere(s));
    assert_eq!(intersections[1].object, Object::Sphere(s));
}

#[test]
fn intersect_0_points() {
    let r = Ray::new(point(0.0, 2.0, -5.0), vector(0.0, 0.0, 1.0));
    let s = Sphere::default();
    let intersections = s.local_intersect(&r);

    assert!(intersections.is_empty());
}

#[test]
fn intersect_inside() {
    let r = Ray::new(point(0.0, 0.0, 0.0), vector(0.0, 0.0, 1.0));
    let s = Sphere::default();
    let intersections = s.local_intersect(&r);

    assert_eq!(intersections.len(), 2);
    assert!(equal(intersections[0].t, -1.0));
    assert!(equal(intersections[1].t, 1.0));
    assert_eq!(intersections[0].object, Object::Sphere(s));
    assert_eq!(intersections[1].object, Object::Sphere(s));
}

#[test]
fn intersect_behind() {
    let r = Ray::new(point(0.0, 0.0, 5.0), vector(0.0, 0.0, 1.0));
    let s = Sphere::default();
    let intersections = s.local_intersect(&r);

    assert_eq!(intersections.len(), 2);
    assert!(equal(intersections[0].t, -6.0));
    assert!(equal(intersections[1].t, -4.0));
    assert_eq!(intersections[0].object, Object::Sphere(s));
    assert_eq!(intersections[1].object, Object::Sphere(s));
}

#[test]
fn plane_normals() {
    let p = Plane::default();
    assert!(p.local_normal_at(Point::default()).approx_eq(&unit_y()));
    assert!(p.local_normal_at(point(10.0, 0.0, -10.0)).approx_eq(&unit_y()));
    assert!(p.local_normal_at(point(-5.0, 0.0, 150.0)).approx_eq(&unit_y()));
}

#[test]
fn intersect_parallel() {
    let p = Plane::default();
    let r = Ray::new(point(0.0, 10.0, 0.0), unit_z());
    assert!(p.local_intersect(&r).is_empty());
}

#[test]
fn intersect_coplanar() {
    let p = Plane::default();
    let r = Ray::new(Point::default(), unit_z());
    assert!(p.local_intersect(&r).is_empty());
}

#[test]
fn intersect_from_above() {
    let p = Plane::default();
    let r = Ray::new(point(0.0, 1.0, 0.0), unit_y().neg());
    let intersections = p.local_intersect(&r);

    assert_eq!(intersections.len(), 1);
    assert!(equal(intersections[0].t, 1.0));
    assert_eq!(intersections[0].object, Object::Plane(p));
}

#[test]
fn intersect_from_below() {
    let p = Plane::default();
    let r = Ray::new(point(0.0, -1.0, 0.0), unit_y());
    let intersections = p.local_intersect(&r);

    assert_eq!(intersections.len(), 1);
    assert!(equal(intersections[0].t, 1.0));
    assert_eq!(intersections[0].object, Object::Plane(p));
}

#[test]
fn shapes_have_transforms() {
    let mut s = Object::Sphere(Sphere::default());
    assert!(s.get_transform().approx_eq(&Matrix::default()));

    s.set_transform(Matrix::rotation_y(fx(2.0)).inverse());
    assert!(s.get_transform().approx_eq(&Matrix::rotation_y(fx(-2.0))));
}

#[test]
fn shapes_have_materials() {
    let mut s = Object::Sphere(Sphere::default());
    assert_eq!(s.get_material(), Material::default());

    s.set_material(Material::new(Color::black(), fx(0.0), fx(0.5), fx(1.0), fx(50.0)));
    assert!(s.get_material().color.approx_eq(&Color::black()));
    assert!(equal(s.get_material().diffuse, 0.5));
}

#[test]
fn translated_normals() {
    let s = Sphere::new(
        Matrix::translation(vector(0.0, 1.0, 0.0)),
        Material::default(),
    );

    assert!(s.normal_at(point(0.0, 1.70711, -0.70711)).approx_eq(
        &vector(0.0, 0.70711, -0.70711)
    ));
}

#[test]
fn transformed_normals() {
    let s = Sphere::new(
        Matrix::scaling(vector(1.0, 0.5, 1.0)).mul(&Matrix::rotation_z(fx(PI / 5.0))),
        Material::default(),
    );

    assert!(s.normal_at(point(0.0, 2_f64.sqrt() / 2.0, 2_f64.sqrt() / -2.0)).approx_eq(
        &vector(0.0, 0.97014, -0.24254)
    ));
}

#[test]
fn normalized_normals() {
    let s = Sphere::default();
    let k = 3_f64.sqrt() / 3.0;

    assert!(equal(s.normal_at(point(k, k, k)).magnitude(), 1.0));
}
