use raytracer::fx::Fx;
use raytracer::matrix::Matrix;
use raytracer::point::Point;
use raytracer::vector::{unit_x, unit_y, Vector};

fn fx(v: f64) -> Fx {
    Fx::from_raw((v * 1_073_741_824.0).round() as i64)
}

fn point(x: f64, y: f64, z: f64) -> Point {
    Point::new(fx(x), fx(y), fx(z))
}

fn vector(x: f64, y: f64, z: f64) -> Vector {
    Vector::new(fx(x), fx(y), fx(z))
}

fn matrix(dimension: usize, contents: &[f64]) -> Matrix {
    let vals: Vec<Fx> = contents.iter().map(|v| fx(*v)).collect();
    Matrix::new(dimension, vals)
}

const PI: f64 = std::f64::consts::PI;

#[test]
fn translation_point() {
    let t = Matrix::translation(vector(5.0, -3.0, 2.0));
    assert!(t.mul_point(point(-3.0, 4.0, 5.0)).approx_eq(&point(2.0, 1.0, 7.0)));
}

#[test]
fn translation_inverse() {
    let t = Matrix::translation(vector(5.0, -3.0, 2.0)).inverse();
    assert!(t.mul_point(point(2.0, 1.0, 7.0)).approx_eq(&point(-3.0, 4.0, 5.0)));
}

#[test]
fn translation_vector() {
    let t = Matrix::translation(vector(5.0, -3.0, 2.0)).inverse();
    assert!(t.mul_vector(vector(2.0, 1.0, 7.0)).approx_eq(&vector(2.0, 1.0, 7.0)));
}

#[test]
fn scaling_point() {
    let t = Matrix::scaling(vector(2.0, 3.0, 4.0));
    assert!(t.mul_point(point(-4.0, 6.0, 8.0)).approx_eq(&point(-8.0, 18.0, 32.0)));
}

#[test]
fn scaling_vector() {
    let t = Matrix::scaling(vector(2.0, 3.0, 4.0));
    assert!(t.mul_vector(vector(-4.0, 6.0, 8.0)).approx_eq(&vector(-8.0, 18.0, 32.0)));
}

#[test]
fn scaling_inverse() {
    let t = Matrix::scaling(vector(2.0, 3.0, 4.0)).inverse();
    assert!(t.mul_point(point(-8.0, 18.0, 32.0)).approx_eq(&point(-4.0, 6.0, 8.0)));
}

#[test]
fn scaling_reflection() {
    let t = Matrix::scaling(vector(-1.0, -1.0, -1.0));
    assert!(t.mul_point(point(4.0, -6.0, -8.0)).approx_eq(&point(-4.0, 6.0, 8.0)));
}

#[test]
fn rotation_x() {
    let t1 = Matrix::rotation_x(fx(PI / 4.0));
    let t2 = Matrix::rotation_x(fx(PI / 2.0));
    let t3 = Matrix::rotation_x(fx(PI / 4.0)).inverse();

    assert!(t1.mul_point(point(0.0, 1.0, 0.0)).approx_eq(
        &point(0.0, 2_f64.sqrt() / 2.0, 2_f64.sqrt() / 2.0)
    ));
    assert!(t2.mul_point(point(0.0, 1.0, 0.0)).approx_eq(&point(0.0, 0.0, 1.0)));
    assert!(t3.mul_point(point(0.0, 1.0, 0.0)).approx_eq(
        &point(0.0, 2_f64.sqrt() / 2.0, 2_f64.sqrt() / -2.0)
    ));
}

#[test]
fn rotation_y() {
    let t1 = Matrix::rotation_y(fx(PI / 4.0));
    let t2 = Matrix::rotation_y(fx(PI / 2.0));

    assert!(t1.mul_point(point(0.0, 0.0, 1.0)).approx_eq(
        &point(2_f64.sqrt() / 2.0, 0.0, 2_f64.sqrt() / 2.0)
    ));
    assert!(t2.mul_point(point(0.0, 0.0, 1.0)).approx_eq(&point(1.0, 0.0, 0.0)));
}

#[test]
fn rotation_z() {
    let t1 = Matrix::rotation_z(fx(PI / 4.0));
    let t2 = Matrix::rotation_z(fx(PI / 2.0));

    assert!(t1.mul_point(point(0.0, 1.0, 0.0)).approx_eq(
        &point(2_f64.sqrt() / -2.0, 2_f64.sqrt() / 2.0, 0.0)
    ));
    assert!(t2.mul_point(point(0.0, 1.0, 0.0)).approx_eq(&point(-1.0, 0.0, 0.0)));
}

#[test]
fn shearing() {
    let t1 = Matrix::shearing(fx(1.0), fx(0.0), fx(0.0), fx(0.0), fx(0.0), fx(0.0));
    let t2 = Matrix::shearing(fx(0.0), fx(1.0), fx(0.0), fx(0.0), fx(0.0), fx(0.0));
    let t3 = Matrix::shearing(fx(0.0), fx(0.0), fx(1.0), fx(0.0), fx(0.0), fx(0.0));
    let t4 = Matrix::shearing(fx(0.0), fx(0.0), fx(0.0), fx(1.0), fx(0.0), fx(0.0));
    let t5 = Matrix::shearing(fx(0.0), fx(0.0), fx(0.0), fx(0.0), fx(1.0), fx(0.0));
    let t6 = Matrix::shearing(fx(0.0), fx(0.0), fx(0.0), fx(0.0), fx(0.0), fx(1.0));

    assert!(t1.mul_point(point(2.0, 3.0, 4.0)).approx_eq(&point(5.0, 3.0, 4.0)));
    assert!(t2.mul_point(point(2.0, 3.0, 4.0)).approx_eq(&point(6.0, 3.0, 4.0)));
    assert!(t3.mul_point(point(2.0, 3.0, 4.0)).approx_eq(&point(2.0, 5.0, 4.0)));
    assert!(t4.mul_point(point(2.0, 3.0, 4.0)).approx_eq(&point(2.0, 7.0, 4.0)));
    assert!(t5.mul_point(point(2.0, 3.0, 4.0)).approx_eq(&point(2.0, 3.0, 6.0)));
    assert!(t6.mul_point(point(2.0, 3.0, 4.0)).approx_eq(&point(2.0, 3.0, 7.0)));
}

#[test]
fn view_transform() {
    assert!(Matrix::view_transform(Point::default(), point(0.0, 0.0, -1.0), unit_y()).approx_eq(
        &Matrix::default()
    ));

    assert!(Matrix::view_transform(Point::default(), point(0.0, 0.0, 1.0), unit_y()).approx_eq(
        &Matrix::scaling(vector(-1.0, 1.0, -1.0))
    ));

    assert!(Matrix::view_transform(point(0.0, 0.0, 8.0), Point::default(), unit_y()).approx_eq(
        &Matrix::translation(vector(0.0, 0.0, -8.0))
    ));

    let expected = matrix(4, &[
        -0.50709, 0.50709, 0.67612, -2.36643,
        0.76772, 0.60609, 0.12122, -2.82843,
        -0.35857, 0.59761, -0.71714, 0.00000,
        0.00000, 0.00000, 0.00000, 1.00000,
    ]);
    assert!(Matrix::view_transform(
        point(1.0, 3.0, 2.0),
        point(4.0, -2.0, 8.0),
        unit_y().add(unit_x()),
    ).approx_eq(&expected));
}
