use raytracer::fx::{approx, Fx};
use raytracer::matrix::Matrix;
use raytracer::point::Point;

fn fx(v: f64) -> Fx {
    Fx::from_raw((v * 1_073_741_824.0).round() as i64)
}

fn equal(a: Fx, b: f64) -> bool {
    approx(a, fx(b))
}

fn matrix(dimension: usize, contents: &[f64]) -> Matrix {
    let vals: Vec<Fx> = contents.iter().map(|v| fx(*v)).collect();
    Matrix::new(dimension, vals)
}

fn point(x: f64, y: f64, z: f64) -> Point {
    Point::new(fx(x), fx(y), fx(z))
}

#[test]
fn new_matrix_4() {
    let m = matrix(4, &[
        1.0, 2.0, 3.0, 4.0,
        5.5, 6.5, 7.5, 8.5,
        9.0, 10.0, 11.0, 12.0,
        13.5, 14.5, 15.5, 16.5,
    ]);

    assert!(equal(m.get(0, 0), 1.0));
    assert!(equal(m.get(0, 3), 4.0));
    assert!(equal(m.get(1, 0), 5.5));
    assert!(equal(m.get(1, 2), 7.5));
    assert!(equal(m.get(2, 2), 11.0));
    assert!(equal(m.get(3, 0), 13.5));
    assert!(equal(m.get(3, 2), 15.5));
}

#[test]
fn new_matrix_2() {
    let m = matrix(2, &[-3.0, 5.0, 1.0, -2.0]);

    assert!(equal(m.get(0, 0), -3.0));
    assert!(equal(m.get(0, 1), 5.0));
    assert!(equal(m.get(1, 0), 1.0));
    assert!(equal(m.get(1, 1), -2.0));
}

#[test]
fn new_matrix_3() {
    let m = matrix(3, &[
        -3.0, 5.0, 0.0,
        1.0, -2.0, -7.0,
        0.0, 1.0, 1.0,
    ]);

    assert!(equal(m.get(0, 0), -3.0));
    assert!(equal(m.get(1, 1), -2.0));
    assert!(equal(m.get(2, 2), 1.0));
}

#[test]
fn matrix_equality() {
    let m1 = matrix(4, &[
        1.0, 2.0, 3.0, 4.0,
        5.5, 6.5, 7.5, 8.5,
        9.0, 10.0, 11.0, 12.0,
        13.5, 14.5, 15.5, 16.5,
    ]);

    let m2 = matrix(4, &[
        1.0, 2.0, 3.0, 4.0,
        5.5, 6.5, 7.5, 8.5,
        9.0, 10.0, 11.0, 12.0,
        13.5, 14.5, 15.5, 16.5,
    ]);

    let m3 = matrix(4, &[
        1.0, 2.0, 3.0, 4.1,
        5.5, 6.5, 7.5, 8.5,
        9.0, 10.0, 11.0, 12.0,
        13.5, 14.5, 15.5, 16.5,
    ]);

    assert!(m1.approx_eq(&m2));
    assert!(!m1.approx_eq(&m3));
}

#[test]
fn matrix_mul() {
    let m1 = matrix(4, &[
        1.0, 2.0, 3.0, 4.0,
        5.0, 6.0, 7.0, 8.0,
        9.0, 8.0, 7.0, 6.0,
        5.0, 4.0, 3.0, 2.0,
    ]);

    let m2 = matrix(4, &[
        -2.0, 1.0, 2.0, 3.0,
        3.0, 2.0, 1.0, -1.0,
        4.0, 3.0, 6.0, 5.0,
        1.0, 2.0, 7.0, 8.0,
    ]);

    let m3 = matrix(4, &[
        20.0, 22.0, 50.0, 48.0,
        44.0, 54.0, 114.0, 108.0,
        40.0, 58.0, 110.0, 102.0,
        16.0, 26.0, 46.0, 42.0,
    ]);

    assert!(m1.mul(&m2).approx_eq(&m3));
}

#[test]
fn matrix_mul_point() {
    let m = matrix(4, &[
        1.0, 2.0, 3.0, 4.0,
        2.0, 4.0, 4.0, 2.0,
        8.0, 6.0, 4.0, 1.0,
        0.0, 0.0, 0.0, 1.0,
    ]);

    let p = point(1.0, 2.0, 3.0);

    assert!(m.mul_point(p).approx_eq(&point(18.0, 24.0, 33.0)));
}

#[test]
fn matrix_mul_eye() {
    let m1 = matrix(4, &[
        1.0, 2.0, 3.0, 4.0,
        2.0, 4.0, 4.0, 2.0,
        8.0, 6.0, 4.0, 1.0,
        0.0, 0.0, 0.0, 1.0,
    ]);

    let m2 = matrix(4, &[
        1.0, 2.0, 3.0, 4.0,
        2.0, 4.0, 4.0, 2.0,
        8.0, 6.0, 4.0, 1.0,
        0.0, 0.0, 0.0, 1.0,
    ]);

    let eye = Matrix::eye(4);

    assert!(m1.mul(&eye).approx_eq(&m2));
}

#[test]
fn matrix_transpose() {
    let m1 = matrix(4, &[
        0.0, 9.0, 3.0, 0.0,
        9.0, 8.0, 0.0, 8.0,
        1.0, 8.0, 5.0, 3.0,
        0.0, 0.0, 5.0, 8.0,
    ]);

    let m2 = matrix(4, &[
        0.0, 9.0, 1.0, 0.0,
        9.0, 8.0, 8.0, 0.0,
        3.0, 0.0, 5.0, 5.0,
        0.0, 8.0, 3.0, 8.0,
    ]);

    assert!(m1.transpose().approx_eq(&m2));
    assert!(Matrix::eye(3).approx_eq(&Matrix::eye(3)));
}

#[test]
fn matrix_minor() {
    let m1 = matrix(3, &[
        1.0, 5.0, 0.0,
        -3.0, 2.0, 7.0,
        0.0, 6.0, -3.0,
    ]);

    let m2 = matrix(2, &[
        -3.0, 2.0,
        0.0, 6.0,
    ]);

    let m3 = matrix(4, &[
        -6.0, 1.0, 1.0, 6.0,
        -8.0, 5.0, 8.0, 6.0,
        -1.0, 0.0, 8.0, 2.0,
        -7.0, 1.0, -1.0, 1.0,
    ]);

    let m4 = matrix(3, &[
        -6.0, 1.0, 6.0,
        -8.0, 8.0, 6.0,
        -7.0, -1.0, 1.0,
    ]);

    assert!(m1.submatrix(0, 2).approx_eq(&m2));
    assert!(m3.submatrix(2, 1).approx_eq(&m4));
}

#[test]
fn matrix_det() {
    let m1 = matrix(3, &[
        1.0, 2.0, 6.0,
        -5.0, 8.0, -4.0,
        2.0, 6.0, 4.0,
    ]);

    let m2 = matrix(4, &[
        -2.0, -8.0, 3.0, 5.0,
        -3.0, 1.0, 7.0, 3.0,
        1.0, 2.0, -9.0, 6.0,
        -6.0, 7.0, 7.0, -9.0,
    ]);

    assert!(equal(m1.determinant(), -196.0));
    assert!(equal(m2.determinant(), -4071.0));
}

#[test]
fn matrix_inv() {
    let m1 = matrix(4, &[
        -5.0, 2.0, 6.0, -8.0,
        1.0, -5.0, 1.0, 8.0,
        7.0, 7.0, -6.0, -7.0,
        1.0, -3.0, 7.0, 4.0,
    ]);

    let m2 = matrix(4, &[
        0.21805, 0.45113, 0.24060, -0.04511,
        -0.80827, -1.45677, -0.44361, 0.52068,
        -0.07895, -0.22368, -0.05263, 0.19737,
        -0.52256, -0.81391, -0.30075, 0.30639,
    ]);

    let m3 = matrix(4, &[
        8.0, -5.0, 9.0, 2.0,
        7.0, 5.0, 6.0, 1.0,
        -6.0, 0.0, 9.0, 6.0,
        -3.0, 0.0, -9.0, -4.0,
    ]);

    let m4 = matrix(4, &[
        -0.15385, -0.15385, -0.28205, -0.53846,
        -0.07692, 0.12308, 0.02564, 0.03077,
        0.35897, 0.35897, 0.43590, 0.92308,
        -0.69231, -0.69231, -0.76923, -1.92308,
    ]);

    let m5 = matrix(4, &[
        9.0, 3.0, 0.0, 9.0,
        -5.0, -2.0, -6.0, -3.0,
        -4.0, 9.0, 6.0, 4.0,
        -7.0, 6.0, 6.0, 2.0,
    ]);

    let m6 = matrix(4, &[
        -0.04074, -0.07778, 0.14444, -0.22222,
        -0.07778, 0.03333, 0.36667, -0.33333,
        -0.02901, -0.14630, -0.10926, 0.12963,
        0.17778, 0.06667, -0.26667, 0.33333,
    ]);

    assert!(m1.inverse().approx_eq(&m2));
    assert!(m3.inverse().approx_eq(&m4));
    assert!(m5.inverse().approx_eq(&m6));
    assert!(m1.inverse().inverse().approx_eq(&m1));
    assert!(m3.inverse().mul(&m3).approx_eq(&Matrix::eye(4)));
}

#[test]
fn matrix_times_inverse_is_identity() {
    let samples = [
        [
            -5.0, 2.0, 6.0, -8.0,
            1.0, -5.0, 1.0, 8.0,
            7.0, 7.0, -6.0, -7.0,
            1.0, -3.0, 7.0, 4.0,
        ],
        [
            8.0, -5.0, 9.0, 2.0,
            7.0, 5.0, 6.0, 1.0,
            -6.0, 0.0, 9.0, 6.0,
            -3.0, 0.0, -9.0, -4.0,
        ],
        [
            9.0, 3.0, 0.0, 9.0,
            -5.0, -2.0, -6.0, -3.0,
            -4.0, 9.0, 6.0, 4.0,
            -7.0, 6.0, 6.0, 2.0,
        ],
    ];
    for sample in samples.iter() {
        let m = matrix(4, sample);
        assert!(m.mul(&m.inverse()).approx_eq(&Matrix::eye(4)));
        assert!(m.inverse().mul(&m).approx_eq(&Matrix::eye(4)));
    }
}
