use vstd::prelude::*;

use crate::fx::{fx_cos_raw, fx_neg_raw, fx_sin_raw, Fx, FX_ONE};
use crate::matrix::{m_eye, m_mul, Matrix};
use crate::point::Point;
use crate::vector::{v3_cross, v3_neg, v3_normalize, v3_sub, V3, Vector};

verus! {

/// The grid that moves every point by `v` and leaves vectors alone.
pub open spec fn m_translation(v: V3) -> Seq<int> {
    Seq::new(16, |i: int| if i == 3 {
        v.x
    } else if i == 7 {
        v.y
    } else if i == 11 {
        v.z
    } else if i / 4 == i % 4 {
        FX_ONE as int
    } else {
        0
    })
}

/// The grid that scales each axis by the matching component of `v`.
pub open spec fn m_scaling(v: V3) -> Seq<int> {
    Seq::new(16, |i: int| if i == 0 {
        v.x
    } else if i == 5 {
        v.y
    } else if i == 10 {
        v.z
    } else if i == 15 {
        FX_ONE as int
    } else {
        0
    })
}

/// Rotation about the x axis by `a` radians.
pub open spec fn m_rotation_x(a: int) -> Seq<int> {
    Seq::new(16, |i: int| if i == 5 || i == 10 {
        fx_cos_raw(a)
    } else if i == 6 {
        fx_neg_raw(fx_sin_raw(a))
    } else if i == 9 {
        fx_sin_raw(a)
    } else if i == 0 || i == 15 {
        FX_ONE as int
    } else {
        0
    })
}

/// Rotation about the y axis by `a` radians.
pub open spec fn m_rotation_y(a: int) -> Seq<int> {
    Seq::new(16, |i: int| if i == 0 || i == 10 {
        fx_cos_raw(a)
    } else if i == 2 {
        fx_sin_raw(a)
    } else if i == 8 {
        fx_neg_raw(fx_sin_raw(a))
    } else if i == 5 || i == 15 {
        FX_ONE as int
    } else {
        0
    })
}

/// Rotation about the z axis by `a` radians.
pub open spec fn m_rotation_z(a: int) -> Seq<int> {
    Seq::new(16, |i: int| if i == 0 || i == 5 {
        fx_cos_raw(a)
    } else if i == 1 {
        fx_neg_raw(fx_sin_raw(a))
    } else if i == 4 {
        fx_sin_raw(a)
    } else if i == 10 || i == 15 {
        FX_ONE as int
    } else {
        0
    })
}

/// Shear: each coordinate moves in proportion to the other two.
pub open spec fn m_shearing(xy: int, xz: int, yx: int, yz: int, zx: int, zy: int) -> Seq<int> {
    Seq::new(16, |i: int| if i / 4 == i % 4 && i / 4 < 4 {
        FX_ONE as int
    } else if i == 1 {
        xy
    } else if i == 2 {
        xz
    } else if i == 4 {
        yx
    } else if i == 6 {
        yz
    } else if i == 8 {
        zx
    } else if i == 9 {
        zy
    } else {
        0
    })
}

/// The orientation grid of a camera basis: left, true up and forward rows.
pub open spec fn m_orientation(l: V3, u: V3, f: V3) -> Seq<int> {
    Seq::new(16, |i: int| if i == 0 {
        l.x
    } else if i == 1 {
        l.y
    } else if i == 2 {
        l.z
    } else if i == 4 {
        u.x
    } else if i == 5 {
        u.y
    } else if i == 6 {
        u.z
    } else if i == 8 {
        fx_neg_raw(f.x)
    } else if i == 9 {
        fx_neg_raw(f.y)
    } else if i == 10 {
        fx_neg_raw(f.z)
    } else if i == 15 {
        FX_ONE as int
    } else {
        0
    })
}

/// The world-to-camera grid: the orientation built from eye, target and up,
/// composed with the translation that moves the eye to the origin.
pub open spec fn m_view_transform(from: V3, to: V3, up: V3) -> Seq<int> {
    let f = v3_normalize(v3_sub(to, from));
    let l = v3_cross(f, v3_normalize(up));
    let u = v3_cross(l, f);
    m_mul(m_orientation(l, u, f), m_translation(v3_neg(from)), 4)
}

impl Matrix {
    /// The transform that moves points by `v`.
    pub fn translation(v: Vector) -> (r: Matrix)
        ensures
            r.wf(),
            r.dimension == 4,
            r.s() == m_translation(v@),
    {
        let mut r = Matrix::eye(4);
        r.set(0, 3, v.x);
        r.set(1, 3, v.y);
        r.set(2, 3, v.z);
        assert(r.s() =~= m_translation(v@));
        r
    }

    /// The transform that scales each axis by the matching component of `v`.
    pub fn scaling(v: Vector) -> (r: Matrix)
        ensures
            r.wf(),
            r.dimension == 4,
            r.s() == m_scaling(v@),
    {
        let mut r = Matrix::eye(4);
        r.set(0, 0, v.x);
        r.set(1, 1, v.y);
        r.set(2, 2, v.z);
        assert(r.s() =~= m_scaling(v@));
        r
    }

    /// Rotation about the x axis by `angle` radians.
    pub fn rotation_x(angle: Fx) -> (r: Matrix)
        ensures
            r.wf(),
            r.dimension == 4,
            r.s() == m_rotation_x(angle@),
    {
        let c = angle.cos();
        let s = angle.sin();
        let mut r = Matrix::eye(4);
        r.set(1, 1, c);
        r.set(1, 2, s.neg());
        r.set(2, 1, s);
        r.set(2, 2, c);
        assert(r.s() =~= m_rotation_x(angle@));
        r
    }

    /// Rotation about the y axis by `angle` radians.
    pub fn rotation_y(angle: Fx) -> (r: Matrix)
        ensures
            r.wf(),
            r.dimension == 4,
            r.s() == m_rotation_y(angle@),
    {
        let c = angle.cos();
        let s = angle.sin();
        let mut r = Matrix::eye(4);
        r.set(0, 0, c);
        r.set(0, 2, s);
        r.set(2, 0, s.neg());
        r.set(2, 2, c);
        assert(r.s() =~= m_rotation_y(angle@));
        r
    }

    /// Rotation about the z axis by `angle` radians.
    pub fn rotation_z(angle: Fx) -> (r: Matrix)
        ensures
            r.wf(),
            r.dimension == 4,
            r.s() == m_rotation_z(angle@),
    {
        let c = angle.cos();
        let s = angle.sin();
        let mut r = Matrix::eye(4);
        r.set(0, 0, c);
        r.set(0, 1, s.neg());
        r.set(1, 0, s);
        r.set(1, 1, c);
        assert(r.s() =~= m_rotation_z(angle@));
        r
    }

    /// Shear: each coordinate moves in proportion to the other two.
    pub fn shearing(xy: Fx, xz: Fx, yx: Fx, yz: Fx, zx: Fx, zy: Fx) -> (r: Matrix)
        ensures
            r.wf(),
            r.dimension == 4,
            r.s() == m_shearing(xy@, xz@, yx@, yz@, zx@, zy@),
    {
        let mut r = Matrix::eye(4);
        r.set(0, 1, xy);
        r.set(0, 2, xz);
        r.set(1, 0, yx);
        r.set(1, 2, yz);
        r.set(2, 0, zx);
        r.set(2, 1, zy);
        assert(r.s() =~= m_shearing(xy@, xz@, yx@, yz@, zx@, zy@));
        r
    }

    /// The world-to-camera transform for an eye at `from` looking at `to`
    /// with the given up hint.
    pub fn view_transform(from: Point, to: Point, up: Vector) -> (r: Matrix)
        ensures
            r.wf(),
            r.dimension == 4,
            r.s() == m_view_transform(from@, to@, up@),
    {
        let f = to.sub_point(from).normalize();
        let l = f.cross(&up.normalize());
        let u = l.cross(&f);
        let mut orientation = Matrix::eye(4);
        orientation.set(0, 0, l.x);
        orientation.set(0, 1, l.y);
        orientation.set(0, 2, l.z);
        orientation.set(1, 0, u.x);
        orientation.set(1, 1, u.y);
        orientation.set(1, 2, u.z);
        orientation.set(2, 0, f.x.neg());
        orientation.set(2, 1, f.y.neg());
        orientation.set(2, 2, f.z.neg());
        assert(orientation.s() =~= m_orientation(l@, u@, f@));
        let shift = Matrix::translation(Vector::new(from.x.neg(), from.y.neg(), from.z.neg()));
        orientation.mul(&shift)
    }
}

} // verus!
