use vstd::prelude::*;

use crate::fx::{
    fx_add_raw, fx_approx, fx_div_raw, fx_mul_raw, fx_neg_raw, fx_sqrt_raw, fx_sub_raw, iabs, Fx,
    FX_ONE,
};

verus! {

/// Ghost model of a three-component tuple: the raw fixed-point value of each
/// component as a mathematical integer.
pub ghost struct V3 {
    pub x: int,
    pub y: int,
    pub z: int,
}

/// A direction in space: homogeneous w = 0, so transforms never translate it.
#[derive(Debug, Clone, Copy, PartialEq, Eq, Structural)]
pub struct Vector {
    pub x: Fx,
    pub y: Fx,
    pub z: Fx,
}

impl View for Vector {
    type V = V3;

    open spec fn view(&self) -> V3 {
        V3 { x: self.x@, y: self.y@, z: self.z@ }
    }
}

pub open spec fn v3_add(a: V3, b: V3) -> V3 {
    V3 { x: fx_add_raw(a.x, b.x), y: fx_add_raw(a.y, b.y), z: fx_add_raw(a.z, b.z) }
}

pub open spec fn v3_sub(a: V3, b: V3) -> V3 {
    V3 { x: fx_sub_raw(a.x, b.x), y: fx_sub_raw(a.y, b.y), z: fx_sub_raw(a.z, b.z) }
}

pub open spec fn v3_neg(a: V3) -> V3 {
    V3 { x: fx_neg_raw(a.x), y: fx_neg_raw(a.y), z: fx_neg_raw(a.z) }
}

pub open spec fn v3_scale(a: V3, s: int) -> V3 {
    V3 { x: fx_mul_raw(a.x, s), y: fx_mul_raw(a.y, s), z: fx_mul_raw(a.z, s) }
}

pub open spec fn v3_div(a: V3, s: int) -> V3 {
    V3 { x: fx_div_raw(a.x, s), y: fx_div_raw(a.y, s), z: fx_div_raw(a.z, s) }
}

/// Dot product, accumulated left to right.
pub open spec fn v3_dot(a: V3, b: V3) -> int {
    fx_add_raw(fx_add_raw(fx_mul_raw(a.x, b.x), fx_mul_raw(a.y, b.y)), fx_mul_raw(a.z, b.z))
}

pub open spec fn v3_cross(a: V3, b: V3) -> V3 {
    V3 {
        x: fx_sub_raw(fx_mul_raw(a.y, b.z), fx_mul_raw(a.z, b.y)),
        y: fx_sub_raw(fx_mul_raw(a.z, b.x), fx_mul_raw(a.x, b.z)),
        z: fx_sub_raw(fx_mul_raw(a.x, b.y), fx_mul_raw(a.y, b.x)),
    }
}

/// Length of a vector: the square root of the dot product with itself.
pub open spec fn v3_magnitude(a: V3) -> int {
    fx_sqrt_raw(v3_dot(a, a))
}

/// Every component divided by the magnitude. A zero vector saturates the
/// divisions; callers are expected to normalize only nonzero vectors.
pub open spec fn v3_normalize(a: V3) -> V3 {
    v3_div(a, v3_magnitude(a))
}

/// `a - n * 2 * dot(a, n)`, with the scalings applied componentwise in that
/// order.
pub open spec fn v3_reflect(a: V3, n: V3) -> V3 {
    v3_sub(a, v3_scale(v3_scale(n, 2 * (FX_ONE as int)), v3_dot(a, n)))
}

pub open spec fn v3_approx(a: V3, b: V3) -> bool {
    fx_approx(a.x, b.x) && fx_approx(a.y, b.y) && fx_approx(a.z, b.z)
}

/// A truncating square of a raw value is never negative.
pub proof fn lemma_square_nonneg(a: int)
    ensures
        fx_mul_raw(a, a) >= 0,
{
    assert(iabs(a) * iabs(a) >= 0) by (nonlinear_arith);
    assert(iabs(a) * iabs(a) / (FX_ONE as int) >= 0) by {
        vstd::arithmetic::div_mod::lemma_div_is_ordered(0, iabs(a) * iabs(a), FX_ONE as int);
    }
}

/// The dot product of a vector with itself is never negative.
pub proof fn lemma_dot_self_nonneg(a: V3)
    ensures
        v3_dot(a, a) >= 0,
{
    lemma_square_nonneg(a.x);
    lemma_square_nonneg(a.y);
    lemma_square_nonneg(a.z);
}

impl Vector {
    pub fn new(x: Fx, y: Fx, z: Fx) -> (r: Vector)
        ensures
            r@ == (V3 { x: x@, y: y@, z: z@ }),
    {
        Vector { x, y, z }
    }

    pub fn add(self, other: Vector) -> (r: Vector)
        ensures
            r@ == v3_add(self@, other@),
    {
        Vector { x: self.x.add(other.x), y: self.y.add(other.y), z: self.z.add(other.z) }
    }

    pub fn sub(self, other: Vector) -> (r: Vector)
        ensures
            r@ == v3_sub(self@, other@),
    {
        Vector { x: self.x.sub(other.x), y: self.y.sub(other.y), z: self.z.sub(other.z) }
    }

    pub fn neg(self) -> (r: Vector)
        ensures
            r@ == v3_neg(self@),
    {
        Vector { x: self.x.neg(), y: self.y.neg(), z: self.z.neg() }
    }

    /// Multiplication by a scalar.
    pub fn scale(self, s: Fx) -> (r: Vector)
        ensures
            r@ == v3_scale(self@, s@),
    {
        Vector { x: self.x.mul(s), y: self.y.mul(s), z: self.z.mul(s) }
    }

    /// Division by a scalar.
    pub fn div(self, s: Fx) -> (r: Vector)
        ensures
            r@ == v3_div(self@, s@),
    {
        Vector { x: self.x.div(s), y: self.y.div(s), z: self.z.div(s) }
    }

    pub fn dot(&self, other: &Vector) -> (r: Fx)
        ensures
            r@ == v3_dot(self@, other@),
    {
        self.x.mul(other.x).add(self.y.mul(other.y)).add(self.z.mul(other.z))
    }

    pub fn cross(&self, other: &Vector) -> (r: Vector)
        ensures
            r@ == v3_cross(self@, other@),
    {
        Vector {
            x: self.y.mul(other.z).sub(self.z.mul(other.y)),
            y: self.z.mul(other.x).sub(self.x.mul(other.z)),
            z: self.x.mul(other.y).sub(self.y.mul(other.x)),
        }
    }

    pub fn magnitude(&self) -> (r: Fx)
        ensures
            r@ == v3_magnitude(self@),
            r@ >= 0,
    {
        let d = self.dot(self);
        proof {
            lemma_dot_self_nonneg(self@);
        }
        d.sqrt()
    }

    /// Scales the vector to length one. The magnitude must not be zero, by
    /// contract; the arithmetic itself stays total.
    pub fn normalize(&self) -> (r: Vector)
        ensures
            r@ == v3_normalize(self@),
    {
        let m = self.magnitude();
        self.div(m)
    }

    /// Reflection of the vector about a surface normal.
    pub fn reflect(&self, normal: &Vector) -> (r: Vector)
        ensures
            r@ == v3_reflect(self@, normal@),
    {
        let d = self.dot(normal);
        self.sub(normal.scale(Fx { raw: 2 * FX_ONE }).scale(d))
    }

    /// Componentwise equality within the tolerance 1e-4.
    pub fn approx_eq(&self, other: &Vector) -> (r: bool)
        ensures
            r == v3_approx(self@, other@),
    {
        self.x.approx_eq(other.x) && self.y.approx_eq(other.y) && self.z.approx_eq(other.z)
    }
}

impl Default for Vector {
    /// The unit vector along the x axis.
    fn default() -> (r: Vector)
        ensures
            r@ == (V3 { x: FX_ONE as int, y: 0, z: 0 }),
    {
        Vector { x: Fx { raw: FX_ONE }, y: Fx { raw: 0 }, z: Fx { raw: 0 } }
    }
}

/// The unit vector along the x axis.
pub fn unit_x() -> (r: Vector)
    ensures
        r@ == (V3 { x: FX_ONE as int, y: 0, z: 0 }),
{
    Vector { x: Fx { raw: FX_ONE }, y: Fx { raw: 0 }, z: Fx { raw: 0 } }
}

/// The unit vector along the y axis.
pub fn unit_y() -> (r: Vector)
    ensures
        r@ == (V3 { x: 0, y: FX_ONE as int, z: 0 }),
{
    Vector { x: Fx { raw: 0 }, y: Fx { raw: FX_ONE }, z: Fx { raw: 0 } }
}

/// The unit vector along the z axis.
pub fn unit_z() -> (r: Vector)
    ensures
        r@ == (V3 { x: 0, y: 0, z: FX_ONE as int }),
{
    Vector { x: Fx { raw: 0 }, y: Fx { raw: 0 }, z: Fx { raw: FX_ONE } }
}

} // verus!
