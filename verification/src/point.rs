use vstd::prelude::*;

use crate::fx::{Fx, FX_ONE};
use crate::vector::{v3_add, v3_sub, v3_approx, V3, Vector};

verus! {

/// A position in space: homogeneous w = 1, so transforms translate it.
#[derive(Debug, Clone, Copy, PartialEq, Eq, Structural)]
pub struct Point {
    pub x: Fx,
    pub y: Fx,
    pub z: Fx,
}

impl View for Point {
    type V = V3;

    open spec fn view(&self) -> V3 {
        V3 { x: self.x@, y: self.y@, z: self.z@ }
    }
}

impl Point {
    pub fn new(x: Fx, y: Fx, z: Fx) -> (r: Point)
        ensures
            r@ == (V3 { x: x@, y: y@, z: z@ }),
    {
        Point { x, y, z }
    }

    /// A point moved along a vector.
    pub fn add(self, other: Vector) -> (r: Point)
        ensures
            r@ == v3_add(self@, other@),
    {
        Point { x: self.x.add(other.x), y: self.y.add(other.y), z: self.z.add(other.z) }
    }

    /// A point moved against a vector.
    pub fn sub(self, other: Vector) -> (r: Point)
        ensures
            r@ == v3_sub(self@, other@),
    {
        Point { x: self.x.sub(other.x), y: self.y.sub(other.y), z: self.z.sub(other.z) }
    }

    /// The vector from `other` to `self`.
    pub fn sub_point(self, other: Point) -> (r: Vector)
        ensures
            r@ == v3_sub(self@, other@),
    {
        Vector { x: self.x.sub(other.x), y: self.y.sub(other.y), z: self.z.sub(other.z) }
    }

    /// Componentwise equality within the tolerance 1e-4.
    pub fn approx_eq(&self, other: &Point) -> (r: bool)
        ensures
            r == v3_approx(self@, other@),
    {
        self.x.approx_eq(other.x) && self.y.approx_eq(other.y) && self.z.approx_eq(other.z)
    }
}

impl Default for Point {
    /// The origin.
    fn default() -> (r: Point)
        ensures
            r@ == (V3 { x: 0, y: 0, z: 0 }),
    {
        Point { x: Fx { raw: 0 }, y: Fx { raw: 0 }, z: Fx { raw: 0 } }
    }
}

/// The unit point along the x axis.
pub fn unit_x() -> (r: Point)
    ensures
        r@ == (V3 { x: FX_ONE as int, y: 0, z: 0 }),
{
    Point { x: Fx { raw: FX_ONE }, y: Fx { raw: 0 }, z: Fx { raw: 0 } }
}

/// The unit point along the y axis.
pub fn unit_y() -> (r: Point)
    ensures
        r@ == (V3 { x: 0, y: FX_ONE as int, z: 0 }),
{
    Point { x: Fx { raw: 0 }, y: Fx { raw: FX_ONE }, z: Fx { raw: 0 } }
}

/// The unit point along the z axis.
pub fn unit_z() -> (r: Point)
    ensures
        r@ == (V3 { x: 0, y: 0, z: FX_ONE as int }),
{
    Point { x: Fx { raw: 0 }, y: Fx { raw: 0 }, z: Fx { raw: FX_ONE } }
}

} // verus!
