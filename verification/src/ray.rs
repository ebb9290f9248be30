use vstd::prelude::*;

use crate::fx::Fx;
use crate::intersection::Intersection;
use crate::matrix::{m_apply_point, m_apply_vector, m_inv, Matrix};
use crate::point::Point;
use crate::shape::{
    object_invertible, object_local_ts, object_wf, transform_of, Object,
};
use crate::vector::{v3_add, v3_scale, V3, Vector};

verus! {

/// A ray: an origin and a direction.
#[derive(Debug, Clone, Copy, PartialEq)]
pub struct Ray {
    pub origin: Point,
    pub direction: Vector,
}

/// The point `origin + direction * t` on a ray.
pub open spec fn ray_position(origin: V3, direction: V3, t: int) -> V3 {
    v3_add(origin, v3_scale(direction, t))
}

/// The hit list of a world-space ray against a shape: the ray is carried
/// into the shape's local space by the inverse transform, and the shape
/// reports its local hit parameters; each hit records the shape itself.
pub open spec fn ray_object_ts(o: Object, origin: V3, direction: V3) -> Seq<int> {
    let inv = m_inv(transform_of(o).s(), 4);
    object_local_ts(o, m_apply_point(inv, origin), m_apply_vector(inv, direction))
}

/// The same hit list packaged as intersection records.
pub open spec fn ray_object_xs(o: Object, origin: V3, direction: V3) -> Seq<Intersection> {
    let ts = ray_object_ts(o, origin, direction);
    Seq::new(ts.len(), |i: int| Intersection { t: crate::fx::Fx { raw: ts[i] as i64 }, object: o })
}

impl Ray {
    pub fn new(origin: Point, direction: Vector) -> (r: Ray)
        ensures
            r.origin == origin,
            r.direction == direction,
    {
        Ray { origin, direction }
    }

    /// The point reached after travelling `t` along the ray.
    pub fn position(&self, t: Fx) -> (r: Point)
        ensures
            r@ == ray_position(self.origin@, self.direction@, t@),
    {
        self.origin.add(self.direction.scale(t))
    }

    /// The ray carried through a transform: the origin by the point rule,
    /// the direction by the vector rule.
    pub fn transform(&self, transformation: &Matrix) -> (r: Ray)
        requires
            transformation.wf(),
        ensures
            r.origin@ == m_apply_point(transformation.s(), self.origin@),
            r.direction@ == m_apply_vector(transformation.s(), self.direction@),
    {
        Ray {
            origin: transformation.mul_point(self.origin),
            direction: transformation.mul_vector(self.direction),
        }
    }

    /// All intersections of the ray with a shape, in the order the shape
    /// reports them.
    pub fn intersect(&self, shape: &Object) -> (r: Vec<Intersection>)
        requires
            object_wf(*shape),
            object_invertible(*shape),
        ensures
            r@ == ray_object_xs(*shape, self.origin@, self.direction@),
    {
        let inverse = shape.get_transform().inverse();
        let local_ray = self.transform(&inverse);
        let r = shape.local_intersect(&local_ray);
        proof {
            let ts = ray_object_ts(*shape, self.origin@, self.direction@);
            let target = ray_object_xs(*shape, self.origin@, self.direction@);
            assert forall|i: int| 0 <= i < r@.len() implies r@[i] == target[i] by {
                assert(r@[i].t@ == ts[i]);
                assert(r@[i].object == *shape);
                assert(r@[i].t.raw == ts[i] as i64);
                assert(r@[i] =~~= target[i]);
            }
            assert(r@ =~~= target);
        }
        r
    }
}

impl Default for Ray {
    /// A ray from the origin along the x axis.
    fn default() -> (r: Ray)
        ensures
            r.origin@ == (V3 { x: 0, y: 0, z: 0 }),
            r.direction@ == (V3 { x: crate::fx::FX_ONE as int, y: 0, z: 0 }),
    {
        Ray { origin: Point::default(), direction: Vector::default() }
    }
}

} // verus!
