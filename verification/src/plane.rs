use vstd::prelude::*;

use crate::fx::{fx_clip, fx_div_raw, fx_neg_raw, iabs, Fx, FX_EPS_RAW, FX_ONE};
use crate::intersection::Intersection;
use crate::material::Material;
use crate::matrix::{m_eye, Matrix};
use crate::point::Point;
use crate::ray::Ray;
use crate::shape::{m_world_normal, Object};
use crate::vector::{V3, Vector};

verus! {

/// The local xz-plane through the origin with local normal +y, placed in
/// the world by its transform.
#[derive(Debug, Clone, Copy, PartialEq)]
pub struct Plane {
    pub transform: Matrix,
    pub material: Material,
}

/// The local-space hit parameters of a ray against the plane: nothing for a
/// ray parallel (or coplanar) to the plane within the tolerance, else the
/// single crossing at `-origin.y / direction.y`.
pub open spec fn plane_ts(o: V3, d: V3) -> Seq<int> {
    if fx_clip(iabs(d.y)) < FX_EPS_RAW {
        Seq::empty()
    } else {
        seq![fx_div_raw(fx_neg_raw(o.y), d.y)]
    }
}

impl Plane {
    pub fn new(transform: Matrix, material: Material) -> (r: Plane)
        ensures
            r.transform == transform,
            r.material == material,
    {
        Plane { transform, material }
    }

    pub fn get_transform(&self) -> (r: Matrix)
        ensures
            r == self.transform,
    {
        self.transform
    }

    pub fn set_transform(&mut self, transform: Matrix)
        ensures
            final(self).transform == transform,
            final(self).material == old(self).material,
    {
        self.transform = transform;
    }

    pub fn get_material(&self) -> (r: Material)
        ensures
            r == self.material,
    {
        self.material
    }

    pub fn set_material(&mut self, material: Material)
        ensures
            final(self).material == material,
            final(self).transform == old(self).transform,
    {
        self.material = material;
    }

    /// Hits of a ray already expressed in the plane's local space.
    pub fn local_intersect(&self, ray: &Ray) -> (r: Vec<Intersection>)
        ensures
            r@.len() == plane_ts(ray.origin@, ray.direction@).len(),
            forall|i: int| 0 <= i < r@.len() ==> #[trigger] r@[i].t@ == plane_ts(
                ray.origin@,
                ray.direction@,
            )[i],
            forall|i: int| 0 <= i < r@.len() ==> (#[trigger] r@[i].object) == Object::Plane(*self),
    {
        if ray.direction.y.abs().raw < FX_EPS_RAW {
            Vec::new()
        } else {
            let t = ray.origin.y.neg().div(ray.direction.y);
            let mut r: Vec<Intersection> = Vec::new();
            r.push(Intersection { t, object: Object::Plane(*self) });
            r
        }
    }

    /// The local-space normal: the constant +y for every point.
    pub fn local_normal_at(&self, _point: Point) -> (r: Vector)
        ensures
            r@ == (V3 { x: 0, y: FX_ONE as int, z: 0 }),
    {
        crate::vector::unit_y()
    }

    /// The world-space normal: the constant local normal pushed through the
    /// inverse transpose of the transform and renormalized.
    pub fn normal_at(&self, point: Point) -> (r: Vector)
        requires
            self.transform.wf(),
            self.transform.dimension == 4,
            crate::matrix::m_det(self.transform.s(), 4) != 0,
        ensures
            r@ == m_world_normal(self.transform.s(), V3 { x: 0, y: FX_ONE as int, z: 0 }),
    {
        let inverse = self.transform.inverse();
        let object_point = inverse.mul_point(point);
        let object_normal = self.local_normal_at(object_point);
        let world_normal = inverse.transpose().mul_vector(object_normal);
        world_normal.normalize()
    }
}

impl Default for Plane {
    /// The xz-plane with the identity transform and the default material.
    fn default() -> (r: Plane)
        ensures
            r.transform.wf(),
            r.transform.dimension == 4,
            r.transform.s() == m_eye(4),
            r.material == crate::material::default_material(),
    {
        Plane { transform: Matrix::eye(4), material: Material::default() }
    }
}

} // verus!
