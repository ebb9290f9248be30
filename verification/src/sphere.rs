use vstd::prelude::*;

use crate::fx::{fx_add_raw, fx_div_raw, fx_mul_raw, fx_neg_raw, fx_sqrt_raw, fx_sub_raw, Fx, FX_ONE};
use crate::intersection::Intersection;
use crate::material::Material;
use crate::matrix::{m_eye, Matrix};
use crate::point::Point;
use crate::ray::Ray;
use crate::shape::{m_world_normal, Object};
use crate::vector::{v3_dot, v3_normalize, v3_sub, V3, Vector};

verus! {

/// The unit sphere centered at the local origin, placed in the world by its
/// transform.
#[derive(Debug, Clone, Copy, PartialEq)]
pub struct Sphere {
    pub transform: Matrix,
    pub material: Material,
}

/// The local-space hit parameters of a ray against the unit sphere: the two
/// quadratic roots when the discriminant is nonnegative, else nothing.
pub open spec fn sphere_ts(o: V3, d: V3) -> Seq<int> {
    let s2r = v3_sub(o, V3 { x: 0, y: 0, z: 0 });
    let a = v3_dot(d, d);
    let b = fx_mul_raw(2 * (FX_ONE as int), v3_dot(d, s2r));
    let c = fx_sub_raw(v3_dot(s2r, s2r), FX_ONE as int);
    let disc = fx_sub_raw(fx_mul_raw(b, b), fx_mul_raw(fx_mul_raw(4 * (FX_ONE as int), a), c));
    if disc < 0 {
        Seq::empty()
    } else {
        let root = fx_sqrt_raw(disc);
        let denom = fx_mul_raw(2 * (FX_ONE as int), a);
        seq![
            fx_div_raw(fx_sub_raw(fx_neg_raw(b), root), denom),
            fx_div_raw(fx_add_raw(fx_neg_raw(b), root), denom),
        ]
    }
}

/// The local-space normal of the unit sphere: the hit point, seen as a
/// vector from the center, normalized.
pub open spec fn sphere_local_normal(p: V3) -> V3 {
    v3_normalize(v3_sub(p, V3 { x: 0, y: 0, z: 0 }))
}

impl Sphere {
    pub fn new(transform: Matrix, material: Material) -> (r: Sphere)
        ensures
            r.transform == transform,
            r.material == material,
    {
        Sphere { transform, material }
    }

    pub fn get_transform(&self) -> (r: Matrix)
        ensures
            r == self.transform,
    {
        self.transform
    }

    pub fn set_transform(&mut self, transform: Matrix)
        ensures
            final(self).transform == transform,
            final(self).material == old(self).material,
    {
        self.transform = transform;
    }

    pub fn get_material(&self) -> (r: Material)
        ensures
            r == self.material,
    {
        self.material
    }

    pub fn set_material(&mut self, material: Material)
        ensures
            final(self).material == material,
            final(self).transform == old(self).transform,
    {
        self.material = material;
    }

    /// Hits of a ray already expressed in the sphere's local space: the
    /// closed-form quadratic roots, in ascending order of the root sign.
    pub fn local_intersect(&self, ray: &Ray) -> (r: Vec<Intersection>)
        ensures
            r@.len() == sphere_ts(ray.origin@, ray.direction@).len(),
            forall|i: int| 0 <= i < r@.len() ==> #[trigger] r@[i].t@ == sphere_ts(
                ray.origin@,
                ray.direction@,
            )[i],
            forall|i: int| 0 <= i < r@.len() ==> (#[trigger] r@[i].object) == Object::Sphere(*self),
    {
        let sphere_to_ray = ray.origin.sub_point(Point::default());
        let a = ray.direction.dot(&ray.direction);
        let b = Fx { raw: 2 * FX_ONE }.mul(ray.direction.dot(&sphere_to_ray));
        let c = sphere_to_ray.dot(&sphere_to_ray).sub(Fx { raw: FX_ONE });
        let discriminant = b.mul(b).sub(Fx { raw: 4 * FX_ONE }.mul(a).mul(c));
        if discriminant.raw < 0 {
            Vec::new()
        } else {
            let root = discriminant.sqrt();
            let denom = Fx { raw: 2 * FX_ONE }.mul(a);
            let mut r: Vec<Intersection> = Vec::new();
            r.push(Intersection { t: b.neg().sub(root).div(denom), object: Object::Sphere(*self) });
            r.push(Intersection { t: b.neg().add(root).div(denom), object: Object::Sphere(*self) });
            r
        }
    }

    /// The local-space normal at a point on the unit sphere.
    pub fn local_normal_at(&self, point: Point) -> (r: Vector)
        ensures
            r@ == sphere_local_normal(point@),
    {
        point.sub_point(Point::default()).normalize()
    }

    /// The world-space normal: the local normal pushed through the inverse
    /// transpose of the transform and renormalized.
    pub fn normal_at(&self, point: Point) -> (r: Vector)
        requires
            self.transform.wf(),
            self.transform.dimension == 4,
            crate::matrix::m_det(self.transform.s(), 4) != 0,
        ensures
            r@ == m_world_normal(
                self.transform.s(),
                sphere_local_normal(crate::matrix::m_apply_point(crate::matrix::m_inv(self.transform.s(), 4), point@)),
            ),
    {
        let inverse = self.transform.inverse();
        let object_point = inverse.mul_point(point);
        let object_normal = self.local_normal_at(object_point);
        let world_normal = inverse.transpose().mul_vector(object_normal);
        world_normal.normalize()
    }
}

impl Default for Sphere {
    /// The unit sphere with the identity transform and the default material.
    fn default() -> (r: Sphere)
        ensures
            r.transform.wf(),
            r.transform.dimension == 4,
            r.transform.s() == m_eye(4),
            r.material == crate::material::default_material(),
    {
        Sphere { transform: Matrix::eye(4), material: Material::default() }
    }
}

} // verus!
