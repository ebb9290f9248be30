use vstd::prelude::*;

use crate::intersection::Intersection;
use crate::material::Material;
use crate::matrix::{m_apply_point, m_apply_vector, m_det, m_inv, m_transpose, Matrix};
use crate::plane::{plane_ts, Plane};
use crate::point::Point;
use crate::ray::Ray;
use crate::sphere::{sphere_local_normal, sphere_ts, Sphere};
use crate::vector::{v3_normalize, V3, Vector};

verus! {

/// The closed set of geometric primitives: a shape is a sphere or a plane,
/// each owning its transform and material, dispatched by exhaustive
/// matching.
#[derive(Debug, Clone, Copy, PartialEq)]
pub enum Object {
    Sphere(Sphere),
    Plane(Plane),
}

/// The object-to-world transform of a shape.
pub open spec fn transform_of(o: Object) -> Matrix {
    match o {
        Object::Sphere(s) => s.transform,
        Object::Plane(p) => p.transform,
    }
}

/// The material of a shape.
pub open spec fn material_of(o: Object) -> Material {
    match o {
        Object::Sphere(s) => s.material,
        Object::Plane(p) => p.material,
    }
}

/// A shape whose transform is a well-formed 4 x 4 matrix.
pub open spec fn object_wf(o: Object) -> bool {
    transform_of(o).wf() && transform_of(o).dimension == 4
}

/// A shape whose transform can be inverted.
pub open spec fn object_invertible(o: Object) -> bool {
    m_det(transform_of(o).s(), 4) != 0
}

/// The local-space hit parameters of a shape for a local-space ray.
pub open spec fn object_local_ts(o: Object, origin: V3, direction: V3) -> Seq<int> {
    match o {
        Object::Sphere(_) => sphere_ts(origin, direction),
        Object::Plane(_) => plane_ts(origin, direction),
    }
}

/// The local-space normal of a shape at a local-space point.
pub open spec fn object_local_normal(o: Object, p: V3) -> V3 {
    match o {
        Object::Sphere(_) => sphere_local_normal(p),
        Object::Plane(_) => V3 { x: 0, y: crate::fx::FX_ONE as int, z: 0 },
    }
}

/// A local normal carried to world space: pushed through the transpose of
/// the inverse transform, then renormalized.
pub open spec fn m_world_normal(g: Seq<int>, local_normal: V3) -> V3 {
    v3_normalize(m_apply_vector(m_transpose(m_inv(g, 4), 4), local_normal))
}

/// The world-space normal of a shape at a world-space point.
pub open spec fn object_normal_spec(o: Object, p: V3) -> V3 {
    let g = transform_of(o).s();
    m_world_normal(g, object_local_normal(o, m_apply_point(m_inv(g, 4), p)))
}

impl Object {
    pub fn get_transform(&self) -> (r: Matrix)
        ensures
            r == transform_of(*self),
    {
        match self {
            Object::Sphere(s) => s.transform,
            Object::Plane(p) => p.transform,
        }
    }

    pub fn get_material(&self) -> (r: Material)
        ensures
            r == material_of(*self),
    {
        match self {
            Object::Sphere(s) => s.material,
            Object::Plane(p) => p.material,
        }
    }

    pub fn set_material(&mut self, material: Material)
        ensures
            material_of(*final(self)) == material,
            transform_of(*final(self)) == transform_of(*old(self)),
            *final(self) is Sphere <==> *old(self) is Sphere,
    {
        match *self {
            Object::Sphere(s) => {
                *self = Object::Sphere(Sphere { transform: s.transform, material });
            },
            Object::Plane(p) => {
                *self = Object::Plane(Plane { transform: p.transform, material });
            },
        }
    }

    pub fn set_transform(&mut self, transform: Matrix)
        ensures
            transform_of(*final(self)) == transform,
            material_of(*final(self)) == material_of(*old(self)),
            *final(self) is Sphere <==> *old(self) is Sphere,
    {
        match *self {
            Object::Sphere(s) => {
                *self = Object::Sphere(Sphere { transform, material: s.material });
            },
            Object::Plane(p) => {
                *self = Object::Plane(Plane { transform, material: p.material });
            },
        }
    }

    /// Hits of a ray already expressed in the shape's local space.
    pub fn local_intersect(&self, ray: &Ray) -> (r: Vec<Intersection>)
        ensures
            r@.len() == object_local_ts(*self, ray.origin@, ray.direction@).len(),
            forall|i: int| 0 <= i < r@.len() ==> #[trigger] r@[i].t@ == object_local_ts(
                *self,
                ray.origin@,
                ray.direction@,
            )[i],
            forall|i: int| 0 <= i < r@.len() ==> (#[trigger] r@[i].object) == *self,
    {
        match self {
            Object::Sphere(s) => s.local_intersect(ray),
            Object::Plane(p) => p.local_intersect(ray),
        }
    }

    /// The local-space normal of the shape at a local-space point.
    pub fn local_normal_at(&self, point: Point) -> (r: Vector)
        ensures
            r@ == object_local_normal(*self, point@),
    {
        match self {
            Object::Sphere(s) => s.local_normal_at(point),
            Object::Plane(p) => p.local_normal_at(point),
        }
    }

    /// The world-space normal of the shape at a world-space point.
    pub fn normal_at(&self, point: Point) -> (r: Vector)
        requires
            object_wf(*self),
            object_invertible(*self),
        ensures
            r@ == object_normal_spec(*self, point@),
    {
        match self {
            Object::Sphere(s) => s.normal_at(point),
            Object::Plane(p) => p.normal_at(point),
        }
    }
}

} // verus!
