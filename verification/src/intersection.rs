use vstd::prelude::*;

use crate::fx::{Fx, FX_EPS_RAW};
use crate::point::Point;
use crate::ray::{ray_position, Ray};
use crate::shape::{
    object_invertible, object_normal_spec, object_wf, Object,
};
use crate::vector::{v3_add, v3_dot, v3_neg, v3_scale, V3, Vector};

verus! {

/// One crossing of a ray and a shape: the ray parameter of the crossing and
/// the shape that was crossed.
#[derive(Debug, Clone, Copy, PartialEq)]
#[verifier::ext_equal]
pub struct Intersection {
    pub t: Fx,
    pub object: Object,
}

/// Ghost model of the derived shading record.
pub ghost struct CompV {
    pub t: int,
    pub object: Object,
    pub point: V3,
    pub eyev: V3,
    pub normal: V3,
    pub inside: bool,
    pub over_point: V3,
}

/// The derived, per-hit shading data: surface point, eye vector, a normal
/// flipped toward the eye when the hit is seen from inside, and the
/// shadow-safe point nudged out along the normal.
#[derive(Debug, Clone, Copy, PartialEq)]
pub struct Computations {
    pub t: Fx,
    pub object: Object,
    pub point: Point,
    pub eyev: Vector,
    pub normal: Vector,
    pub inside: bool,
    pub over_point: Point,
}

impl View for Computations {
    type V = CompV;

    open spec fn view(&self) -> CompV {
        CompV {
            t: self.t@,
            object: self.object,
            point: self.point@,
            eyev: self.eyev@,
            normal: self.normal@,
            inside: self.inside,
            over_point: self.over_point@,
        }
    }
}

/// The first `k` intersections scanned for the hit: the intersection with
/// the least positive `t`, keeping the earlier one on a strict tie.
pub open spec fn hit_rec(xs: Seq<Intersection>, k: nat) -> Option<Intersection>
    decreases k,
{
    if k == 0 {
        Option::None
    } else {
        let prev = hit_rec(xs, (k - 1) as nat);
        let x = xs[k - 1];
        if x.t@ > 0 && (prev is None || x.t@ < prev.unwrap().t@) {
            Option::Some(x)
        } else {
            prev
        }
    }
}

/// The hit among a list of intersections.
pub open spec fn hit_spec(xs: Seq<Intersection>) -> Option<Intersection> {
    hit_rec(xs, xs.len())
}

/// What the scan guarantees: no hit means no positive parameter; a hit is a
/// member of the list, is positive, and no positive member is closer.
pub proof fn lemma_hit_rec_properties(xs: Seq<Intersection>, k: nat)
    requires
        k <= xs.len(),
    ensures
        hit_rec(xs, k) is None ==> forall|i: int| 0 <= i < k ==> #[trigger] xs[i].t@ <= 0,
        hit_rec(xs, k) is Some ==> {
            let h = hit_rec(xs, k).unwrap();
            &&& h.t@ > 0
            &&& exists|i: int| 0 <= i < k && xs[i] == h
            &&& forall|i: int| 0 <= i < k && #[trigger] xs[i].t@ > 0 ==> h.t@ <= xs[i].t@
        },
    decreases k,
{
    if k > 0 {
        lemma_hit_rec_properties(xs, (k - 1) as nat);
    }
}

/// The derived shading data of a hit.
pub open spec fn prepare_spec(i: Intersection, origin: V3, direction: V3) -> CompV {
    let point = ray_position(origin, direction, i.t@);
    let eyev = v3_neg(direction);
    let n0 = object_normal_spec(i.object, point);
    let inside = v3_dot(n0, eyev) < 0;
    let normal = if inside {
        v3_neg(n0)
    } else {
        n0
    };
    CompV {
        t: i.t@,
        object: i.object,
        point,
        eyev,
        normal,
        inside,
        over_point: v3_add(point, v3_scale(normal, FX_EPS_RAW as int)),
    }
}

impl Intersection {
    pub fn new(t: Fx, object: &Object) -> (r: Intersection)
        ensures
            r.t == t,
            r.object == *object,
    {
        Intersection { t, object: *object }
    }

    /// The visible hit among a list of intersections: intersections at or
    /// behind the ray origin (`t <= 0`) are discarded, and the least `t`
    /// wins among the rest. Returns nothing when every intersection is
    /// behind the origin.
    pub fn hit(intersections: &Vec<Intersection>) -> (r: Option<Intersection>)
        ensures
            r == hit_spec(intersections@),
            r is None ==> forall|i: int|
                0 <= i < intersections@.len() ==> #[trigger] intersections@[i].t@ <= 0,
            r is Some ==> {
                let h = r.unwrap();
                &&& h.t@ > 0
                &&& exists|i: int| 0 <= i < intersections@.len() && intersections@[i] == h
                &&& forall|i: int|
                    0 <= i < intersections@.len() && #[trigger] intersections@[i].t@ > 0
                        ==> h.t@ <= intersections@[i].t@
            },
    {
        let mut best: Option<Intersection> = None;
        let mut k: usize = 0;
        while k < intersections.len()
            invariant
                k <= intersections@.len(),
                best == hit_rec(intersections@, k as nat),
            decreases intersections@.len() - k,
        {
            let x = intersections[k];
            let better = x.t.raw > 0 && match best {
                Option::Some(b) => x.t.raw < b.t.raw,
                Option::None => true,
            };
            if better {
                best = Some(x);
            }
            k = k + 1;
        }
        proof {
            lemma_hit_rec_properties(intersections@, intersections@.len());
        }
        best
    }

    /// The shading data derived from this hit for the given ray.
    pub fn prepare_computations(&self, ray: &Ray) -> (r: Computations)
        requires
            object_wf(self.object),
            object_invertible(self.object),
        ensures
            r@ == prepare_spec(*self, ray.origin@, ray.direction@),
    {
        let point = ray.position(self.t);
        let eyev = ray.direction.neg();
        let normal = self.object.normal_at(point);
        let inside = normal.dot(&eyev).raw < 0;
        let normal = if inside {
            normal.neg()
        } else {
            normal
        };
        Computations {
            t: self.t,
            object: self.object,
            point,
            eyev,
            normal,
            inside,
            over_point: point.add(normal.scale(Fx { raw: FX_EPS_RAW })),
        }
    }
}

} // verus!
