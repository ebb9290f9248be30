use vstd::prelude::*;

use crate::color::{c3_black, C3, Color};
use crate::intersection::{hit_spec, prepare_spec, CompV, Computations, Intersection};
use crate::light::PointLight;
use crate::material::lighting_spec;
use crate::point::Point;
use crate::ray::{ray_object_xs, Ray};
use crate::shape::{material_of, object_invertible, object_wf, Object};
use crate::vector::{v3_magnitude, v3_normalize, v3_sub, V3};

verus! {

/// The scene: an ordered collection of shapes and the single point light.
#[derive(Debug, Clone, PartialEq)]
pub struct World {
    pub objects: Vec<Object>,
    pub light: PointLight,
}

/// Every shape of the world has a well-formed, invertible transform; scenes
/// must guarantee this, as a singular transform is a fatal configuration
/// error.
pub open spec fn world_wf(w: World) -> bool {
    forall|i: int|
        0 <= i < w.objects@.len() ==> object_wf(#[trigger] w.objects@[i]) && object_invertible(
            w.objects@[i],
        )
}

/// Ascending by the ray parameter.
pub open spec fn sorted_by_t(s: Seq<Intersection>) -> bool {
    forall|i: int, j: int| 0 <= i < j < s.len() ==> #[trigger] s[i].t@ <= #[trigger] s[j].t@
}

/// One intersection placed into an ascending list, after any equal
/// parameters.
pub open spec fn insert_by_t(s: Seq<Intersection>, x: Intersection) -> Seq<Intersection>
    decreases s.len(),
{
    if s.len() == 0 {
        seq![x]
    } else if s.last().t@ <= x.t@ {
        s.push(x)
    } else {
        insert_by_t(s.drop_last(), x).push(s.last())
    }
}

/// The first `k` of a batch of intersections placed into a list one by one.
pub open spec fn insert_all(s: Seq<Intersection>, batch: Seq<Intersection>, k: nat) -> Seq<
    Intersection,
>
    decreases k,
{
    if k == 0 {
        s
    } else {
        insert_by_t(insert_all(s, batch, (k - 1) as nat), batch[k - 1])
    }
}

/// The ascending list of every intersection of a ray with the first `k`
/// shapes of the scene.
pub open spec fn world_xs(objects: Seq<Object>, origin: V3, direction: V3, k: nat) -> Seq<
    Intersection,
>
    decreases k,
{
    if k == 0 {
        Seq::empty()
    } else {
        let prev = world_xs(objects, origin, direction, (k - 1) as nat);
        let batch = ray_object_xs(objects[k - 1], origin, direction);
        insert_all(prev, batch, batch.len())
    }
}

/// The ascending list of every intersection of a ray with the scene.
pub open spec fn world_intersections(w: World, origin: V3, direction: V3) -> Seq<Intersection> {
    world_xs(w.objects@, origin, direction, w.objects@.len())
}

/// Every intersection of the list was produced by a well-formed, invertible
/// shape.
pub open spec fn xs_objects_ok(s: Seq<Intersection>) -> bool {
    forall|i: int|
        0 <= i < s.len() ==> object_wf(#[trigger] s[i].object) && object_invertible(s[i].object)
}

/// A point is shadowed when some shape stands strictly between it and the
/// light: the shadow ray toward the light meets a shape at a positive
/// parameter no further than the light itself.
pub open spec fn is_shadowed_spec(w: World, p: V3) -> bool {
    let direction = v3_sub(w.light.position@, p);
    let distance = v3_magnitude(direction);
    let xs = world_intersections(w, p, v3_normalize(direction));
    exists|i: int| 0 <= i < xs.len() && 0 < #[trigger] xs[i].t@ <= distance
}

/// The color of a shaded hit: the Phong model on the hit's material, with
/// the shadow test made at the nudged-out over point.
pub open spec fn shade_hit_spec(w: World, c: CompV) -> C3 {
    lighting_spec(
        material_of(c.object),
        c.point,
        w.light,
        c.eyev,
        c.normal,
        is_shadowed_spec(w, c.over_point),
    )
}

/// The color a ray produces: black where it hits nothing, else the shaded
/// visible hit.
pub open spec fn color_at_spec(w: World, origin: V3, direction: V3) -> C3 {
    let xs = world_intersections(w, origin, direction);
    let h = hit_spec(xs);
    if h is None {
        c3_black()
    } else {
        shade_hit_spec(w, prepare_spec(h.unwrap(), origin, direction))
    }
}

/// Inserting keeps every parameter below a common bound.
proof fn lemma_insert_bound(s: Seq<Intersection>, x: Intersection, b: int)
    requires
        forall|i: int| 0 <= i < s.len() ==> #[trigger] s[i].t@ <= b,
        x.t@ <= b,
    ensures
        forall|i: int| 0 <= i < insert_by_t(s, x).len() ==> #[trigger] insert_by_t(s, x)[i].t@
            <= b,
        insert_by_t(s, x).len() == s.len() + 1,
    decreases s.len(),
{
    if s.len() != 0 && !(s.last().t@ <= x.t@) {
        lemma_insert_bound(s.drop_last(), x, b);
    }
}

/// Inserting into an ascending list keeps it ascending, and keeps each
/// shape well-formed when the new one is.
proof fn lemma_insert_sorted(s: Seq<Intersection>, x: Intersection)
    requires
        sorted_by_t(s),
        xs_objects_ok(s),
        object_wf(x.object),
        object_invertible(x.object),
    ensures
        sorted_by_t(insert_by_t(s, x)),
        xs_objects_ok(insert_by_t(s, x)),
        insert_by_t(s, x).len() == s.len() + 1,
    decreases s.len(),
{
    if s.len() == 0 {
    } else if s.last().t@ <= x.t@ {
    } else {
        assert(sorted_by_t(s.drop_last()));
        assert(xs_objects_ok(s.drop_last()));
        lemma_insert_sorted(s.drop_last(), x);
        lemma_insert_bound(s.drop_last(), x, s.last().t@);
    }
}

/// Where the scan of the exec insertion stops, the recursive insertion
/// places the element: at index `j`, with everything else unmoved.
proof fn lemma_insert_at(s: Seq<Intersection>, x: Intersection, j: int)
    requires
        0 <= j <= s.len(),
        forall|k: int| j <= k < s.len() ==> #[trigger] s[k].t@ > x.t@,
        j > 0 ==> s[j - 1].t@ <= x.t@,
    ensures
        insert_by_t(s, x) == s.insert(j, x),
    decreases s.len(),
{
    if s.len() == 0 {
        assert(insert_by_t(s, x) =~= s.insert(0, x));
    } else if s.last().t@ <= x.t@ {
        assert(j == s.len());
        assert(insert_by_t(s, x) =~= s.insert(j, x));
    } else {
        assert(j < s.len());
        lemma_insert_at(s.drop_last(), x, j);
        assert(insert_by_t(s.drop_last(), x).push(s.last()) =~= s.insert(j, x));
    }
}

/// Places one intersection into an ascending vector, after any equal
/// parameters.
fn insert_sorted(v: &mut Vec<Intersection>, x: Intersection)
    ensures
        final(v)@ == insert_by_t(old(v)@, x),
{
    let mut j: usize = v.len();
    while j > 0 && v[j - 1].t.raw > x.t.raw
        invariant
            j <= v@.len(),
            forall|k: int| j <= k < v@.len() ==> #[trigger] v@[k].t@ > x.t@,
        decreases j,
    {
        j = j - 1;
    }
    proof {
        lemma_insert_at(v@, x, j as int);
    }
    v.insert(j, x);
}

impl World {
    pub fn new(objects: Vec<Object>, light: PointLight) -> (r: World)
        ensures
            r.objects == objects,
            r.light == light,
    {
        World { objects, light }
    }

    /// Every intersection of the ray with every shape of the scene,
    /// ascending by the ray parameter.
    pub fn intersect(&self, ray: &Ray) -> (r: Vec<Intersection>)
        requires
            world_wf(*self),
        ensures
            r@ == world_intersections(*self, ray.origin@, ray.direction@),
            sorted_by_t(r@),
            xs_objects_ok(r@),
    {
        let mut result: Vec<Intersection> = Vec::new();
        let mut oi: usize = 0;
        while oi < self.objects.len()
            invariant
                world_wf(*self),
                oi <= self.objects@.len(),
                result@ == world_xs(self.objects@, ray.origin@, ray.direction@, oi as nat),
                sorted_by_t(result@),
                xs_objects_ok(result@),
            decreases self.objects@.len() - oi,
        {
            let batch = ray.intersect(&self.objects[oi]);
            let ghost base = result@;
            let mut bi: usize = 0;
            while bi < batch.len()
                invariant
                    world_wf(*self),
                    oi < self.objects@.len(),
                    bi <= batch@.len(),
                    batch@ == ray_object_xs(self.objects@[oi as int], ray.origin@, ray.direction@),
                    result@ == insert_all(base, batch@, bi as nat),
                    sorted_by_t(result@),
                    xs_objects_ok(result@),
                decreases batch@.len() - bi,
            {
                let x = batch[bi];
                proof {
                    assert(object_wf(x.object) && object_invertible(x.object));
                    lemma_insert_sorted(result@, x);
                }
                insert_sorted(&mut result, x);
                bi = bi + 1;
            }
            oi = oi + 1;
        }
        result
    }

    /// Whether a shape stands between the point and the light: the visible
    /// hit of the shadow ray, if any, lies no further than the light.
    pub fn is_shadowed(&self, point: Point) -> (r: bool)
        requires
            world_wf(*self),
        ensures
            r == is_shadowed_spec(*self, point@),
    {
        let direction = self.light.position.sub_point(point);
        let distance = direction.magnitude();
        let ray = Ray::new(point, direction.normalize());
        let xs = self.intersect(&ray);
        let h = Intersection::hit(&xs);
        match h {
            Option::Some(h) => h.t.raw <= distance.raw,
            Option::None => false,
        }
    }

    /// The color of a shaded hit, with the shadow test made at the hit's
    /// over point.
    pub fn shade_hit(&self, comps: Computations) -> (r: Color)
        requires
            world_wf(*self),
        ensures
            r@ == shade_hit_spec(*self, comps@),
    {
        let shadowed = self.is_shadowed(comps.over_point);
        self.object_material(&comps).lighting(comps.point, self.light, comps.eyev, comps.normal, shadowed)
    }

    /// The material of the hit shape.
    fn object_material(&self, comps: &Computations) -> (r: crate::material::Material)
        ensures
            r == material_of(comps.object),
    {
        comps.object.get_material()
    }

    /// The color the ray produces: black where it hits nothing, else the
    /// shaded visible hit.
    pub fn color_at(&self, ray: &Ray) -> (r: Color)
        requires
            world_wf(*self),
        ensures
            r@ == color_at_spec(*self, ray.origin@, ray.direction@),
    {
        let xs = self.intersect(ray);
        let h = Intersection::hit(&xs);
        match h {
            Option::None => Color::black(),
            Option::Some(hit) => {
                proof {
                    let i = choose|i: int| 0 <= i < xs@.len() && xs@[i] == hit;
                    assert(object_wf(hit.object) && object_invertible(hit.object));
                }
                let comps = hit.prepare_computations(ray);
                self.shade_hit(comps)
            },
        }
    }
}

impl Default for World {
    /// An empty scene with the default light.
    fn default() -> (r: World)
        ensures
            r.objects@.len() == 0,
            r.light.position@ == (V3 { x: 0, y: 0, z: 0 }),
            r.light.intensity@ == crate::color::c3_white(),
    {
        World { objects: Vec::new(), light: PointLight::default() }
    }
}

} // verus!
