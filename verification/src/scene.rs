//! An unordered collection of primitives and its nearest-hit query.

use vstd::prelude::*;

use crate::hit::Hit;
use crate::model::Model;
use crate::ray::Ray;

verus! {

/// Minimum accepted hit distance (about 1e-7), suppressing immediate
/// self-re-intersection at a surface point.
pub const HIT_EPSILON: i64 = 429;

/// An `Option<Hit>` that the scene query would accept.
pub open spec fn hit_is_valid(o: Option<Hit>) -> bool {
    match o {
        None => false,
        Some(h) => h.factor > HIT_EPSILON,
    }
}

/// Fold step of the linear scan: a candidate replaces the best hit so far
/// when it is valid and strictly nearer.
pub open spec fn spec_better(best: Option<Hit>, cand: Option<Hit>) -> Option<Hit> {
    match cand {
        None => best,
        Some(h) => {
            let closer = match best {
                None => true,
                Some(b) => h.factor < b.factor,
            };
            if h.factor > HIT_EPSILON && closer {
                Some(h)
            } else {
                best
            }
        },
    }
}

/// The linear scan over the primitives, carrying the best hit so far.
pub open spec fn spec_scan<M: Model>(objects: Seq<M>, ray: Ray, best: Option<Hit>) -> Option<Hit>
    decreases objects.len(),
{
    if objects.len() == 0 {
        best
    } else {
        spec_scan(objects.drop_first(), ray, spec_better(best, objects.first().hit_spec(ray)))
    }
}

/// The scene's answer for `ray`: the valid hit of smallest factor, the
/// first-scanned primitive winning ties.
pub open spec fn spec_scene_hit<M: Model>(objects: Seq<M>, ray: Ray) -> Option<Hit> {
    spec_scan(objects, ray, None)
}

proof fn lemma_scan_props<M: Model>(objects: Seq<M>, ray: Ray, best: Option<Hit>)
    requires
        best is Some ==> hit_is_valid(best),
    ensures
        ({
            let r = spec_scan(objects, ray, best);
            &&& (r is None ==> best is None && (forall|i: int|
                0 <= i < objects.len() ==> !hit_is_valid(#[trigger] objects[i].hit_spec(ray))))
            &&& (best is None && (forall|i: int|
                0 <= i < objects.len() ==> !hit_is_valid(#[trigger] objects[i].hit_spec(ray)))
                ==> r is None)
            &&& (r is Some ==> hit_is_valid(r))
            &&& (r is Some ==> r == best || (exists|i: int|
                0 <= i < objects.len() && #[trigger] objects[i].hit_spec(ray) == r))
            &&& (r is Some && best is Some ==> r.unwrap().factor <= best.unwrap().factor)
            &&& (r is Some ==> forall|i: int|
                0 <= i < objects.len() && hit_is_valid(#[trigger] objects[i].hit_spec(ray))
                    ==> r.unwrap().factor <= objects[i].hit_spec(ray).unwrap().factor)
        }),
    decreases objects.len(),
{
    let r = spec_scan(objects, ray, best);
    if objects.len() == 0 {
        assert(r == best);
    } else {
        let rest = objects.drop_first();
        let c0 = objects.first().hit_spec(ray);
        let best1 = spec_better(best, c0);
        lemma_scan_props(rest, ray, best1);
        let rr = spec_scan(rest, ray, best1);
        assert(r == rr);
        assert(objects[0] == objects.first());
        assert(forall|j: int| 0 <= j < rest.len() ==> #[trigger] rest[j] == objects[j + 1]);

        if r is None {
            assert(best1 is None);
            assert(best is None);
            assert forall|i: int| 0 <= i < objects.len() implies !hit_is_valid(
                #[trigger] objects[i].hit_spec(ray),
            ) by {
                if i == 0 {
                    assert(!hit_is_valid(c0));
                } else {
                    assert(rest[i - 1] == objects[i]);
                    assert(!hit_is_valid(rest[i - 1].hit_spec(ray)));
                }
            }
        }
        if best is None && (forall|i: int|
            0 <= i < objects.len() ==> !hit_is_valid(#[trigger] objects[i].hit_spec(ray))) {
            assert(objects[0].hit_spec(ray) == c0);
            assert(!hit_is_valid(c0));
            assert(best1 is None);
            assert forall|j: int| 0 <= j < rest.len() implies !hit_is_valid(
                #[trigger] rest[j].hit_spec(ray),
            ) by {
                assert(objects[j + 1].hit_spec(ray) == rest[j].hit_spec(ray));
            }
            assert(rr is None);
        }
        if r is Some {
            if rr == best1 {
                if best1 != best {
                    assert(objects[0].hit_spec(ray) == r);
                    assert(exists|i: int|
                        0 <= i < objects.len() && #[trigger] objects[i].hit_spec(ray) == r);
                }
            } else {
                let j = choose|j: int|
                    0 <= j < rest.len() && #[trigger] rest[j].hit_spec(ray) == r;
                assert(objects[j + 1].hit_spec(ray) == r);
                assert(exists|i: int|
                    0 <= i < objects.len() && #[trigger] objects[i].hit_spec(ray) == r);
            }
            assert forall|i: int|
                0 <= i < objects.len() && hit_is_valid(#[trigger] objects[i].hit_spec(ray))
                    implies r.unwrap().factor <= objects[i].hit_spec(ray).unwrap().factor by {
                if i == 0 {
                    if best1 == c0 {
                        assert(r.unwrap().factor <= best1.unwrap().factor);
                    } else {
                        assert(best is Some && best1 == best);
                        assert(best.unwrap().factor <= c0.unwrap().factor);
                        assert(r.unwrap().factor <= best1.unwrap().factor);
                    }
                } else {
                    assert(rest[i - 1].hit_spec(ray) == objects[i].hit_spec(ray));
                    assert(hit_is_valid(rest[i - 1].hit_spec(ray)));
                }
            }
        }
    }
}

proof fn lemma_scan_push<M: Model>(objects: Seq<M>, x: M, ray: Ray, best: Option<Hit>)
    ensures
        spec_scan(objects.push(x), ray, best) == spec_better(
            spec_scan(objects, ray, best),
            x.hit_spec(ray),
        ),
    decreases objects.len(),
{
    let s = objects.push(x);
    assert(s.len() == objects.len() + 1);
    if objects.len() == 0 {
        assert(s.first() == x);
        assert(s.drop_first() =~= Seq::<M>::empty());
        assert(spec_scan(s, ray, best) == spec_scan(
            s.drop_first(),
            ray,
            spec_better(best, x.hit_spec(ray)),
        ));
        assert(spec_scan(Seq::<M>::empty(), ray, spec_better(best, x.hit_spec(ray)))
            == spec_better(best, x.hit_spec(ray)));
        assert(spec_scan(objects, ray, best) == best);
    } else {
        assert(s.first() == objects.first());
        assert(s.drop_first() =~= objects.drop_first().push(x));
        let b1 = spec_better(best, objects.first().hit_spec(ray));
        lemma_scan_push(objects.drop_first(), x, ray, b1);
        assert(spec_scan(s, ray, best) == spec_scan(s.drop_first(), ray, b1));
        assert(spec_scan(objects, ray, best) == spec_scan(objects.drop_first(), ray, b1));
    }
}

/// A scene owns its primitives and is immutable after construction; during
/// rendering it is only queried.
#[derive(Clone, Debug)]
pub struct Scene<M: Model> {
    pub objects: Vec<M>,
}

impl<M: Model> Scene<M> {
    pub fn new(objects: Vec<M>) -> (s: Scene<M>)
        ensures
            s.objects == objects,
    {
        Scene { objects }
    }

    /// The globally nearest valid hit: minimal factor strictly above
    /// [`HIT_EPSILON`], or `None` when no primitive is hit.
    pub fn intersect(&self, ray: &Ray) -> (r: Option<Hit>)
        ensures
            r == spec_scene_hit(self.objects@, *ray),
    {
        let mut closest: Option<Hit> = None;
        let n: usize = self.objects.len();
        let mut i: usize = 0;
        while i < n
            invariant
                i <= n,
                n == self.objects@.len(),
                closest == spec_scene_hit(self.objects@.take(i as int), *ray),
            decreases n - i,
        {
            let cand: Option<Hit> = self.objects[i].hit(ray);
            let accept: bool = match (&cand, &closest) {
                (None, _) => false,
                (Some(h), None) => h.factor > HIT_EPSILON,
                (Some(h), Some(b)) => h.factor > HIT_EPSILON && h.factor < b.factor,
            };
            proof {
                lemma_scan_push(
                    self.objects@.take(i as int),
                    self.objects@[i as int],
                    *ray,
                    None,
                );
                assert(self.objects@.take(i + 1) =~= self.objects@.take(i as int).push(
                    self.objects@[i as int],
                ));
            }
            if accept {
                closest = cand;
            }
            i = i + 1;
        }
        proof {
            assert(self.objects@.take(n as int) =~= self.objects@);
        }
        closest
    }
}

/// The scene query really is the nearest-hit query: when it answers `None`
/// no primitive has a valid hit, and when it answers a hit, that hit comes
/// from some primitive, lies beyond the self-intersection epsilon, and no
/// primitive has a valid hit strictly nearer.
pub proof fn lemma_scene_hit_is_nearest<M: Model>(objects: Seq<M>, ray: Ray)
    ensures
        ({
            let r = spec_scene_hit(objects, ray);
            &&& (r is None <==> (forall|i: int|
                0 <= i < objects.len() ==> !hit_is_valid(#[trigger] objects[i].hit_spec(ray))))
            &&& (r is Some ==> r.unwrap().factor > HIT_EPSILON)
            &&& (r is Some ==> exists|i: int|
                0 <= i < objects.len() && #[trigger] objects[i].hit_spec(ray) == r)
            &&& (r is Some ==> forall|i: int|
                0 <= i < objects.len() && hit_is_valid(#[trigger] objects[i].hit_spec(ray))
                    ==> r.unwrap().factor <= objects[i].hit_spec(ray).unwrap().factor)
        }),
{
    lemma_scan_props(objects, ray, None);
}

} // verus!
