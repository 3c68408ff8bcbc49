//! The intersection engine: every hit of a ray in a scene, in order.

use vstd::prelude::*;
use crate::intersection::Intersection;
use crate::intersection_list::{
    is_sorted, lemma_sort_by_t_push, lemma_sort_by_t_sorts, sort_by_t, IntersectionList,
    IntersectionListOps, MAX_INTERSECTIONLIST_LEN,
};
use crate::ray::Ray;
use crate::scalar::Scalar;
use crate::shape::Shape;
use crate::world::{spec_root_bound, World};

verus! {

/// The distances `ts` as hits on the shape at place `shape`.
pub open spec fn spec_tag(ts: Seq<Scalar>, shape: usize) -> Seq<Intersection> {
    Seq::new(ts.len(), |k: int| Intersection { t: ts[k], shape })
}

/// Every hit of `ray` on `shapes`, shape after shape, each shape's hits in
/// the order in which its geometry gives them.
pub open spec fn spec_candidates(shapes: Seq<Shape>, ray: Ray) -> Seq<Intersection>
    decreases shapes.len(),
{
    if shapes.len() == 0 {
        Seq::empty()
    } else {
        spec_candidates(shapes.drop_last(), ray) + spec_tag(
            shapes.last().spec_intersect(ray),
            (shapes.len() - 1) as usize,
        )
    }
}

/// Every hit of `ray` on `shapes` in order of distance; equally distant hits
/// in the order of their shapes.
pub open spec fn spec_intersect_world(shapes: Seq<Shape>, ray: Ray) -> Seq<Intersection> {
    sort_by_t(spec_candidates(shapes, ray))
}

/// Every hit names a shape of the scene.
pub open spec fn spec_refers_within(xs: Seq<Intersection>, shapes: Seq<Shape>) -> bool {
    forall|k: int| 0 <= k < xs.len() ==> (#[trigger] xs[k]).shape < shapes.len()
}

/// A ray has no more hits than the kinds of the shapes allow, and each hit
/// names one of the shapes.
pub proof fn lemma_candidates_bounded(shapes: Seq<Shape>, ray: Ray)
    ensures
        spec_candidates(shapes, ray).len() <= spec_root_bound(shapes),
        spec_refers_within(spec_candidates(shapes, ray), shapes),
    decreases shapes.len(),
{
    if shapes.len() > 0 {
        lemma_candidates_bounded(shapes.drop_last(), ray);
        crate::shape::lemma_root_count(shapes.last().kind, ray.spec_transform(shapes.last().inverse_transformation));
    }
}

/// The hits on the first `k` shapes are the first of the hits on all.
pub proof fn lemma_candidates_prefix(shapes: Seq<Shape>, ray: Ray, k: int)
    requires
        0 <= k <= shapes.len(),
    ensures
        spec_candidates(shapes.subrange(0, k), ray).len() <= spec_candidates(shapes, ray).len(),
    decreases shapes.len() - k,
{
    if k == shapes.len() {
        assert(shapes.subrange(0, k) =~= shapes);
    } else {
        lemma_candidates_prefix(shapes, ray, k + 1);
        assert(shapes.subrange(0, k + 1).drop_last() =~= shapes.subrange(0, k));
    }
}

/// Sorting keeps every hit within the scene.
pub proof fn lemma_sorted_refers_within(xs: Seq<Intersection>, shapes: Seq<Shape>)
    requires
        spec_refers_within(xs, shapes),
    ensures
        spec_refers_within(sort_by_t(xs), shapes),
{
    broadcast use vstd::seq_lib::group_to_multiset_ensures;

    lemma_sort_by_t_sorts(xs);
    let sorted = sort_by_t(xs);
    assert forall|k: int| 0 <= k < sorted.len() implies (#[trigger] sorted[k]).shape < shapes.len() by {
        assert(sorted.to_multiset().count(sorted[k]) > 0);
        assert(xs.contains(sorted[k]));
        let j = choose|j: int| 0 <= j < xs.len() && xs[j] == sorted[k];
        assert(xs[j].shape < shapes.len());
    }
}

impl World {
    /// No ray has more hits in this scene than a list of hits holds.
    pub open spec fn spec_fits(&self) -> bool {
        forall|ray: Ray| #[trigger] spec_candidates(self.shapes@, ray).len() <= MAX_INTERSECTIONLIST_LEN
    }

    /// Tells whether the kinds of the shapes alone show that no ray can have
    /// more hits than a list of hits holds.
    pub fn fits_hit_list(&self) -> (b: bool)
        ensures
            b == (spec_root_bound(self.shapes@) <= MAX_INTERSECTIONLIST_LEN),
            b ==> self.spec_fits(),
    {
        let b = match self.root_bound() {
            Some(n) => n <= MAX_INTERSECTIONLIST_LEN,
            None => false,
        };
        proof {
            if b {
                assert forall|ray: Ray| #[trigger]
                    spec_candidates(self.shapes@, ray).len() <= MAX_INTERSECTIONLIST_LEN by {
                    lemma_candidates_bounded(self.shapes@, ray);
                }
            }
        }
        b
    }
}

impl Intersection {
    /// Collects every hit of `r` on the shapes of `w` into a list, in order
    /// of distance.
    pub fn intersect_world(w: &World, r: &Ray) -> (xs: IntersectionList)
        requires
            spec_candidates(w.shapes@, *r).len() <= MAX_INTERSECTIONLIST_LEN,
        ensures
            xs@ == spec_intersect_world(w.shapes@, *r),
            is_sorted(xs@),
            spec_refers_within(xs@, w.shapes@),
            xs.spec_capacity() == MAX_INTERSECTIONLIST_LEN,
    {
        let mut xs = IntersectionList::new();
        let n = w.shapes.len();
        let mut i: usize = 0;
        while i < n
            invariant
                i <= n == w.shapes@.len(),
                spec_candidates(w.shapes@, *r).len() <= MAX_INTERSECTIONLIST_LEN,
                xs@ == sort_by_t(spec_candidates(w.shapes@.subrange(0, i as int), *r)),
                xs.spec_capacity() == MAX_INTERSECTIONLIST_LEN,
            decreases n - i,
        {
            let ts = w.shapes[i].intersect(r);
            let ghost base = spec_candidates(w.shapes@.subrange(0, i as int), *r);
            let ghost next = spec_candidates(w.shapes@.subrange(0, i + 1), *r);
            proof {
                assert(w.shapes@.subrange(0, i + 1).drop_last() =~= w.shapes@.subrange(0, i as int));
                assert(next == base + spec_tag(ts@, i));
                lemma_candidates_prefix(w.shapes@, *r, i + 1);
                assert(spec_tag(ts@.subrange(0, 0), i) =~= Seq::<Intersection>::empty());
                assert(base + spec_tag(ts@.subrange(0, 0), i) =~= base);
            }
            let m = ts.len();
            let mut k: usize = 0;
            while k < m
                invariant
                    k <= m == ts@.len(),
                    base.len() + m <= MAX_INTERSECTIONLIST_LEN,
                    xs@ == sort_by_t(base + spec_tag(ts@.subrange(0, k as int), i)),
                    xs.spec_capacity() == MAX_INTERSECTIONLIST_LEN,
                decreases m - k,
            {
                let ghost sofar = base + spec_tag(ts@.subrange(0, k as int), i);
                let x = Intersection::new(ts[k], i);
                proof {
                    lemma_sort_by_t_sorts(sofar);
                }
                xs.add(x);
                proof {
                    lemma_sort_by_t_push(sofar, x);
                    assert(sofar.push(x) =~= base + spec_tag(ts@.subrange(0, k + 1), i));
                }
                k += 1;
            }
            proof {
                assert(ts@.subrange(0, m as int) =~= ts@);
            }
            i += 1;
        }
        proof {
            assert(w.shapes@.subrange(0, n as int) =~= w.shapes@);
            lemma_sort_by_t_sorts(spec_candidates(w.shapes@, *r));
            lemma_candidates_bounded(w.shapes@, *r);
            lemma_sorted_refers_within(spec_candidates(w.shapes@, *r), w.shapes@);
        }
        xs
    }
}

} // verus!
