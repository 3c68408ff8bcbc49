//! The bounded list of hits along one ray, kept in order of distance.

use vstd::prelude::*;
use crate::intersection::Intersection;

verus! {

/// The most hits one list holds.
pub const MAX_INTERSECTIONLIST_LEN: usize = 100;

/// No hit stands before a nearer one.
pub open spec fn is_sorted(s: Seq<Intersection>) -> bool {
    forall|i: int, j: int| 0 <= i < j < s.len() ==> s[i].t.raw <= s[j].t.raw
}

/// `s` with `x` put behind the last hit that is not farther than `x`. In a
/// sorted `s` this keeps the order, and among equally distant hits the one
/// that came first stays first.
pub open spec fn sorted_insert(s: Seq<Intersection>, x: Intersection) -> Seq<Intersection>
    decreases s.len(),
{
    if s.len() == 0 {
        seq![x]
    } else if s.last().t.raw <= x.t.raw {
        s.push(x)
    } else {
        sorted_insert(s.drop_last(), x).push(s.last())
    }
}

/// The hits of `s` in order of distance, equally distant ones in the order
/// in which `s` has them: each hit in turn is inserted into those before it.
pub open spec fn sort_by_t(s: Seq<Intersection>) -> Seq<Intersection>
    decreases s.len(),
{
    if s.len() == 0 {
        s
    } else {
        sorted_insert(sort_by_t(s.drop_last()), s.last())
    }
}

/// The first hit that does not lie behind the ray's origin, if there is one.
pub open spec fn spec_hit(s: Seq<Intersection>) -> Option<Intersection>
    decreases s.len(),
{
    if s.len() == 0 {
        None
    } else if s[0].t.raw >= 0 {
        Some(s[0])
    } else {
        spec_hit(s.drop_first())
    }
}

/// Inserting adds one hit and loses none.
pub proof fn lemma_sorted_insert_content(s: Seq<Intersection>, x: Intersection)
    ensures
        sorted_insert(s, x).len() == s.len() + 1,
        sorted_insert(s, x).to_multiset() == s.to_multiset().insert(x),
    decreases s.len(),
{
    broadcast use vstd::seq_lib::group_to_multiset_ensures;

    if s.len() == 0 {
        assert(s =~= Seq::empty());
        assert(seq![x] =~= Seq::<Intersection>::empty().push(x));
    } else if s.last().t.raw <= x.t.raw {
    } else {
        lemma_sorted_insert_content(s.drop_last(), x);
        assert(s =~= s.drop_last().push(s.last()));
        assert(s.to_multiset() == s.drop_last().to_multiset().insert(s.last()));
        assert(s.drop_last().to_multiset().insert(x).insert(s.last()) =~= s.drop_last().to_multiset().insert(
            s.last(),
        ).insert(x));
    }
}

/// Inserting into a sorted list leaves it sorted.
pub proof fn lemma_sorted_insert_sorted(s: Seq<Intersection>, x: Intersection)
    requires
        is_sorted(s),
    ensures
        is_sorted(sorted_insert(s, x)),
    decreases s.len(),
{
    if s.len() == 0 {
    } else if s.last().t.raw <= x.t.raw {
    } else {
        let front = s.drop_last();
        lemma_sorted_insert_sorted(front, x);
        lemma_sorted_insert_content(front, x);
        let r = sorted_insert(front, x);
        assert forall|i: int| 0 <= i < r.len() implies r[i].t.raw <= s.last().t.raw by {
            broadcast use vstd::seq_lib::group_to_multiset_ensures;

            assert(r.to_multiset().count(r[i]) > 0);
            if r[i] != x {
                assert(front.to_multiset().count(r[i]) > 0);
                assert(front.contains(r[i]));
                let k = choose|k: int| 0 <= k < front.len() && front[k] == r[i];
                assert(s[k] == r[i]);
            }
        }
    }
}

/// What `sort_by_t` gives is sorted, and it holds the hits of its argument,
/// each as often as the argument does.
pub proof fn lemma_sort_by_t_sorts(s: Seq<Intersection>)
    ensures
        is_sorted(sort_by_t(s)),
        sort_by_t(s).len() == s.len(),
        sort_by_t(s).to_multiset() == s.to_multiset(),
    decreases s.len(),
{
    broadcast use vstd::seq_lib::group_to_multiset_ensures;

    if s.len() == 0 {
    } else {
        lemma_sort_by_t_sorts(s.drop_last());
        lemma_sorted_insert_sorted(sort_by_t(s.drop_last()), s.last());
        lemma_sorted_insert_content(sort_by_t(s.drop_last()), s.last());
        assert(s =~= s.drop_last().push(s.last()));
    }
}

/// Sorting changes nothing in a list that is sorted.
pub proof fn lemma_sort_by_t_fixes_sorted(s: Seq<Intersection>)
    requires
        is_sorted(s),
    ensures
        sort_by_t(s) == s,
    decreases s.len(),
{
    if s.len() > 0 {
        let front = s.drop_last();
        lemma_sort_by_t_fixes_sorted(front);
        if front.len() > 0 {
            assert(front.last() == s[s.len() - 2]);
        }
        assert(s =~= front.push(s.last()));
    }
}

/// Adding a hit to a sorted list and sorting is the same as adding it to the
/// unsorted list and sorting.
pub proof fn lemma_sort_by_t_push(s: Seq<Intersection>, x: Intersection)
    ensures
        sort_by_t(sort_by_t(s).push(x)) == sort_by_t(s.push(x)),
{
    let sorted = sort_by_t(s);
    lemma_sort_by_t_sorts(s);
    lemma_sort_by_t_fixes_sorted(sorted);
    assert(sorted.push(x).drop_last() =~= sorted);
    assert(s.push(x).drop_last() =~= s);
}

/// Where `x` goes: behind position `j` if every hit from `j` on is farther
/// than `x` and the hit before `j`, if any, is not.
proof fn lemma_sorted_insert_at(s: Seq<Intersection>, x: Intersection, j: int)
    requires
        0 <= j <= s.len(),
        forall|i: int| j <= i < s.len() ==> s[i].t.raw > x.t.raw,
        j > 0 ==> s[j - 1].t.raw <= x.t.raw,
    ensures
        sorted_insert(s, x) == s.subrange(0, j).push(x) + s.subrange(j, s.len() as int),
    decreases s.len(),
{
    if s.len() == 0 {
        assert(sorted_insert(s, x) =~= s.subrange(0, j).push(x) + s.subrange(j, s.len() as int));
    } else if s.last().t.raw <= x.t.raw {
        assert(j == s.len());
        assert(sorted_insert(s, x) =~= s.subrange(0, j).push(x) + s.subrange(j, s.len() as int));
    } else {
        let front = s.drop_last();
        assert(j < s.len());
        lemma_sorted_insert_at(front, x, j);
        assert(sorted_insert(s, x) =~= s.subrange(0, j).push(x) + s.subrange(j, s.len() as int));
    }
}

/// In a sorted list the new hit comes to stand behind every hit that is not
/// farther and before every hit that is farther, and the others stay as
/// they were: among equally distant hits the one added last comes last.
pub proof fn lemma_sorted_insert_is_stable(s: Seq<Intersection>, x: Intersection)
    requires
        is_sorted(s),
    ensures
        exists|p: int|
            {
                &&& 0 <= p <= s.len()
                &&& #[trigger] sorted_insert(s, x) == s.subrange(0, p).push(x) + s.subrange(p, s.len() as int)
                &&& forall|i: int| 0 <= i < p ==> s[i].t.raw <= x.t.raw
                &&& forall|i: int| p <= i < s.len() ==> s[i].t.raw > x.t.raw
            },
    decreases s.len(),
{
    if s.len() == 0 {
        lemma_sorted_insert_at(s, x, 0);
    } else if s.last().t.raw <= x.t.raw {
        lemma_sorted_insert_at(s, x, s.len() as int);
    } else {
        let front = s.drop_last();
        lemma_sorted_insert_is_stable(front, x);
        let p = choose|p: int|
            {
                &&& 0 <= p <= front.len()
                &&& #[trigger] sorted_insert(front, x) == front.subrange(0, p).push(x) + front.subrange(
                    p,
                    front.len() as int,
                )
                &&& forall|i: int| 0 <= i < p ==> front[i].t.raw <= x.t.raw
                &&& forall|i: int| p <= i < front.len() ==> front[i].t.raw > x.t.raw
            };
        assert forall|i: int| p <= i < s.len() implies s[i].t.raw > x.t.raw by {
            if i < front.len() {
                assert(front[i] == s[i]);
            }
        }
        assert forall|i: int| 0 <= i < p implies s[i].t.raw <= x.t.raw by {
            assert(front[i] == s[i]);
        }
        if p > 0 {
            assert(front[p - 1] == s[p - 1]);
        }
        lemma_sorted_insert_at(s, x, p);
    }
}

/// The distances of the hits, one after the other.
pub open spec fn spec_distances(s: Seq<Intersection>) -> Seq<i64> {
    Seq::new(s.len(), |i: int| s[i].t.raw)
}

/// Two sorted lists of the same hits show the same distances in the same
/// places.
pub proof fn lemma_sorted_lists_agree(a: Seq<Intersection>, b: Seq<Intersection>)
    requires
        is_sorted(a),
        is_sorted(b),
        a.to_multiset() == b.to_multiset(),
    ensures
        spec_distances(a) == spec_distances(b),
    decreases a.len(),
{
    a.to_multiset_ensures();
    b.to_multiset_ensures();
    assert(a.len() == b.len());
    if a.len() > 0 {
        let x = a[0];
        assert(a.contains(x));
        assert(b.to_multiset().count(x) > 0);
        assert(b.contains(x));
        let k = choose|k: int| 0 <= k < b.len() && b[k] == x;
        assert(b.contains(b[0]));
        assert(a.to_multiset().count(b[0]) > 0);
        assert(a.contains(b[0]));
        let j = choose|j: int| 0 <= j < a.len() && a[j] == b[0];
        assert(x.t.raw == b[0].t.raw);
        let a2 = a.remove(0);
        let b2 = b.remove(k);
        vstd::seq_lib::to_multiset_remove(a, 0);
        vstd::seq_lib::to_multiset_remove(b, k);
        assert forall|i: int, j: int| 0 <= i < j < a2.len() implies a2[i].t.raw <= a2[j].t.raw by {
            assert(a2[i] == a[i + 1] && a2[j] == a[j + 1]);
        }
        assert forall|i: int, j: int| 0 <= i < j < b2.len() implies b2[i].t.raw <= b2[j].t.raw by {
            assert(b2[i] == b[if i < k { i } else { i + 1 }]);
            assert(b2[j] == b[if j < k { j } else { j + 1 }]);
        }
        lemma_sorted_lists_agree(a2, b2);
        assert forall|i: int| 0 <= i < a.len() implies spec_distances(a)[i] == spec_distances(b)[i] by {
            if i > 0 {
                assert(spec_distances(a2)[i - 1] == spec_distances(b2)[i - 1]);
                assert(a2[i - 1] == a[i]);
                if i - 1 < k {
                    assert(b2[i - 1] == b[i - 1]);
                    assert(b[0].t.raw <= b[i - 1].t.raw <= b[i].t.raw <= b[k].t.raw);
                } else {
                    assert(b2[i - 1] == b[i]);
                }
            }
        }
    }
    assert(spec_distances(a) =~= spec_distances(b));
}

/// In whatever order the same hits are added, the list shows the same
/// distances in the same places.
pub proof fn lemma_order_of_adding_is_immaterial(a: Seq<Intersection>, b: Seq<Intersection>)
    requires
        a.to_multiset() == b.to_multiset(),
    ensures
        spec_distances(sort_by_t(a)) == spec_distances(sort_by_t(b)),
{
    lemma_sort_by_t_sorts(a);
    lemma_sort_by_t_sorts(b);
    lemma_sorted_lists_agree(sort_by_t(a), sort_by_t(b));
}

/// In a list whose hits before `k` all lie behind the origin, the first hit
/// is the first hit from `k` on.
proof fn lemma_hit_skips(s: Seq<Intersection>, k: int)
    requires
        0 <= k <= s.len(),
        forall|j: int| 0 <= j < k ==> s[j].t.raw < 0,
    ensures
        spec_hit(s) == spec_hit(s.subrange(k, s.len() as int)),
    decreases k,
{
    if k == 0 {
        assert(s.subrange(0, s.len() as int) =~= s);
    } else {
        let rest = s.drop_first();
        assert forall|j: int| 0 <= j < k - 1 implies rest[j].t.raw < 0 by {
            assert(rest[j] == s[j + 1]);
        }
        lemma_hit_skips(rest, k - 1);
        assert(rest.subrange(k - 1, rest.len() as int) =~= s.subrange(k, s.len() as int));
    }
}

/// In a sorted list the first hit that is not behind the origin is the
/// nearest of all that are not, and there is none only if every hit lies
/// behind the origin.
pub proof fn lemma_hit_is_nearest(s: Seq<Intersection>)
    requires
        is_sorted(s),
    ensures
        match spec_hit(s) {
            Some(h) => {
                &&& s.contains(h)
                &&& h.t.raw >= 0
                &&& forall|j: int| 0 <= j < s.len() && s[j].t.raw >= 0 ==> h.t.raw <= s[j].t.raw
            },
            None => forall|j: int| 0 <= j < s.len() ==> s[j].t.raw < 0,
        },
    decreases s.len(),
{
    if s.len() == 0 {
    } else if s[0].t.raw >= 0 {
    } else {
        let rest = s.drop_first();
        assert forall|i: int, j: int| 0 <= i < j < rest.len() implies rest[i].t.raw <= rest[j].t.raw by {
            assert(rest[i] == s[i + 1] && rest[j] == s[j + 1]);
        }
        lemma_hit_is_nearest(rest);
        match spec_hit(rest) {
            Some(h) => {
                let k = choose|k: int| 0 <= k < rest.len() && rest[k] == h;
                assert(s[k + 1] == h);
                assert forall|j: int| 0 <= j < s.len() && s[j].t.raw >= 0 implies h.t.raw <= s[j].t.raw by {
                    assert(j > 0);
                    assert(rest[j - 1] == s[j]);
                }
            },
            None => {
                assert forall|j: int| 0 <= j < s.len() implies s[j].t.raw < 0 by {
                    if j > 0 {
                        assert(rest[j - 1] == s[j]);
                    }
                }
            },
        }
    }
}

/// The hits along one ray.
#[derive(Clone, Debug)]
pub struct IntersectionList {
    list_of_intersections: Vec<Intersection>,
    capacity: usize,
}

impl View for IntersectionList {
    type V = Seq<Intersection>;

    closed spec fn view(&self) -> Seq<Intersection> {
        self.list_of_intersections@
    }
}

impl IntersectionList {
    /// The number of hits the list was made for.
    pub closed spec fn spec_capacity(&self) -> nat {
        self.capacity as nat
    }
}

/// What a list of hits offers.
pub trait IntersectionListOps: Sized {
    /// The hits in the order in which the list holds them.
    spec fn hits(&self) -> Seq<Intersection>;

    /// The number of hits the list may hold.
    spec fn limit(&self) -> nat;

    /// An empty list for `MAX_INTERSECTIONLIST_LEN` hits.
    fn new() -> (r: IntersectionList)
        ensures
            r@ == Seq::<Intersection>::empty(),
            r.spec_capacity() == MAX_INTERSECTIONLIST_LEN,
    ;

    /// Adds a hit and puts the list in order.
    fn add(&mut self, i: Intersection)
        requires
            old(self).hits().len() < old(self).limit(),
        ensures
            final(self).hits() == sort_by_t(old(self).hits().push(i)),
            final(self).limit() == old(self).limit(),
            is_sorted(old(self).hits()) ==> final(self).hits() == sorted_insert(old(self).hits(), i),
            is_sorted(final(self).hits()),
            final(self).hits().to_multiset() == old(self).hits().to_multiset().insert(i),
    ;

    /// The first hit in the list that does not lie behind the ray's origin.
    /// In a sorted list that is the nearest such hit.
    fn hit(&self) -> (r: Option<Intersection>)
        ensures
            r == spec_hit(self.hits()),
            match r {
                Some(h) => exists|k: int|
                    {
                        &&& 0 <= k < self.hits().len()
                        &&& #[trigger] self.hits()[k] == h
                        &&& h.t.raw >= 0
                        &&& forall|j: int| 0 <= j < k ==> self.hits()[j].t.raw < 0
                    },
                None => forall|j: int| 0 <= j < self.hits().len() ==> self.hits()[j].t.raw < 0,
            },
            is_sorted(self.hits()) ==> (r matches Some(h) ==> forall|j: int|
                0 <= j < self.hits().len() && self.hits()[j].t.raw >= 0 ==> h.t.raw <= self.hits()[j].t.raw),
    ;

    fn get_intersections(&self) -> (r: &Vec<Intersection>)
        ensures
            r@ == self.hits(),
    ;

    /// The hits themselves, to be changed at will: the order is the
    /// caller's to restore, with `sort_intersections`.
    fn get_intersections_mut(&mut self) -> (r: &mut Vec<Intersection>)
        ensures
            r@ == old(self).hits(),
            final(self).hits() == final(r)@,
            final(self).limit() == old(self).limit(),
    ;

    /// Puts the hits in order of distance; equally distant hits keep their
    /// order.
    fn sort_intersections(&mut self)
        ensures
            final(self).hits() == sort_by_t(old(self).hits()),
            final(self).limit() == old(self).limit(),
            is_sorted(final(self).hits()),
            final(self).hits().to_multiset() == old(self).hits().to_multiset(),
    ;

    fn len(&self) -> (n: usize)
        ensures
            n == self.hits().len(),
    ;

    fn at(&self, idx: usize) -> (r: Intersection)
        requires
            idx < self.hits().len(),
        ensures
            r == self.hits()[idx as int],
    ;
}

impl IntersectionListOps for IntersectionList {
    open spec fn hits(&self) -> Seq<Intersection> {
        self@
    }

    open spec fn limit(&self) -> nat {
        self.spec_capacity()
    }

    fn new() -> (r: IntersectionList) {
        IntersectionList { list_of_intersections: Vec::new(), capacity: MAX_INTERSECTIONLIST_LEN }
    }

    fn add(&mut self, i: Intersection) {
        self.list_of_intersections.push(i);
        self.sort_intersections();
        proof {
            broadcast use vstd::seq_lib::group_to_multiset_ensures;

            let before = old(self)@;
            lemma_sort_by_t_sorts(before.push(i));
            if is_sorted(before) {
                lemma_sort_by_t_fixes_sorted(before);
                assert(before.push(i).drop_last() =~= before);
            }
        }
    }

    fn hit(&self) -> (r: Option<Intersection>) {
        let n = self.list_of_intersections.len();
        let mut i: usize = 0;
        while i < n
            invariant
                i <= n == self.list_of_intersections@.len(),
                forall|j: int| 0 <= j < i ==> self.list_of_intersections@[j].t.raw < 0,
            decreases n - i,
        {
            if self.list_of_intersections[i].t.raw >= 0 {
                proof {
                    let s = self.list_of_intersections@;
                    lemma_hit_skips(s, i as int);
                    assert(s.subrange(i as int, s.len() as int)[0] == s[i as int]);
                    if is_sorted(s) {
                        lemma_hit_is_nearest(s);
                    }
                }
                return Some(self.list_of_intersections[i]);
            }
            i += 1;
        }
        proof {
            let s = self.list_of_intersections@;
            lemma_hit_skips(s, n as int);
            assert(s.subrange(n as int, s.len() as int).len() == 0);
        }
        None
    }

    fn get_intersections(&self) -> (r: &Vec<Intersection>) {
        &self.list_of_intersections
    }

    fn get_intersections_mut(&mut self) -> (r: &mut Vec<Intersection>) {
        &mut self.list_of_intersections
    }

    fn sort_intersections(&mut self) {
        let n = self.list_of_intersections.len();
        let mut k: usize = 0;
        while k < n
            invariant
                k <= n == self.list_of_intersections@.len() == old(self).list_of_intersections@.len(),
                self.capacity == old(self).capacity,
                self.list_of_intersections@.subrange(0, k as int) == sort_by_t(
                    old(self).list_of_intersections@.subrange(0, k as int),
                ),
                self.list_of_intersections@.subrange(k as int, n as int) == old(
                    self,
                ).list_of_intersections@.subrange(k as int, n as int),
            decreases n - k,
        {
            let ghost start = self.list_of_intersections@;
            let ghost prefix = start.subrange(0, k as int);
            let x = self.list_of_intersections[k];
            assert(x == old(self).list_of_intersections@.subrange(k as int, n as int)[0]);
            let mut j: usize = k;
            while j > 0 && self.list_of_intersections[j - 1].t.raw > x.t.raw
                invariant
                    j <= k < n == self.list_of_intersections@.len() == start.len(),
                    self.capacity == old(self).capacity,
                    forall|i: int| 0 <= i < j ==> self.list_of_intersections@[i] == start[i],
                    forall|i: int| j < i <= k ==> self.list_of_intersections@[i] == start[i - 1],
                    forall|i: int| j <= i < k ==> start[i].t.raw > x.t.raw,
                    forall|i: int| k < i < n ==> self.list_of_intersections@[i] == start[i],
                decreases j,
            {
                let moved = self.list_of_intersections[j - 1];
                self.list_of_intersections.set(j, moved);
                j -= 1;
            }
            self.list_of_intersections.set(j, x);
            proof {
                let now = self.list_of_intersections@;
                let before = old(self).list_of_intersections@;
                lemma_sorted_insert_at(prefix, x, j as int);
                assert(now.subrange(0, k + 1) =~= prefix.subrange(0, j as int).push(x) + prefix.subrange(
                    j as int,
                    k as int,
                ));
                assert(before.subrange(0, k + 1).drop_last() =~= before.subrange(0, k as int));
                assert(before.subrange(0, k + 1).last() == x);
                assert forall|i: int| k < i < n implies #[trigger] now[i] == before[i] by {
                    assert(start.subrange(k as int, n as int)[i - k] == start[i]);
                    assert(before.subrange(k as int, n as int)[i - k] == before[i]);
                }
                assert(now.subrange(k + 1, n as int) =~= before.subrange(k + 1, n as int));
            }
            k += 1;
        }
        proof {
            let before = old(self).list_of_intersections@;
            assert(self.list_of_intersections@.subrange(0, n as int) =~= self.list_of_intersections@);
            assert(before.subrange(0, n as int) =~= before);
            lemma_sort_by_t_sorts(before);
        }
    }

    fn len(&self) -> (n: usize) {
        self.list_of_intersections.len()
    }

    fn at(&self, idx: usize) -> (r: Intersection) {
        self.list_of_intersections[idx]
    }
}

} // verus!
