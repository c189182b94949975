//! Stable insertion sort of records by a strict order.
use vstd::multiset::Multiset;
use vstd::prelude::*;

verus! {

broadcast use {vstd::seq_lib::group_to_multiset_ensures, vstd::multiset::group_multiset_axioms};

/// Records with a strict order between their values.
pub trait Ordered: Sized {
    /// `a` comes strictly before `b`.
    spec fn before(a: Self, b: Self) -> bool;

    /// `self` comes strictly before `other`.
    fn is_before(&self, other: &Self) -> (r: bool)
        ensures
            r == Self::before(*self, *other),
    ;

    proof fn lemma_before_asymmetric(a: Self, b: Self)
        ensures
            !(Self::before(a, b) && Self::before(b, a)),
    ;

    proof fn lemma_before_transitive(a: Self, b: Self, c: Self)
        requires
            Self::before(a, b),
            Self::before(b, c),
        ensures
            Self::before(a, c),
    ;
}

/// No record comes strictly before one that precedes it.
pub open spec fn sorted_by_before<T: Ordered>(s: Seq<T>) -> bool {
    forall|i: int, j: int| 0 <= i < j < s.len() ==> !T::before(#[trigger] s[j], #[trigger] s[i])
}

/// Sorts `v` by `T::before`.
pub fn sort_by_before<T: Ordered>(v: Vec<T>) -> (r: Vec<T>)
    ensures
        r@.to_multiset() == v@.to_multiset(),
        sorted_by_before(r@),
        r@.len() == v@.len(),
{
    let mut rest = v;
    let ghost all = rest@;
    let mut res: Vec<T> = Vec::new();
    assert(res@.to_multiset() =~= Multiset::empty()) by {
        assert(res@ =~= Seq::<T>::empty());
    }
    while rest.len() > 0
        invariant
            sorted_by_before(res@),
            res@.to_multiset().add(rest@.to_multiset()) == all.to_multiset(),
            res@.len() + rest@.len() == all.len(),
        decreases rest.len(),
    {
        let ghost r0 = rest@;
        let x = rest.pop().unwrap();
        assert(r0 =~= rest@.push(x));
        let mut p: usize = 0;
        while p < res.len() && !x.is_before(&res[p])
            invariant
                p <= res.len(),
                forall|j: int| 0 <= j < p ==> !T::before(x, #[trigger] res@[j]),
            decreases res.len() - p,
        {
            p = p + 1;
        }
        let ghost old_res = res@;
        res.insert(p, x);
        proof {
            assert(res@ =~= old_res.insert(p as int, x));
            assert forall|i: int, j: int| 0 <= i < j < res@.len() implies !T::before(
                #[trigger] res@[j],
                #[trigger] res@[i],
            ) by {
                if j < p {
                    assert(res@[i] == old_res[i] && res@[j] == old_res[j]);
                } else if j == p {
                    assert(res@[i] == old_res[i]);
                } else if i > p {
                    assert(res@[i] == old_res[i - 1] && res@[j] == old_res[j - 1]);
                } else if i == p {
                    assert(res@[j] == old_res[j - 1]);
                    assert(T::before(x, old_res[p as int]));
                    T::lemma_before_asymmetric(old_res[p as int], x);
                    if j - 1 > p {
                        assert(!T::before(old_res[j - 1], old_res[p as int]));
                        if T::before(old_res[j - 1], x) {
                            T::lemma_before_transitive(old_res[j - 1], x, old_res[p as int]);
                        }
                    }
                } else {
                    assert(res@[i] == old_res[i] && res@[j] == old_res[j - 1]);
                }
            }
            assert(rest@.to_multiset().insert(x) == r0.to_multiset());
        }
    }
    res
}

/// Mapping every element keeps two sequences with equal multisets equal as
/// multisets.
pub proof fn lemma_to_multiset_map<A, B>(s: Seq<A>, t: Seq<A>, f: spec_fn(A) -> B)
    requires
        s.to_multiset() == t.to_multiset(),
    ensures
        s.map_values(f).to_multiset() == t.map_values(f).to_multiset(),
    decreases s.len(),
{
    if s.len() == 0 {
        assert(t.to_multiset().len() == 0);
        assert(t.len() == 0);
        assert(s.map_values(f) =~= Seq::<B>::empty());
        assert(t.map_values(f) =~= Seq::<B>::empty());
    } else {
        let x = s.last();
        let s0 = s.drop_last();
        assert(s =~= s0.push(x));
        assert(s.to_multiset() == s0.to_multiset().insert(x));
        assert(s.to_multiset().contains(x));
        assert(t.to_multiset().contains(x));
        assert(t.contains(x));
        let j = choose|j: int| 0 <= j < t.len() && t[j] == x;
        let t0 = t.remove(j);
        assert(t0.to_multiset() == t.to_multiset().remove(x));
        assert(s0.to_multiset() =~= t0.to_multiset());
        lemma_to_multiset_map(s0, t0, f);
        assert(s.map_values(f) =~= s0.map_values(f).push(f(x)));
        assert(t.map_values(f).remove(j) =~= t0.map_values(f));
        assert(t.map_values(f)[j] == f(x));
        assert(t.map_values(f).remove(j).to_multiset() == t.map_values(f).to_multiset().remove(
            f(x),
        ));
        assert(t.map_values(f).to_multiset().contains(f(x)));
        assert(t.map_values(f).to_multiset() =~= t.map_values(f).to_multiset().remove(f(x)).insert(
            f(x),
        ));
    }
}

} // verus!
