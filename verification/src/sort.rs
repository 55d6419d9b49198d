//! A stable insertion sort over a total preorder, used for directory
//! listings, checked paths and discovered versions.

use vstd::prelude::*;
use vstd::multiset::Multiset;
use vstd::relations::sorted_by;

verus! {

broadcast use vstd::seq_lib::group_to_multiset_ensures;

/// `leq` is a total preorder: reflexive, transitive and total.
pub open spec fn total_preorder<T>(leq: spec_fn(T, T) -> bool) -> bool {
    &&& forall|a: T| #[trigger] leq(a, a)
    &&& forall|a: T, b: T, c: T| #[trigger] leq(a, b) && #[trigger] leq(b, c) ==> leq(a, c)
    &&& forall|a: T, b: T| #[trigger] leq(a, b) || leq(b, a)
}

proof fn lemma_insert_to_multiset<T>(s: Seq<T>, k: int, x: T)
    requires
        0 <= k <= s.len(),
    ensures
        s.insert(k, x).to_multiset() =~= s.to_multiset().insert(x),
{
    let t = s.insert(k, x);
    assert(t.remove(k) =~= s);
    assert(t[k] == x);
    assert(t.remove(k).to_multiset() =~= t.to_multiset().remove(x));
    assert(t.contains(x));
    assert(t.to_multiset().count(x) > 0);
}

/// The elements that `leq` ranks alike with `x`.
pub open spec fn alike<T>(leq: spec_fn(T, T) -> bool, x: T) -> spec_fn(T) -> bool {
    |y: T| leq(x, y) && leq(y, x)
}

/// The filter keeps nothing when no element passes.
proof fn lemma_filter_none<T>(s: Seq<T>, p: spec_fn(T) -> bool)
    requires
        forall|i: int| 0 <= i < s.len() ==> !p(#[trigger] s[i]),
    ensures
        s.filter(p) == Seq::<T>::empty(),
    decreases s.len(),
{
    reveal(Seq::filter);
    if s.len() > 0 {
        lemma_filter_none(s.drop_last(), p);
    }
}

/// The filter of a single element.
proof fn lemma_filter_single<T>(e: T, p: spec_fn(T) -> bool)
    ensures
        seq![e].filter(p) == (if p(e) {
            seq![e]
        } else {
            Seq::<T>::empty()
        }),
{
    reveal(Seq::filter);
    assert(seq![e].drop_last() =~= Seq::<T>::empty());
    assert(Seq::<T>::empty().filter(p) =~= Seq::<T>::empty());
}

/// Sorts `v` by `le`, which computes the total preorder `leq`. The result
/// holds the same elements and is ordered by `leq`, and it is stable:
/// elements that `leq` ranks alike keep their order, as in
/// `slice::sort_by`.
pub fn sort_by_leq<T, F: Fn(&T, &T) -> bool>(
    v: Vec<T>,
    Ghost(leq): Ghost<spec_fn(T, T) -> bool>,
    le: F,
) -> (r: Vec<T>)
    requires
        total_preorder(leq),
        forall|a: &T, b: &T| #[trigger] le.requires((a, b)),
        forall|a: &T, b: &T, res: bool| le.ensures((a, b), res) ==> res == leq(*a, *b),
    ensures
        r@.to_multiset() == v@.to_multiset(),
        sorted_by(r@, leq),
        forall|x: T| #[trigger] r@.filter(alike(leq, x)) == v@.filter(alike(leq, x)),
{
    let ghost orig = v@;
    let mut rest = v;
    let mut out: Vec<T> = Vec::new();
    proof {
        assert(out@.to_multiset().add(rest@.to_multiset()) =~= orig.to_multiset());
        assert forall|x: T| #[trigger] out@.filter(alike(leq, x)) + rest@.filter(alike(leq, x))
            == orig.filter(alike(leq, x)) by {
            lemma_filter_none(out@, alike(leq, x));
            assert(out@.filter(alike(leq, x)) + rest@.filter(alike(leq, x)) =~= rest@.filter(
                alike(leq, x),
            ));
        }
    }
    while rest.len() > 0
        invariant
            total_preorder(leq),
            forall|a: &T, b: &T| #[trigger] le.requires((a, b)),
            forall|a: &T, b: &T, res: bool| le.ensures((a, b), res) ==> res == leq(*a, *b),
            sorted_by(out@, leq),
            out@.to_multiset().add(rest@.to_multiset()) == orig.to_multiset(),
            forall|x: T| #[trigger] out@.filter(alike(leq, x)) + rest@.filter(alike(leq, x))
                == orig.filter(alike(leq, x)),
        decreases rest.len(),
    {
        let ghost old_rest = rest@;
        let x = rest.remove(0);
        proof {
            assert(rest@ =~= old_rest.remove(0));
            assert(rest@.to_multiset() =~= old_rest.to_multiset().remove(x));
            assert(old_rest.contains(x));
        }
        // Find the first element that `x` comes strictly before.
        let mut k: usize = 0;
        while k < out.len() && le(&out[k], &x)
            invariant
                k <= out.len(),
                forall|i: int| 0 <= i < k ==> leq(#[trigger] out@[i], x),
                forall|a: &T, b: &T| #[trigger] le.requires((a, b)),
                forall|a: &T, b: &T, res: bool| le.ensures((a, b), res) ==> res == leq(*a, *b),
            decreases out.len() - k,
        {
            k += 1;
        }
        let ghost old_out = out@;
        proof {
            if k < old_out.len() {
                assert(!leq(old_out[k as int], x));
                assert(leq(x, old_out[k as int]));
            }
        }
        out.insert(k, x);
        proof {
            assert(out@ =~= old_out.insert(k as int, x));
            lemma_insert_to_multiset(old_out, k as int, x);
            assert forall|i: int, j: int| 0 <= i < j < out@.len() implies #[trigger] leq(
                out@[i],
                out@[j],
            ) by {
                if j < k {
                    assert(leq(old_out[i], old_out[j]));
                } else if j == k {
                    assert(leq(old_out[i], x));
                } else if i < k {
                    // out[i] <= x <= old_out[k] <= old_out[j - 1]
                    assert(leq(old_out[i], x));
                    assert(leq(x, old_out[k as int]));
                    if k < j - 1 {
                        assert(leq(old_out[k as int], old_out[j - 1]));
                    }
                    assert(leq(x, old_out[j - 1]));
                } else if i == k {
                    assert(leq(x, old_out[k as int]));
                    if k < j - 1 {
                        assert(leq(old_out[k as int], old_out[j - 1]));
                    }
                } else {
                    assert(leq(old_out[i - 1], old_out[j - 1]));
                }
            }
            assert(out@.to_multiset().add(rest@.to_multiset()) =~= orig.to_multiset());
            // Stability: `x` lands after every element it ranks alike with.
            assert(old_rest =~= seq![x] + rest@);
            assert(out@ =~= old_out.take(k as int) + seq![x] + old_out.skip(k as int));
            assert(old_out =~= old_out.take(k as int) + old_out.skip(k as int));
            assert forall|y: T| #[trigger] out@.filter(alike(leq, y)) + rest@.filter(alike(leq, y))
                == orig.filter(alike(leq, y)) by {
                let p = alike(leq, y);
                let front = old_out.take(k as int);
                let back = old_out.skip(k as int);
                Seq::filter_distributes_over_add(seq![x], rest@, p);
                Seq::filter_distributes_over_add(front + seq![x], back, p);
                Seq::filter_distributes_over_add(front, seq![x], p);
                Seq::filter_distributes_over_add(front, back, p);
                lemma_filter_single(x, p);
                assert(old_out.filter(p) + old_rest.filter(p) == orig.filter(p));
                if p(x) {
                    assert forall|i: int| 0 <= i < back.len() implies !p(#[trigger] back[i]) by {
                        let z = back[i];
                        assert(z == old_out[k + i]);
                        assert(leq(old_out[k as int], z));
                        if p(z) {
                            // z ranks alike with y, and so does x: z <= x.
                            assert(leq(z, x));
                            assert(leq(old_out[k as int], x));
                        }
                    }
                    lemma_filter_none(back, p);
                    assert(out@.filter(p) + rest@.filter(p) =~= old_out.filter(p) + old_rest.filter(p));
                } else {
                    assert(out@.filter(p) + rest@.filter(p) =~= old_out.filter(p) + old_rest.filter(p));
                }
            }
        }
    }
    proof {
        assert(rest@.to_multiset() =~= Multiset::empty());
        assert(out@.to_multiset() =~= orig.to_multiset());
        assert forall|x: T| #[trigger] out@.filter(alike(leq, x)) == orig.filter(alike(leq, x)) by {
            lemma_filter_none(rest@, alike(leq, x));
            assert(out@.filter(alike(leq, x)) + rest@.filter(alike(leq, x)) =~= out@.filter(
                alike(leq, x),
            ));
        }
    }
    out
}

} // verus!
