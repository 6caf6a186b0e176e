//! Sorting by an integer key, and the permutation lemmas the
//! transcoder's determinism law rests on.

use vstd::prelude::*;
use vstd::multiset::Multiset;
use vstd::seq_lib::group_to_multiset_ensures;
use vstd::multiset::group_multiset_axioms;

verus! {

/// A value that can be ordered by a `u64` key.
pub trait SortKeyed: Sized {
    /// The key this value is sorted by.
    spec fn sort_key(&self) -> u64;

    /// Reads the key.
    fn exec_sort_key(&self) -> (k: u64)
        ensures
            k == self.sort_key(),
    ;
}

/// The elements stand in ascending key order.
pub open spec fn sorted_by_key<T: SortKeyed>(s: Seq<T>) -> bool {
    forall|i: int, j: int| 0 <= i < j < s.len() ==> s[i].sort_key() <= s[j].sort_key()
}

/// Stable insertion sort by key: the result is sorted and holds exactly
/// the elements it was given.
pub fn insertion_sort_by_key<T: SortKeyed>(v: &mut Vec<T>)
    ensures
        final(v)@.to_multiset() == old(v)@.to_multiset(),
        final(v)@.len() == old(v)@.len(),
        sorted_by_key(final(v)@),
{
    broadcast use group_to_multiset_ensures, group_multiset_axioms;

    if v.len() <= 1 {
        return;
    }
    let mut i: usize = 1;
    while i < v.len()
        invariant
            1 <= i <= v@.len(),
            v@.len() == old(v)@.len(),
            v@.to_multiset() == old(v)@.to_multiset(),
            forall|a: int, b: int| 0 <= a < b < i ==> v@[a].sort_key() <= v@[b].sort_key(),
        decreases v@.len() - i,
    {
        broadcast use group_to_multiset_ensures, group_multiset_axioms;

        let ghost prev = v@;
        let x = v.remove(i);
        let ghost mid = v@;
        let xk = x.exec_sort_key();
        let mut j: usize = i;
        while j > 0 && v[j - 1].exec_sort_key() > xk
            invariant
                j <= i,
                i <= v@.len(),
                v@ == mid,
                xk == x.sort_key(),
                forall|k: int| j <= k < i ==> v@[k].sort_key() > x.sort_key(),
            decreases j,
        {
            j = j - 1;
        }
        v.insert(j, x);
        proof {
            // The multiset is unchanged: `x` came out at `i` and went
            // back in at `j`.
            assert(prev.to_multiset().contains(x)) by {
                assert(prev[i as int] == x);
                assert(prev.contains(x));
            }
            assert(v@.to_multiset() =~= prev.to_multiset());
            // The prefix through `i` is sorted again.
            prev.remove_ensures(i as int);
            mid.insert_ensures(j as int, x);
            assert forall|a: int, b: int| 0 <= a < b < i + 1 implies v@[a].sort_key()
                <= v@[b].sort_key() by {
                if b < j {
                    assert(v@[a] == prev[a] && v@[b] == prev[b]);
                } else if b == j {
                    if a < j {
                        assert(v@[a] == prev[a]);
                        assert(mid[j - 1] == prev[j - 1]);
                        assert(prev[a].sort_key() <= prev[j - 1].sort_key());
                    }
                } else {
                    assert(v@[b] == mid[b - 1]);
                    if a < j {
                        assert(v@[a] == prev[a]);
                        if b - 1 < i {
                            assert(mid[b - 1] == prev[b - 1]);
                            assert(prev[a].sort_key() <= prev[b - 1].sort_key());
                        }
                    } else if a == j {
                        assert(v@[a] == x);
                        assert(mid[b - 1].sort_key() > x.sort_key());
                    } else {
                        assert(v@[a] == mid[a - 1]);
                        assert(mid[a - 1] == prev[a - 1] && mid[b - 1] == prev[b - 1]);
                        assert(prev[a - 1].sort_key() <= prev[b - 1].sort_key());
                    }
                }
            }
        }
        i = i + 1;
    }
}

/// Two positions holding the same value push that value's count in the
/// multiset to at least two.
proof fn lemma_repeat_counts_twice<A>(s: Seq<A>, i: int, j: int)
    requires
        0 <= i < j < s.len(),
        s[i] == s[j],
    ensures
        s.to_multiset().count(s[i]) >= 2,
{
    broadcast use group_to_multiset_ensures, group_multiset_axioms;

    let r = s.remove(i);
    s.remove_ensures(i);
    assert(r.len() == s.len() - 1);
    assert(r[j - 1] == s[j]);
    assert(r.contains(s[i]));
    assert(s.contains(s[i]));
    assert(r.to_multiset() =~= s.to_multiset().remove(s[i]));
    assert(r.to_multiset().count(s[i]) > 0);
    assert(s.to_multiset().count(s[i]) > 0);
}

/// A count of at least two yields two distinct positions with that value.
proof fn lemma_count_two_repeats<A>(s: Seq<A>, v: A) -> (r: (int, int))
    requires
        s.to_multiset().count(v) >= 2,
    ensures
        0 <= r.0 < r.1 < s.len(),
        s[r.0] == v,
        s[r.1] == v,
{
    broadcast use group_to_multiset_ensures, group_multiset_axioms;

    assert(s.contains(v));
    let i = choose|i: int| 0 <= i < s.len() && s[i] == v;
    let rem = s.remove(i);
    s.remove_ensures(i);
    assert(rem.to_multiset().count(v) >= 1);
    assert(rem.contains(v));
    let q = choose|q: int| 0 <= q < rem.len() && rem[q] == v;
    let j = if q < i { q } else { q + 1 };
    assert(s[j] == v);
    if j < i { (j, i) } else { (i, j) }
}

/// Distinctness of a projected key carries across a permutation: if no
/// two elements of `t` share a key, no two elements of `s` do either.
pub proof fn lemma_distinct_key_transfer<A>(s: Seq<A>, t: Seq<A>, key: spec_fn(A) -> u64)
    requires
        s.to_multiset() == t.to_multiset(),
        forall|i: int, j: int| 0 <= i < j < t.len() ==> key(t[i]) != key(t[j]),
    ensures
        forall|i: int, j: int| 0 <= i < j < s.len() ==> key(s[i]) != key(s[j]),
{
    broadcast use group_to_multiset_ensures, group_multiset_axioms;

    assert forall|i: int, j: int| 0 <= i < j < s.len() implies key(s[i]) != key(s[j]) by {
        if key(s[i]) == key(s[j]) {
            if s[i] == s[j] {
                lemma_repeat_counts_twice(s, i, j);
                let (p, q) = lemma_count_two_repeats(t, s[i]);
                assert(key(t[p]) != key(t[q]));
                assert(false);
            } else {
                assert(s.contains(s[i]));
                assert(s.contains(s[j]));
                assert(s.to_multiset().count(s[i]) > 0);
                assert(s.to_multiset().count(s[j]) > 0);
                assert(t.to_multiset().count(s[i]) > 0);
                assert(t.to_multiset().count(s[j]) > 0);
                assert(t.contains(s[i]));
                assert(t.contains(s[j]));
                let p = choose|p: int| 0 <= p < t.len() && t[p] == s[i];
                let q = choose|q: int| 0 <= q < t.len() && t[q] == s[j];
                assert(p != q);
                assert(key(t[p]) == key(t[q]));
                assert(false);
            }
        }
    }
}

/// Two sequences sorted by a key, with the same elements and no repeated
/// key among them, are the same sequence.
pub proof fn lemma_sorted_distinct_unique<A>(x: Seq<A>, y: Seq<A>, key: spec_fn(A) -> u64)
    requires
        forall|i: int, j: int| 0 <= i < j < x.len() ==> key(x[i]) <= key(x[j]),
        forall|i: int, j: int| 0 <= i < j < y.len() ==> key(y[i]) <= key(y[j]),
        forall|i: int, j: int| 0 <= i < j < x.len() ==> key(x[i]) != key(x[j]),
        x.to_multiset() == y.to_multiset(),
    ensures
        x =~= y,
    decreases x.len(),
{
    broadcast use group_to_multiset_ensures, group_multiset_axioms;

    assert(x.to_multiset().len() == x.len());
    assert(y.to_multiset().len() == y.len());
    if x.len() == 0 {
        assert(y.len() == 0);
    } else {
        assert(y.len() > 0);
        assert(x.contains(x[0]));
        assert(y.contains(y[0]));
        assert(x.to_multiset().count(x[0]) > 0);
        assert(y.to_multiset().count(y[0]) > 0);
        assert(y.to_multiset().count(x[0]) > 0);
        assert(x.to_multiset().count(y[0]) > 0);
        assert(y.contains(x[0]));
        assert(x.contains(y[0]));
        let i = choose|i: int| 0 <= i < x.len() && x[i] == y[0];
        let j = choose|j: int| 0 <= j < y.len() && y[j] == x[0];
        assert(key(x[0]) <= key(x[i]));
        assert(key(y[0]) <= key(y[j]));
        assert(key(x[i]) == key(x[0]));
        assert(i == 0);
        assert(x[0] == y[0]);
        let xs = x.drop_first();
        let ys = y.drop_first();
        assert(x.remove(0) =~= xs);
        assert(y.remove(0) =~= ys);
        assert(xs.to_multiset() =~= x.to_multiset().remove(x[0]));
        assert(ys.to_multiset() =~= y.to_multiset().remove(y[0]));
        lemma_sorted_distinct_unique(xs, ys, key);
        assert forall|k: int| 0 <= k < x.len() implies x[k] == y[k] by {
            if k > 0 {
                assert(xs[k - 1] == ys[k - 1]);
            }
        }
    }
}

/// Mapping a function over a sequence commutes with permutation: two
/// sequences holding the same elements map to sequences holding the
/// same images.
pub proof fn lemma_map_values_multiset<A, B>(s: Seq<A>, t: Seq<A>, f: spec_fn(A) -> B)
    requires
        s.to_multiset() == t.to_multiset(),
    ensures
        s.map_values(f).to_multiset() == t.map_values(f).to_multiset(),
    decreases s.len(),
{
    broadcast use group_to_multiset_ensures, group_multiset_axioms;

    assert(s.to_multiset().len() == s.len());
    assert(t.to_multiset().len() == t.len());
    if s.len() == 0 {
        assert(t.len() == 0);
        assert(s.map_values(f) =~= t.map_values(f));
    } else {
        let a = s[0];
        assert(s.contains(a));
        assert(s.to_multiset().count(a) > 0);
        assert(t.to_multiset().count(a) > 0);
        assert(t.contains(a));
        let j = choose|j: int| 0 <= j < t.len() && t[j] == a;
        let ss = s.drop_first();
        let ts = t.remove(j);
        assert(s.remove(0) =~= ss);
        assert(ss.to_multiset() =~= s.to_multiset().remove(a));
        assert(ts.to_multiset() =~= t.to_multiset().remove(a));
        lemma_map_values_multiset(ss, ts, f);
        let sm = s.map_values(f);
        let tm = t.map_values(f);
        assert(ss.map_values(f) =~= sm.remove(0));
        assert(ts.map_values(f) =~= tm.remove(j));
        assert(sm.remove(0).to_multiset() =~= sm.to_multiset().remove(f(a)));
        assert(tm.remove(j).to_multiset() =~= tm.to_multiset().remove(f(a)));
        assert(sm[0] == f(a));
        assert(sm.contains(f(a)));
        assert(tm[j] == f(a));
        assert(tm.contains(f(a)));
        assert(sm.to_multiset().count(f(a)) > 0);
        assert(tm.to_multiset().count(f(a)) > 0);
        assert(sm.to_multiset() =~= tm.to_multiset()) by {
            assert forall|b: B| true implies sm.to_multiset().count(b) == tm.to_multiset().count(
                b,
            ) by {
                if b == f(a) {
                    assert(sm.remove(0).to_multiset().count(b) == tm.remove(j).to_multiset().count(
                        b,
                    ));
                } else {
                    assert(sm.remove(0).to_multiset().count(b) == tm.remove(j).to_multiset().count(
                        b,
                    ));
                }
            }
        }
    }
}

} // verus!
