//! Ordering of scored candidates.
//!
//! A candidate is a pair of its pool index and its ranking key.  Candidates
//! are ordered by key, and candidates with equal keys by pool index, so the
//! order is total and ties always resolve to the original pool order.

use vstd::prelude::*;

verus! {

/// `a` comes no later than `b`: a lower key wins, and equal keys fall back
/// to pool order.
pub open spec fn ranked_le(a: (usize, u64), b: (usize, u64)) -> bool {
    a.1 < b.1 || (a.1 == b.1 && a.0 <= b.0)
}

/// Strict version of `ranked_le`.
pub open spec fn ranked_lt(a: (usize, u64), b: (usize, u64)) -> bool {
    a.1 < b.1 || (a.1 == b.1 && a.0 < b.0)
}

/// Every pair of positions is ordered.
pub open spec fn ranked_sorted(s: Seq<(usize, u64)>) -> bool {
    forall|i: int, j: int| 0 <= i < j < s.len() ==> ranked_le(s[i], s[j])
}

fn ranked_lt_exec(a: (usize, u64), b: (usize, u64)) -> (r: bool)
    ensures
        r == ranked_lt(a, b),
{
    a.1 < b.1 || (a.1 == b.1 && a.0 < b.0)
}

/// Inserting an element anywhere adds exactly that element to the
/// multiset.
proof fn lemma_insert_to_multiset(s: Seq<(usize, u64)>, p: int, x: (usize, u64))
    requires
        0 <= p <= s.len(),
    ensures
        s.insert(p, x).to_multiset() =~= s.to_multiset().insert(x),
{
    broadcast use vstd::seq_lib::group_to_multiset_ensures;

    let t = s.insert(p, x);
    assert(t.remove(p) =~= s);
    assert(t[p] == x);
    assert(t.remove(p).to_multiset() =~= t.to_multiset().remove(x));
    assert(t.to_multiset().contains(x));
    assert(t.to_multiset() =~= t.to_multiset().remove(x).insert(x));
}

/// Sorts the candidates by key, ties by pool index, keeping exactly the
/// same collection of candidates.
pub fn sort_candidates(v: &mut Vec<(usize, u64)>)
    ensures
        final(v)@.to_multiset() == old(v)@.to_multiset(),
        ranked_sorted(final(v)@),
        final(v)@.len() == old(v)@.len(),
{
    broadcast use vstd::seq_lib::group_to_multiset_ensures;

    let ghost orig = v@;
    let mut i: usize = 1;
    while i < v.len()
        invariant
            1 <= i,
            v@.len() == orig.len(),
            v@.to_multiset() == orig.to_multiset(),
            forall|a: int, b: int| 0 <= a < b < i && b < v@.len() ==> ranked_le(v@[a], v@[b]),
        decreases v@.len() - i,
    {
        let x = v[i];
        let mut p: usize = 0;
        while p < i && !ranked_lt_exec(x, v[p])
            invariant
                p <= i < v@.len(),
                forall|t: int| 0 <= t < p ==> !ranked_lt(x, v@[t]),
            decreases i - p,
        {
            p += 1;
        }
        if p < i {
            let ghost before = v@;
            let x = v.remove(i);
            let ghost removed = v@;
            v.insert(p, x);
            proof {
                broadcast use vstd::seq_lib::group_to_multiset_ensures;

                assert(removed =~= before.remove(i as int));
                assert(before.remove(i as int).to_multiset() =~= before.to_multiset().remove(
                    before[i as int],
                ));
                lemma_insert_to_multiset(removed, p as int, x);
                assert(before.contains(x));
                assert(before.to_multiset().contains(x));
                assert(v@.to_multiset() =~= before.to_multiset());

                assert forall|a: int, b: int|
                    0 <= a < b < i + 1 && b < v@.len() implies ranked_le(v@[a], v@[b]) by {
                    if a < p {
                        assert(v@[a] == before[a]);
                        assert(!ranked_lt(x, before[a]));
                    } else if a == p {
                        assert(v@[a] == x);
                    } else {
                        assert(v@[a] == before[a - 1]);
                    }
                    if b < p {
                        assert(v@[b] == before[b]);
                        assert(ranked_le(before[a], before[b]));
                    } else if b == p {
                        assert(v@[b] == x);
                    } else {
                        assert(v@[b] == before[b - 1]);
                        assert(ranked_lt(x, before[p as int]));
                        if p < b - 1 {
                            assert(ranked_le(before[p as int], before[b - 1]));
                        }
                        if 0 <= a - 1 && a - 1 < b - 1 {
                            assert(ranked_le(before[a - 1], before[b - 1]));
                        }
                        if a < b - 1 {
                            assert(ranked_le(before[a], before[b - 1]));
                        }
                    }
                }
            }
        }
        i += 1;
    }
}

/// An element that occurs at two positions counts at least twice.
pub(crate) proof fn lemma_count_at_least_two(s: Seq<(usize, u64)>, a: int, b: int)
    requires
        0 <= a < b < s.len(),
        s[a] == s[b],
    ensures
        s.to_multiset().count(s[a]) >= 2,
{
    broadcast use vstd::seq_lib::group_to_multiset_ensures;

    let t = s.remove(a);
    assert(t.to_multiset() =~= s.to_multiset().remove(s[a]));
    assert(t[b - 1] == s[b]);
    assert(t.contains(s[a]));
    assert(t.to_multiset().count(s[a]) >= 1);
}

/// Index sequences with the same members, both strictly ordered by a key
/// with index tie-break, are identical.
pub proof fn lemma_sorted_unique_by_key(key: spec_fn(usize) -> int, r1: Seq<usize>, r2: Seq<usize>)
    requires
        forall|i: usize| #[trigger] r1.contains(i) <==> #[trigger] r2.contains(i),
        forall|a: int, b: int|
            0 <= a < b < r1.len() ==> (key(r1[a]) < key(r1[b]) || (key(r1[a]) == key(r1[b])
                && r1[a] < r1[b])),
        forall|a: int, b: int|
            0 <= a < b < r2.len() ==> (key(r2[a]) < key(r2[b]) || (key(r2[a]) == key(r2[b])
                && r2[a] < r2[b])),
    ensures
        r1 == r2,
    decreases r1.len(),
{
    if r1.len() == 0 {
        if r2.len() > 0 {
            assert(r2.contains(r2[0]));
            assert(r1.contains(r2[0]));
        }
        assert(r1 =~= r2);
    } else {
        assert(r1.contains(r1[0]));
        assert(r2.contains(r1[0]));
        let x = r1[0];
        let y = r2[0];
        let k = choose|k: int| 0 <= k < r2.len() && r2[k] == x;
        assert(r2.contains(y));
        assert(r1.contains(y));
        let m = choose|m: int| 0 <= m < r1.len() && r1[m] == y;
        if k > 0 && m > 0 {
            assert(key(y) < key(x) || (key(y) == key(x) && y < x));
            assert(key(x) < key(y) || (key(x) == key(y) && x < y));
            assert(false);
        }
        assert(x == y);

        let t1 = r1.drop_first();
        let t2 = r2.drop_first();
        assert forall|i: usize| #[trigger] t1.contains(i) implies #[trigger] t2.contains(i) by {
            lemma_tail_member(key, r1, r2, i);
        }
        assert forall|i: usize| #[trigger] t2.contains(i) implies #[trigger] t1.contains(i) by {
            lemma_tail_member(key, r2, r1, i);
        }
        lemma_sorted_unique_by_key(key, t1, t2);
        assert forall|t: int| 0 <= t < r1.len() implies r1[t] == r2[t] by {
            if t > 0 {
                assert(t1[t - 1] == t2[t - 1]);
            }
        }
        assert(r1 =~= r2);
    }
}

/// A member of one ranking's tail is a member of the other ranking's
/// tail, when both rankings are strictly ordered, share their members,
/// and share their head.
proof fn lemma_tail_member(key: spec_fn(usize) -> int, r1: Seq<usize>, r2: Seq<usize>, i: usize)
    requires
        forall|j: usize| #[trigger] r1.contains(j) <==> #[trigger] r2.contains(j),
        forall|a: int, b: int|
            0 <= a < b < r1.len() ==> (key(r1[a]) < key(r1[b]) || (key(r1[a]) == key(r1[b])
                && r1[a] < r1[b])),
        forall|a: int, b: int|
            0 <= a < b < r2.len() ==> (key(r2[a]) < key(r2[b]) || (key(r2[a]) == key(r2[b])
                && r2[a] < r2[b])),
        r1.len() > 0,
        r2.len() > 0,
        r1[0] == r2[0],
        r1.drop_first().contains(i),
    ensures
        r2.drop_first().contains(i),
{
    let a = choose|a: int| 0 <= a < r1.drop_first().len() && r1.drop_first()[a] == i;
    assert(r1[a + 1] == i);
    assert(r1.contains(i));
    assert(r2.contains(i));
    let b = choose|b: int| 0 <= b < r2.len() && r2[b] == i;
    if b == 0 {
        // the head repeats at a later position of r1, against strictness
        assert(r1[0] == i);
        assert(key(r1[0]) < key(r1[a + 1]) || (key(r1[0]) == key(r1[a + 1]) && r1[0] < r1[a + 1]));
        assert(false);
    }
    assert(r2.drop_first()[b - 1] == i);
    assert(r2.drop_first().contains(r2.drop_first()[b - 1]));
}

/// Two sorted rankings of the same candidate collection are identical:
/// re-ranking the same accepted set with the same keys can only reproduce
/// the same order.
pub proof fn lemma_ranking_deterministic(r1: Seq<(usize, u64)>, r2: Seq<(usize, u64)>)
    requires
        r1.to_multiset() == r2.to_multiset(),
        ranked_sorted(r1),
        ranked_sorted(r2),
    ensures
        r1 == r2,
    decreases r1.len(),
{
    broadcast use vstd::seq_lib::group_to_multiset_ensures;

    assert(r1.to_multiset().len() == r1.len());
    assert(r2.to_multiset().len() == r2.len());
    if r1.len() == 0 {
        assert(r1 =~= r2);
    } else {
        assert(r2.len() == r1.len());
        let x = r1[0];
        let y = r2[0];
        assert(r1.to_multiset().contains(x));
        assert(r2.contains(x));
        let k = choose|k: int| 0 <= k < r2.len() && r2[k] == x;
        assert(ranked_le(y, x));
        assert(r2.to_multiset().contains(y));
        assert(r1.contains(y));
        let m = choose|m: int| 0 <= m < r1.len() && r1[m] == y;
        assert(ranked_le(x, y));
        assert(x == y);

        assert(r1.drop_first() =~= r1.remove(0));
        assert(r2.drop_first() =~= r2.remove(0));
        assert(r1.remove(0).to_multiset() =~= r1.to_multiset().remove(x));
        assert(r2.remove(0).to_multiset() =~= r2.to_multiset().remove(x));
        assert(r1.drop_first().to_multiset() == r2.drop_first().to_multiset());
        assert(ranked_sorted(r1.drop_first()));
        assert(ranked_sorted(r2.drop_first()));
        lemma_ranking_deterministic(r1.drop_first(), r2.drop_first());
        assert forall|t: int| 0 <= t < r1.len() implies r1[t] == r2[t] by {
            if t > 0 {
                assert(r1.drop_first()[t - 1] == r2.drop_first()[t - 1]);
            }
        }
        assert(r1 =~= r2);
    }
}

} // verus!
