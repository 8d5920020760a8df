//! Edit distance between two byte strings.
//!
//! The specification is the textbook recursion; the executable function is
//! the usual two-row dynamic program, proved equal to it.

use vstd::prelude::*;

verus! {

pub open spec fn min3(a: int, b: int, c: int) -> int {
    if a <= b && a <= c {
        a
    } else if b <= c {
        b
    } else {
        c
    }
}

/// Levenshtein distance: fewest single-byte insertions, deletions and
/// substitutions that turn `a` into `b`.
pub open spec fn edit_dist(a: Seq<u8>, b: Seq<u8>) -> int
    decreases a.len() + b.len(),
{
    if a.len() == 0 {
        b.len() as int
    } else if b.len() == 0 {
        a.len() as int
    } else {
        let d: int = if a.last() == b.last() {
            0
        } else {
            1
        };
        min3(
            edit_dist(a.drop_last(), b) + 1,
            edit_dist(a, b.drop_last()) + 1,
            edit_dist(a.drop_last(), b.drop_last()) + d,
        )
    }
}

/// The distance never exceeds the two lengths together.
pub proof fn lemma_edit_dist_le_sum(a: Seq<u8>, b: Seq<u8>)
    ensures
        0 <= edit_dist(a, b) <= a.len() + b.len(),
    decreases a.len() + b.len(),
{
    if a.len() != 0 && b.len() != 0 {
        lemma_edit_dist_le_sum(a.drop_last(), b);
        lemma_edit_dist_le_sum(a, b.drop_last());
        lemma_edit_dist_le_sum(a.drop_last(), b.drop_last());
    }
}

/// One step of the prefix recurrence, phrased over `take`.
proof fn lemma_edit_dist_unfold(a: Seq<u8>, b: Seq<u8>, i: int, j: int)
    requires
        1 <= i <= a.len(),
        1 <= j <= b.len(),
    ensures
        edit_dist(a.take(i), b.take(j)) == min3(
            edit_dist(a.take(i - 1), b.take(j)) + 1,
            edit_dist(a.take(i), b.take(j - 1)) + 1,
            edit_dist(a.take(i - 1), b.take(j - 1)) + if a[i - 1] == b[j - 1] {
                0int
            } else {
                1int
            },
        ),
{
    let x = a.take(i);
    let y = b.take(j);
    assert(x.last() == a[i - 1]);
    assert(y.last() == b[j - 1]);
    assert(x.drop_last() =~= a.take(i - 1));
    assert(y.drop_last() =~= b.take(j - 1));
}

/// Row-by-row dynamic program for the edit distance.
pub fn edit_distance(a: &[u8], b: &[u8]) -> (d: u128)
    ensures
        d as int == edit_dist(a@, b@),
{
    let n = b.len();

    // prev[j] holds the distance of a's first i bytes to b's first j bytes.
    let mut prev: Vec<u128> = Vec::new();
    while prev.len() <= n
        invariant
            prev@.len() <= n + 1,
            forall|j: int| 0 <= j < prev@.len() ==> prev@[j] == j,
        decreases n + 1 - prev@.len(),
    {
        let next = prev.len() as u128;
        prev.push(next);
    }

    assert forall|j: int| 0 <= j <= n implies prev@[j] == edit_dist(a@.take(0), b@.take(j)) by {
        assert(a@.take(0) =~= Seq::<u8>::empty());
        assert(b@.take(j).len() == j);
    }

    let mut i: usize = 0;
    while i < a.len()
        invariant
            i <= a@.len(),
            n == b@.len(),
            prev@.len() == n + 1,
            forall|j: int| 0 <= j <= n ==> prev@[j] == edit_dist(a@.take(i as int), b@.take(j)),
        decreases a@.len() - i,
    {
        let mut cur: Vec<u128> = Vec::new();
        proof {
            lemma_edit_dist_le_sum(a@.take(i + 1), b@.take(0));
            assert(b@.take(0) =~= Seq::<u8>::empty());
        }
        cur.push(i as u128 + 1);

        let mut j: usize = 0;
        while j < n
            invariant
                j <= n,
                i < a@.len(),
                n == b@.len(),
                prev@.len() == n + 1,
                cur@.len() == j + 1,
                forall|k: int| 0 <= k <= n ==> prev@[k] == edit_dist(a@.take(i as int), b@.take(k)),
                forall|k: int|
                    0 <= k <= j ==> cur@[k] == edit_dist(a@.take(i + 1 as int), b@.take(k)),
            decreases n - j,
        {
            proof {
                lemma_edit_dist_le_sum(a@.take(i as int), b@.take(j as int));
                lemma_edit_dist_le_sum(a@.take(i as int), b@.take(j + 1 as int));
                lemma_edit_dist_le_sum(a@.take(i + 1 as int), b@.take(j as int));
                assert(a@.take(i as int).len() <= a@.len());
                assert(a@.take(i + 1 as int).len() <= a@.len());
            }
            let cost: u128 = if a[i] == b[j] {
                0
            } else {
                1
            };
            let deletion = prev[j + 1] + 1;
            let insertion = cur[j] + 1;
            let substitution = prev[j] + cost;
            let best = if deletion <= insertion && deletion <= substitution {
                deletion
            } else if insertion <= substitution {
                insertion
            } else {
                substitution
            };
            proof {
                lemma_edit_dist_unfold(a@, b@, i + 1, j + 1);
            }
            cur.push(best);
            j += 1;
        }
        prev = cur;
        i += 1;
    }

    proof {
        assert(a@.take(a@.len() as int) =~= a@);
        assert(b@.take(n as int) =~= b@);
    }
    prev[n]
}

} // verus!
