//! Generation-guarded refresh.
//!
//! Each UI-session activation advances a generation counter.  Refresh
//! tasks are spawned against the counter's value at that moment; when
//! their collected results come back, they are applied only if the
//! counter has not advanced since.  A stale batch is discarded whole, and
//! the pool is left exactly as it was.

use vstd::prelude::*;

use crate::children::RenderableChild;

verus! {

/// The monotonically increasing counter that identifies the current UI
/// session.
pub struct GenerationCounter {
    pub current: u64,
}

/// The pool after a batch of updates has been written at its indices, in
/// order, later entries winning.
pub open spec fn apply_updates_spec(
    pool: Seq<RenderableChild>,
    updates: Seq<(usize, RenderableChild)>,
) -> Seq<RenderableChild>
    decreases updates.len(),
{
    if updates.len() == 0 {
        pool
    } else {
        let next = if (updates[0].0 as int) < pool.len() {
            pool.update(updates[0].0 as int, updates[0].1)
        } else {
            pool
        };
        apply_updates_spec(next, updates.skip(1))
    }
}

impl GenerationCounter {
    pub fn new() -> (r: GenerationCounter)
        ensures
            r.current == 0,
    {
        GenerationCounter { current: 0 }
    }

    /// Starts a new UI session: the counter advances, and the returned
    /// token identifies the refresh batch spawned for this session.
    pub fn begin_session(&mut self) -> (token: u64)
        requires
            old(self).current < u64::MAX,
        ensures
            final (self).current == old(self).current + 1,
            token == final (self).current,
    {
        self.current = self.current + 1;
        self.current
    }

    /// Whether a batch spawned with `token` is still current.
    pub fn is_current(&self, token: u64) -> (r: bool)
        ensures
            r == (token == self.current),
    {
        token == self.current
    }
}

/// Applies a collected refresh batch to the pool, unless the generation
/// counter advanced since the batch was spawned: a stale batch is
/// discarded silently and the pool is not touched at all.
pub fn apply_refresh_batch(
    counter: &GenerationCounter,
    token: u64,
    pool: &mut Vec<RenderableChild>,
    updates: Vec<(usize, RenderableChild)>,
) -> (applied: bool)
    requires
        forall|u: int| 0 <= u < updates@.len() ==> ((#[trigger] updates@[u]).0 as int)
            < old(pool)@.len(),
    ensures
        applied == (token == counter.current),
        !applied ==> final (pool)@ == old(pool)@,
        applied ==> final (pool)@ == apply_updates_spec(old(pool)@, updates@),
        final (pool)@.len() == old(pool)@.len(),
{
    proof {
        lemma_apply_updates_len(old(pool)@, updates@);
    }
    if !counter.is_current(token) {
        return false;
    }
    let ghost orig = pool@;
    let ghost all = updates@;
    let mut rest = updates;
    // Walk the batch front to back, writing each update at its index.
    loop
        invariant
            pool@.len() == orig.len(),
            forall|u: int| 0 <= u < rest@.len() ==> ((#[trigger] rest@[u]).0 as int) < orig.len(),
            apply_updates_spec(orig, all) == apply_updates_spec(pool@, rest@),
        ensures
            rest@.len() == 0,
        decreases rest@.len(),
    {
        if rest.len() == 0 {
            break ;
        }
        let ghost rest_before = rest@;
        let ghost pool_before = pool@;
        let (idx, item) = rest.remove(0);
        pool[idx] = item;
        proof {
            assert(rest@ =~= rest_before.skip(1));
            assert(apply_updates_spec(pool_before, rest_before) == apply_updates_spec(
                pool@,
                rest@,
            ));
        }
    }
    proof {
        assert(apply_updates_spec(pool@, rest@) == pool@);
    }
    true
}

/// Writing updates never changes the pool's length.
proof fn lemma_apply_updates_len(pool: Seq<RenderableChild>, updates: Seq<(usize, RenderableChild)>)
    ensures
        apply_updates_spec(pool, updates).len() == pool.len(),
    decreases updates.len(),
{
    if updates.len() > 0 {
        if (updates[0].0 as int) < pool.len() {
            lemma_apply_updates_len(
                pool.update(updates[0].0 as int, updates[0].1),
                updates.skip(1),
            );
        } else {
            lemma_apply_updates_len(pool, updates.skip(1));
        }
    }
}

/// The indices of the pool items that refresh asynchronously: the set a
/// new session fans its refresh tasks out over.
pub fn async_eligible_indices(pool: &Vec<RenderableChild>) -> (r: Vec<usize>)
    ensures
        forall|t: int| 0 <= t < r@.len() ==> ((#[trigger] r@[t]) as int) < pool@.len(),
        forall|i: usize|
            #[trigger] r@.contains(i) <==> (i as int) < pool@.len() && pool@[i as int].is_async_spec(),
        forall|t1: int, t2: int| 0 <= t1 < t2 < r@.len() ==> r@[t1] < r@[t2],
{
    let mut r: Vec<usize> = Vec::new();
    let mut i: usize = 0;
    #[verifier::loop_isolation(false)]
    while i < pool.len()
        invariant
            i <= pool@.len(),
            forall|t: int| 0 <= t < r@.len() ==> ((#[trigger] r@[t]) as int) < i,
            forall|t1: int, t2: int| 0 <= t1 < t2 < r@.len() ==> r@[t1] < r@[t2],
            forall|t: int| 0 <= t < r@.len() ==> pool@[(#[trigger] r@[t]) as int].is_async_spec(),
            forall|j: usize|
                (j as int) < i && pool@[j as int].is_async_spec() ==> #[trigger] r@.contains(j),
        decreases pool@.len() - i,
    {
        if pool[i].is_async() {
            let ghost before = r@;
            r.push(i);
            assert forall|j: usize|
                (j as int) < i + 1 && pool@[j as int].is_async_spec() implies #[trigger] r@.contains(
                j,
            ) by {
                if (j as int) < i {
                    assert(before.contains(j));
                    let t0 = choose|t0: int| 0 <= t0 < before.len() && before[t0] == j;
                    assert(r@[t0] == j);
                } else {
                    assert(r@[r@.len() - 1] == j);
                }
            }
        }
        i += 1;
    }
    assert forall|i0: usize| #[trigger]
        r@.contains(i0) implies (i0 as int) < pool@.len() && pool@[i0 as int].is_async_spec() by {
        let t0 = choose|t0: int| 0 <= t0 < r@.len() && r@[t0] == i0;
    }
    r
}

} // verus!
