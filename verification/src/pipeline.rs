//! The filter-rank pipeline.
//!
//! On every query change the pipeline walks the whole pool, applies the
//! fixed visibility rules in order, scores every accepted item, and
//! produces the accepted pool indices ordered by ranking key with ties
//! resolved to pool order.

use vstd::prelude::*;
use vstd::string::StringSliceAdditionalSpecFns;

use crate::children::RenderableChild;
use crate::launcher::HomeType;
use crate::matcher::{fuzzy_match_bytes, fuzzy_matches};
use crate::mode::{LauncherMode, all_lane};
use crate::ranking::{ranked_le, sort_candidates};
use crate::scorer::{bytes_eq, make_prio, ranking_key, score_spec};

verus! {

/// Tier from which an item stays searchable in every lane.
pub const GLOBAL_SEARCH_TIER: u32 = 1;

/// The item's alias equals the active lane, byte for byte.
pub open spec fn lane_matches(alias: Option<String>, lane: Seq<u8>) -> bool {
    match alias {
        Option::Some(a) => vstd::utf8::encode_utf8(a@) == lane,
        Option::None => false,
    }
}

/// The home view: an empty query in the default lane.
pub open spec fn home_view(lane: Seq<u8>, qb: Seq<u8>) -> bool {
    qb.len() == 0 && lane == all_lane()
}

/// The per-item acceptance predicate, rules applied in their fixed order:
/// lane gate first, then unconditional persistence, then the
/// variant-specific override, then the home-view rules, then the matcher.
pub open spec fn accepts(
    item: RenderableChild,
    lane: Seq<u8>,
    is_home: bool,
    qb: Seq<u8>,
    qc: Seq<char>,
) -> bool {
    if !lane_matches(item.alias_spec(), lane) && (lane != all_lane()
        || item.priority_spec().tier < GLOBAL_SEARCH_TIER) {
        false
    } else if item.home_spec() == HomeType::Persist {
        true
    } else if item.based_show_spec(qc) is Some {
        item.based_show_spec(qc)->0
    } else if !is_home && item.home_spec() == HomeType::OnlyHome {
        false
    } else if is_home && item.home_spec() == HomeType::Search {
        false
    } else {
        fuzzy_matches(item.search_spec(), qb)
    }
}

/// The text an item is scored on: its search text, or its category name
/// for categories that disable keyword matching.
pub open spec fn score_text_spec(item: RenderableChild) -> Seq<u8> {
    if item.use_keywords_spec() {
        item.search_spec()
    } else {
        match item.launcher_spec().name {
            Option::Some(n) => vstd::utf8::encode_utf8(n@),
            Option::None => Seq::<u8>::empty(),
        }
    }
}

/// The full ranking key of one item under a query.
pub open spec fn key_of(item: RenderableChild, qb: Seq<u8>) -> int {
    ranking_key(
        item.priority_spec().tier as int,
        item.priority_spec().frac as int,
        score_spec(qb, score_text_spec(item)),
    )
}

/// `r` is a correct pipeline result for the pool under the given lane and
/// query: it lists exactly the accepted pool indices, each once, ordered
/// by ranking key with ties resolved to pool order.
pub open spec fn valid_ranking(
    pool: Seq<RenderableChild>,
    lane: Seq<u8>,
    is_home: bool,
    qb: Seq<u8>,
    qc: Seq<char>,
    r: Seq<usize>,
) -> bool {
    &&& forall|t: int| 0 <= t < r.len() ==> (r[t] as int) < pool.len()
    &&& forall|i: usize|
        #[trigger] r.contains(i) <==> (i as int) < pool.len() && accepts(
            pool[i as int],
            lane,
            is_home,
            qb,
            qc,
        )
    &&& forall|a: int, b: int|
        0 <= a < b < r.len() ==> (key_of(pool[r[a] as int], qb) < key_of(pool[r[b] as int], qb)
            || (key_of(pool[r[a] as int], qb) == key_of(pool[r[b] as int], qb) && r[a] < r[b]))
}

fn accept(item: &RenderableChild, lane: &str, is_home: bool, query: &str) -> (r: bool)
    ensures
        r == accepts(*item, lane.spec_bytes(), is_home, query.spec_bytes(), query@),
{
    let lane_b = lane.as_bytes();
    let alias_match = match item.alias() {
        Option::Some(a) => bytes_eq(a.as_str().as_bytes(), lane_b),
        Option::None => false,
    };
    if !alias_match {
        if !bytes_eq(lane_b, "all".as_bytes()) || item.priority().tier < GLOBAL_SEARCH_TIER {
            return false;
        }
    }
    if item.home() == HomeType::Persist {
        return true;
    }
    match item.based_show(query) {
        Option::Some(v) => {
            return v;
        },
        Option::None => {},
    }
    let home = item.home();
    if !is_home && home == HomeType::OnlyHome {
        return false;
    }
    if is_home && home == HomeType::Search {
        return false;
    }
    fuzzy_match_bytes(item.search().as_bytes(), query.as_bytes())
}

fn item_key(item: &RenderableChild, query: &str) -> (key: u64)
    ensures
        key as int == key_of(*item, query.spec_bytes()),
{
    let match_in: &str = if item.use_keywords() {
        item.search()
    } else {
        match item.name() {
            Option::Some(n) => n.as_str(),
            Option::None => {
                proof {
                    reveal_strlit("");
                    assert(""@ =~= Seq::<char>::empty());
                    assert("".spec_bytes() =~= Seq::<u8>::empty());
                }
                ""
            },
        }
    };
    make_prio(item.priority(), query, match_in)
}

/// Every element of a sequence is also an element of any sequence with the
/// same multiset.
proof fn lemma_multiset_member(s1: Seq<(usize, u64)>, s2: Seq<(usize, u64)>, t: int)
    requires
        s1.to_multiset() == s2.to_multiset(),
        0 <= t < s2.len(),
    ensures
        s1.contains(s2[t]),
{
    broadcast use vstd::seq_lib::group_to_multiset_ensures;

    assert(s2.contains(s2[t]));
    assert(s2.to_multiset().contains(s2[t]));
}

/// Filters the pool under the active mode and query, scores what
/// survives, and returns the accepted indices in ranking order.
#[verifier::loop_isolation(false)]
pub fn filter_and_rank(pool: &Vec<RenderableChild>, mode: &LauncherMode, query: &str) -> (r: Vec<
    usize,
>)
    ensures
        valid_ranking(
            pool@,
            mode.lane_spec(),
            home_view(mode.lane_spec(), query.spec_bytes()),
            query.spec_bytes(),
            query@,
            r@,
        ),
{
    let lane = mode.as_str();
    let is_home = query.as_bytes().len() == 0 && bytes_eq(lane.as_bytes(), "all".as_bytes());
    let ghost lane_s = lane.spec_bytes();
    let ghost qb = query.spec_bytes();
    let ghost qc = query@;

    let mut cands: Vec<(usize, u64)> = Vec::new();
    let mut i: usize = 0;
    while i < pool.len()
        invariant
            i <= pool@.len(),
            lane_s == mode.lane_spec(),
            is_home == home_view(lane_s, qb),
            forall|t: int|
                0 <= t < cands@.len() ==> (#[trigger] cands@[t]).0 < i && cands@[t].1 as int
                    == key_of(pool@[cands@[t].0 as int], qb),
            forall|t1: int, t2: int|
                0 <= t1 < t2 < cands@.len() ==> cands@[t1].0 < cands@[t2].0,
            forall|t: int|
                0 <= t < cands@.len() ==> accepts(
                    pool@[(#[trigger] cands@[t]).0 as int],
                    lane_s,
                    is_home,
                    qb,
                    qc,
                ),
            forall|j: int|
                0 <= j < i && accepts(pool@[j], lane_s, is_home, qb, qc) ==> exists|t: int|
                    0 <= t < cands@.len() && (#[trigger] cands@[t]).0 == j,
        decreases pool@.len() - i,
    {
        if accept(&pool[i], lane, is_home, query) {
            let key = item_key(&pool[i], query);
            let ghost before_push = cands@;
            cands.push((i, key));
            assert forall|j: int|
                0 <= j < i + 1 && accepts(pool@[j], lane_s, is_home, qb, qc) implies exists|t: int|
                0 <= t < cands@.len() && (#[trigger] cands@[t]).0 == j by {
                if j == i {
                    assert(cands@[cands@.len() - 1].0 == j);
                } else {
                    let t0 = choose|t0: int|
                        0 <= t0 < before_push.len() && (#[trigger] before_push[t0]).0 == j;
                    assert(cands@[t0].0 == j);
                }
            }
        }
        i += 1;
    }

    let ghost unsorted = cands@;
    sort_candidates(&mut cands);
    proof {
        broadcast use vstd::seq_lib::group_to_multiset_ensures;

        assert forall|t: int|
            0 <= t < cands@.len() implies ((#[trigger] cands@[t]).0 as int) < pool@.len()
            && cands@[t].1 as int == key_of(pool@[cands@[t].0 as int], qb) && accepts(
            pool@[cands@[t].0 as int],
            lane_s,
            is_home,
            qb,
            qc,
        ) by {
            lemma_multiset_member(unsorted, cands@, t);
            let u = choose|u: int| 0 <= u < unsorted.len() && unsorted[u] == cands@[t];
        }
    }

    let mut out: Vec<usize> = Vec::new();
    let mut t: usize = 0;
    while t < cands.len()
        invariant
            t <= cands@.len(),
            out@.len() == t,
            forall|u: int| 0 <= u < t ==> out@[u] == (#[trigger] cands@[u]).0,
        decreases cands@.len() - t,
    {
        let idx = cands[t].0;
        out.push(idx);
        t += 1;
    }

    proof {
        broadcast use vstd::seq_lib::group_to_multiset_ensures;

        // Everything the sorted list holds is accepted, keyed, and ordered.
        assert forall|a: int, b: int|
            0 <= a < b < out@.len() implies (key_of(pool@[out@[a] as int], qb) < key_of(
            pool@[out@[b] as int],
            qb,
        ) || (key_of(pool@[out@[a] as int], qb) == key_of(pool@[out@[b] as int], qb) && out@[a]
            < out@[b])) by {
            assert(ranked_le(cands@[a], cands@[b]));
            if cands@[a].0 == cands@[b].0 {
                assert(cands@[a].1 == cands@[b].1);
                assert(cands@[a] == cands@[b]);
                crate::ranking::lemma_count_at_least_two(cands@, a, b);
                assert(unsorted.no_duplicates());
                unsorted.lemma_multiset_has_no_duplicates();
                assert(unsorted.to_multiset().count(cands@[a]) >= 2);
                assert(unsorted.contains(cands@[a]));
                assert(false);
            }
        }

        // Membership both ways.
        assert forall|j: usize| #[trigger]
            out@.contains(j) implies (j as int) < pool@.len() && accepts(
            pool@[j as int],
            lane_s,
            is_home,
            qb,
            qc,
        ) by {
            let u = choose|u: int| 0 <= u < out@.len() && out@[u] == j;
            assert(cands@[u].0 == j);
        }
        assert forall|j: usize|
            (j as int) < pool@.len() && accepts(pool@[j as int], lane_s, is_home, qb, qc) implies
            #[trigger] out@.contains(j) by {
            let t0 = choose|t0: int| 0 <= t0 < unsorted.len() && (#[trigger] unsorted[t0]).0 == j;
            assert(unsorted.contains(unsorted[t0]));
            assert(unsorted.to_multiset().contains(unsorted[t0]));
            assert(cands@.contains(unsorted[t0]));
            let t1 = choose|t1: int| 0 <= t1 < cands@.len() && cands@[t1] == unsorted[t0];
            assert(out@[t1] == j);
            assert(out@.contains(out@[t1]));
        }

        assert forall|t: int| 0 <= t < out@.len() implies (out@[t] as int) < pool@.len() by {
            assert(cands@[t].0 == out@[t]);
        }
        assert(valid_ranking(pool@, lane_s, is_home, qb, qc, out@));
    }
    out
}

/// Ranking is stable: any two correct pipeline results for the same pool
/// under the same lane, view and query are the same sequence, so
/// re-ranking the same accepted set with identical keys can only
/// reproduce the same order.
pub proof fn lemma_ranking_stable(
    pool: Seq<RenderableChild>,
    lane: Seq<u8>,
    is_home: bool,
    qb: Seq<u8>,
    qc: Seq<char>,
    r1: Seq<usize>,
    r2: Seq<usize>,
)
    requires
        valid_ranking(pool, lane, is_home, qb, qc, r1),
        valid_ranking(pool, lane, is_home, qb, qc, r2),
    ensures
        r1 == r2,
{
    crate::ranking::lemma_sorted_unique_by_key(
        |i: usize| key_of(pool[i as int], qb),
        r1,
        r2,
    );
}

/// An item whose rule is Persist is present in the pipeline's results for
/// every query and every view, as long as the lane gate lets it through:
/// its alias matches the active lane, or the lane is the default one and
/// the item's tier makes it globally searchable.
pub proof fn lemma_persist_always_present(
    pool: Seq<RenderableChild>,
    lane: Seq<u8>,
    is_home: bool,
    qb: Seq<u8>,
    qc: Seq<char>,
    r: Seq<usize>,
    i: usize,
)
    requires
        valid_ranking(pool, lane, is_home, qb, qc, r),
        (i as int) < pool.len(),
        pool[i as int].home_spec() == HomeType::Persist,
        lane_matches(pool[i as int].alias_spec(), lane) || (lane == all_lane()
            && pool[i as int].priority_spec().tier >= GLOBAL_SEARCH_TIER),
    ensures
        r.contains(i),
{
    assert(accepts(pool[i as int], lane, is_home, qb, qc));
}

} // verus!
