//! Per-candidate similarity scoring and the composite ranking key.
//!
//! Scores are fixed-point: `SCORE_ONE` stands for 1.0, and lower is better.
//! A candidate text is semicolon-delimited; each non-empty field is scored
//! on its own and the best (lowest) field score is kept.  The ranking key
//! combines an integer category tier, a scaled-down usage fraction and the
//! similarity score so that the tier dominates, then similarity, then
//! usage.

use vstd::prelude::*;
use vstd::string::StringSliceAdditionalSpecFns;

use crate::distance::{edit_dist, edit_distance, lemma_edit_dist_le_sum};

verus! {

/// Fixed-point representation of the score 1.0.
pub const SCORE_ONE: u64 = 1_000_000;

/// Score of any candidate under an empty query.
pub const EMPTY_QUERY_SCORE: u64 = 800_000;

/// Lowest score a prefix match can receive (0.1).
pub const PREFIX_FLOOR: u64 = 100_000;

/// Lowest score an edit-distance match can receive (0.2), also the clamp
/// floor of the normalized distance.
pub const DISTANCE_FLOOR: u64 = 200_000;

/// A field is scored by edit distance only when its length differs from the
/// query's by less than this.
pub const DISTANCE_BAND: usize = 4;

/// Cap of the fractional part of a ranking key (0.99), so that a score can
/// never bleed into the next tier.
pub const KEY_FRACT_CAP: u64 = 990_000;

/// The usage fraction is shifted this far below the score's resolution.
pub const USAGE_SHIFT: u64 = 100;

/// `q` is a prefix of `f`.
pub open spec fn is_prefix_of(q: Seq<u8>, f: Seq<u8>) -> bool {
    q.len() <= f.len() && f.take(q.len() as int) == q
}

/// Score of a prefix match: 0.1 plus 0.1 times the share of the field that
/// the query does not cover.
pub open spec fn prefix_score(qlen: int, flen: int) -> int {
    (SCORE_ONE * (2 * flen - qlen)) / (10 * flen)
}

/// An edit distance `d`, normalized by the field length and clamped to
/// [0.2, 1.0].
pub open spec fn distance_score(d: int, flen: int) -> int {
    let v = (d * SCORE_ONE) / flen;
    if v < DISTANCE_FLOOR {
        DISTANCE_FLOOR as int
    } else if v > SCORE_ONE {
        SCORE_ONE as int
    } else {
        v
    }
}

/// Score of one field against a non-empty query.  An empty field, or one
/// outside the edit-distance band that is neither equal nor an extension of
/// the query, contributes nothing (the worst score).
pub open spec fn field_score(q: Seq<u8>, f: Seq<u8>) -> int {
    if f.len() == 0 {
        SCORE_ONE as int
    } else if f == q {
        0
    } else if is_prefix_of(q, f) {
        prefix_score(q.len() as int, f.len() as int)
    } else if -(DISTANCE_BAND as int) < f.len() - q.len() < DISTANCE_BAND as int {
        distance_score(edit_dist(q, f), f.len() as int)
    } else {
        SCORE_ONE as int
    }
}

/// Index of the first semicolon in `s`, or -1.
pub open spec fn first_semi(s: Seq<u8>) -> int
    decreases s.len(),
{
    if s.len() == 0 {
        -1
    } else if s[0] == 59u8 {
        0
    } else {
        let r = first_semi(s.skip(1));
        if r < 0 {
            -1
        } else {
            r + 1
        }
    }
}

/// Best (lowest) score over the semicolon-separated fields of `s`.
pub open spec fn fields_min(q: Seq<u8>, s: Seq<u8>) -> int
    decreases s.len(),
{
    let i = first_semi(s);
    if i < 0 || i >= s.len() {
        field_score(q, s)
    } else {
        let head = field_score(q, s.take(i));
        let rest = fields_min(q, s.skip(i + 1));
        if head <= rest {
            head
        } else {
            rest
        }
    }
}

/// The similarity score of a candidate text against a query, both given as
/// byte strings: 0.8 for an empty query, otherwise the best field score.
pub open spec fn score_spec(q: Seq<u8>, s: Seq<u8>) -> int {
    if q.len() == 0 {
        EMPTY_QUERY_SCORE as int
    } else if s.len() == 0 {
        SCORE_ONE as int
    } else {
        fields_min(q, s)
    }
}

/// The composite ranking key: the tier scaled up, plus the capped sum of
/// the shifted usage fraction and the similarity score.
pub open spec fn ranking_key(tier: int, frac: int, score: int) -> int {
    let fract = frac / (USAGE_SHIFT as int) + score;
    tier * (SCORE_ONE as int) + if fract > KEY_FRACT_CAP as int {
        KEY_FRACT_CAP as int
    } else {
        fract
    }
}

/// A base priority: an integer category tier and a fixed-point fraction
/// that encodes historical use, always below 1.0.
#[derive(Clone, Copy, PartialEq, Eq, Structural, Debug)]
pub struct Priority {
    pub tier: u32,
    pub frac: u32,
}

impl Priority {
    /// The fraction must stay below 1.0 so tiers cannot mix.
    pub open spec fn wf(self) -> bool {
        self.frac < SCORE_ONE
    }

    pub fn new(tier: u32, frac: u32) -> (r: Priority)
        ensures
            r.wf(),
            r.tier == tier,
            r.frac == if frac < SCORE_ONE { frac as u32 } else { (SCORE_ONE - 1) as u32 },
    {
        if frac < SCORE_ONE as u32 {
            Priority { tier, frac }
        } else {
            Priority { tier, frac: (SCORE_ONE - 1) as u32 }
        }
    }
}

pub(crate) fn bytes_eq(a: &[u8], b: &[u8]) -> (r: bool)
    ensures
        r == (a@ == b@),
{
    if a.len() != b.len() {
        assert(a@ != b@);
        return false;
    }
    let mut i: usize = 0;
    while i < a.len()
        invariant
            i <= a@.len(),
            a@.len() == b@.len(),
            forall|j: int| 0 <= j < i ==> a@[j] == b@[j],
        decreases a@.len() - i,
    {
        if a[i] != b[i] {
            return false;
        }
        i += 1;
    }
    proof {
        assert(a@ =~= b@);
    }
    true
}

fn starts_with(f: &[u8], q: &[u8]) -> (r: bool)
    ensures
        r == is_prefix_of(q@, f@),
{
    if q.len() > f.len() {
        return false;
    }
    let mut i: usize = 0;
    while i < q.len()
        invariant
            i <= q@.len(),
            q@.len() <= f@.len(),
            forall|j: int| 0 <= j < i ==> f@[j] == q@[j],
        decreases q@.len() - i,
    {
        if f[i] != q[i] {
            assert(f@.take(q@.len() as int)[i as int] != q@[i as int]);
            return false;
        }
        i += 1;
    }
    proof {
        assert(f@.take(q@.len() as int) =~= q@);
    }
    true
}

/// Scores one field of the candidate text.
fn score_field(q: &[u8], f: &[u8]) -> (r: u64)
    requires
        q@.len() >= 1,
    ensures
        r as int == field_score(q@, f@),
        r <= SCORE_ONE,
{
    if f.len() == 0 {
        return SCORE_ONE;
    }
    if bytes_eq(q, f) {
        return 0;
    }
    if starts_with(f, q) {
        let num: u128 = (SCORE_ONE as u128) * (2 * (f.len() as u128) - (q.len() as u128));
        let den: u128 = 10 * (f.len() as u128);
        let v = num / den;
        proof {
            vstd::arithmetic::div_mod::lemma_fundamental_div_mod(num as int, den as int);
            assert(num < 2 * (SCORE_ONE as int) * f@.len()) by (nonlinear_arith)
                requires
                    num == (SCORE_ONE as int) * (2 * f@.len() - q@.len()),
                    q@.len() >= 1,
            ;
            assert((num / den) * den <= num) by (nonlinear_arith)
                requires
                    den > 0,
                    num >= 0,
            ;
            assert(v < DISTANCE_FLOOR) by (nonlinear_arith)
                requires
                    v * den <= num,
                    num < 2 * (SCORE_ONE as int) * f@.len(),
                    den == 10 * f@.len(),
                    f@.len() >= 1,
                    v >= 0,
            ;
        }
        return v as u64;
    }
    let delta = if f.len() > q.len() {
        f.len() - q.len()
    } else {
        q.len() - f.len()
    };
    if delta < DISTANCE_BAND {
        let d = edit_distance(q, f);
        proof {
            broadcast use vstd::slice::axiom_spec_len;

            lemma_edit_dist_le_sum(q@, f@);
            assert(q@.len() <= usize::MAX && f@.len() <= usize::MAX);
            assert((d as int) * (SCORE_ONE as int) <= (q@.len() + f@.len()) * (SCORE_ONE as int))
                by (nonlinear_arith)
                requires
                    0 <= d as int <= q@.len() + f@.len(),
            ;
            assert((q@.len() + f@.len()) * (SCORE_ONE as int) < u128::MAX) by (nonlinear_arith)
                requires
                    q@.len() <= usize::MAX && f@.len() <= usize::MAX,
            ;
        }
        let v = (d * (SCORE_ONE as u128)) / (f.len() as u128);
        if v < DISTANCE_FLOOR as u128 {
            DISTANCE_FLOOR
        } else if v > SCORE_ONE as u128 {
            SCORE_ONE
        } else {
            v as u64
        }
    } else {
        SCORE_ONE
    }
}

/// When every byte of `s` up to `i` differs from ';', and `s[i]` is ';' (or
/// `i` is the length), the first semicolon is at `i` (or absent).
proof fn lemma_first_semi_at(s: Seq<u8>, i: int)
    requires
        0 <= i <= s.len(),
        forall|j: int| 0 <= j < i ==> s[j] != 59u8,
        i < s.len() ==> s[i] == 59u8,
    ensures
        first_semi(s) == if i < s.len() {
            i
        } else {
            -1
        },
    decreases i,
{
    if s.len() == 0 {
    } else if i == 0 {
    } else {
        lemma_first_semi_at(s.skip(1), i - 1);
    }
}

/// Best field score, walking the candidate text one field at a time.
fn min_field_score(q: &[u8], s: &[u8]) -> (r: u64)
    requires
        q@.len() >= 1,
    ensures
        r as int == fields_min(q@, s@),
        r <= SCORE_ONE,
    decreases s@.len(),
{
    let mut i: usize = 0;
    while i < s.len() && s[i] != 59u8
        invariant
            i <= s@.len(),
            forall|j: int| 0 <= j < i ==> s@[j] != 59u8,
        decreases s@.len() - i,
    {
        i += 1;
    }
    proof {
        lemma_first_semi_at(s@, i as int);
    }
    if i == s.len() {
        score_field(q, s)
    } else {
        let head_slice = vstd::slice::slice_subrange(s, 0, i);
        let rest_slice = vstd::slice::slice_subrange(s, i + 1, s.len());
        proof {
            assert(head_slice@ =~= s@.take(i as int));
            assert(rest_slice@ =~= s@.skip(i + 1));
        }
        let head = score_field(q, head_slice);
        let rest = min_field_score(q, rest_slice);
        if head <= rest {
            head
        } else {
            rest
        }
    }
}

/// Similarity score of a candidate text against a query, both already
/// lowercased.  0.8 on an empty query, 1.0 on an empty candidate, else the
/// best score among the candidate's semicolon-separated fields.
pub fn search_score(query: &str, match_in: &str) -> (r: u64)
    ensures
        r as int == score_spec(query.spec_bytes(), match_in.spec_bytes()),
        r <= SCORE_ONE,
{
    let q = query.as_bytes();
    let s = match_in.as_bytes();
    if q.len() == 0 {
        return EMPTY_QUERY_SCORE;
    }
    if s.len() == 0 {
        return SCORE_ONE;
    }
    min_field_score(q, s)
}

/// The ranking key of one candidate: category tier first, then similarity,
/// then historical use, with the fractional part capped below the next
/// tier.
pub fn make_prio(prio: Priority, query: &str, match_in: &str) -> (key: u64)
    ensures
        key as int == ranking_key(
            prio.tier as int,
            prio.frac as int,
            score_spec(query.spec_bytes(), match_in.spec_bytes()),
        ),
        (prio.tier as int) * (SCORE_ONE as int) <= key as int,
        (key as int) < (prio.tier as int + 1) * (SCORE_ONE as int),
{
    let score = search_score(query, match_in);
    let fract = prio.frac as u64 / USAGE_SHIFT + score;
    let capped = if fract > KEY_FRACT_CAP {
        KEY_FRACT_CAP
    } else {
        fract
    };
    (prio.tier as u64) * SCORE_ONE + capped
}

/// A candidate that consists of exactly one field equal to the non-empty
/// query scores 0, the best possible value.
pub proof fn lemma_score_exact(q: Seq<u8>)
    requires
        q.len() > 0,
        forall|j: int| 0 <= j < q.len() ==> q[j] != 59u8,
    ensures
        score_spec(q, q) == 0,
{
    lemma_first_semi_at(q, q.len() as int);
}

/// Under an empty query every candidate scores the same weak default.
pub proof fn lemma_score_empty_query(s: Seq<u8>)
    ensures
        score_spec(Seq::<u8>::empty(), s) == EMPTY_QUERY_SCORE,
{
}

/// For a fixed field length, the normalized distance score never decreases
/// as the edit distance grows.
pub proof fn lemma_distance_score_monotone(d1: int, d2: int, flen: int)
    requires
        0 <= d1 <= d2,
        flen >= 1,
    ensures
        distance_score(d1, flen) <= distance_score(d2, flen),
{
    assert(d1 * SCORE_ONE <= d2 * SCORE_ONE) by (nonlinear_arith)
        requires
            0 <= d1 <= d2,
    ;
    vstd::arithmetic::div_mod::lemma_div_is_ordered(
        d1 * (SCORE_ONE as int),
        d2 * (SCORE_ONE as int),
        flen,
    );
}

/// Within the length band, a field at a larger edit distance from the query
/// never scores better than one of the same length at a smaller distance,
/// provided neither is an exact or prefix match.
pub proof fn lemma_field_score_monotone(q: Seq<u8>, f1: Seq<u8>, f2: Seq<u8>)
    requires
        f1.len() == f2.len(),
        f1.len() > 0,
        f1 != q && !is_prefix_of(q, f1),
        f2 != q && !is_prefix_of(q, f2),
        -(DISTANCE_BAND as int) < f1.len() - q.len() < DISTANCE_BAND as int,
        edit_dist(q, f1) <= edit_dist(q, f2),
    ensures
        field_score(q, f1) <= field_score(q, f2),
{
    lemma_edit_dist_le_sum(q, f1);
    lemma_edit_dist_le_sum(q, f2);
    lemma_distance_score_monotone(edit_dist(q, f1), edit_dist(q, f2), f1.len() as int);
}

} // verus!
