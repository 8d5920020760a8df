//! Bounded-gap approximate substring matcher.
//!
//! A pattern matches a target when some occurrence of the pattern's first
//! byte in the target anchors a walk in which every following pattern byte
//! is found within a fixed-size window after the current cursor; the cursor
//! advances past each byte it finds.  Both inputs are expected to be
//! lowercased by the caller.

use vstd::prelude::*;
use vstd::string::StringSliceAdditionalSpecFns;

verus! {

/// How far past the cursor the walk may look for the next pattern byte.
pub const MATCH_WINDOW: usize = 5;

/// First index of `b` in `t` within `[c, limit)`, or -1 when absent.
pub open spec fn find_from(t: Seq<u8>, c: int, limit: int, b: u8) -> int
    decreases limit - c,
{
    if c < 0 || c >= limit || c >= t.len() {
        -1
    } else if t[c] == b {
        c
    } else {
        find_from(t, c + 1, limit, b)
    }
}

/// The greedy walk: each pattern byte from `pi` on must be the first
/// occurrence of itself within `w` bytes of the cursor, which then moves
/// just past it.
pub open spec fn walk(p: Seq<u8>, pi: int, t: Seq<u8>, cursor: int, w: int) -> bool
    decreases p.len() - pi,
{
    if pi >= p.len() {
        true
    } else {
        let k = find_from(t, cursor, cursor + w, p[pi]);
        k >= 0 && walk(p, pi + 1, t, k + 1, w)
    }
}

/// The walk over a whole target suffix, with the anchor already matched at
/// position 0.
pub open spec fn sequential_check_spec(p: Seq<u8>, t: Seq<u8>, w: int) -> bool {
    walk(p, 1, t, 1, w)
}

/// A pattern matches when it is empty, or when some occurrence of its first
/// byte anchors a successful walk over the rest.
pub open spec fn fuzzy_matches(t: Seq<u8>, p: Seq<u8>) -> bool {
    if p.len() == 0 {
        true
    } else if t.len() == 0 {
        false
    } else {
        exists|a: int|
            0 <= a < t.len() && t[a] == p[0] && sequential_check_spec(
                p,
                t.subrange(a, t.len() as int),
                MATCH_WINDOW as int,
            )
    }
}

/// Relies on memchr::memchr: index of the first occurrence of `needle` in
/// `haystack`, or `None` when the byte does not occur.
#[verifier::external_body]
fn find_first_byte(needle: u8, haystack: &[u8]) -> (r: Option<usize>)
    ensures
        match r {
            Some(i) => i < haystack@.len() && haystack@[i as int] == needle && forall|j: int|
                0 <= j < i ==> haystack@[j] != needle,
            None => forall|j: int| 0 <= j < haystack@.len() ==> haystack@[j] != needle,
        },
{
    memchr::memchr(needle, haystack)
}

/// Walks the target from position 1, taking each pattern byte at its first
/// occurrence inside the window and advancing the cursor past it.
pub fn sequential_check(pattern: &[u8], target: &[u8], window_size: usize) -> (r: bool)
    requires
        pattern@.len() >= 1,
    ensures
        r == sequential_check_spec(pattern@, target@, window_size as int),
{
    let mut t_idx: usize = 1;
    let mut p_idx: usize = 1;

    while p_idx < pattern.len()
        invariant
            1 <= p_idx <= pattern@.len(),
            1 <= t_idx,
            sequential_check_spec(pattern@, target@, window_size as int) == walk(
                pattern@,
                p_idx as int,
                target@,
                t_idx as int,
                window_size as int,
            ),
        decreases pattern@.len() - p_idx,
    {
        let pattern_char = pattern[p_idx];
        let limit = if t_idx > target.len() - window_size.min(target.len()) {
            target.len()
        } else {
            t_idx + window_size
        };
        let mut found = false;

        let ghost w_limit = t_idx + window_size as int;
        let ghost start = t_idx as int;
        assert(limit == if w_limit <= target@.len() {
            w_limit
        } else {
            target@.len() as int
        });
        while t_idx < limit && !found
            invariant
                start <= t_idx,
                t_idx <= limit || t_idx == start,
                limit == if w_limit <= target@.len() { w_limit } else { target@.len() as int },
                w_limit == start + window_size,
                !found ==> find_from(target@, start, w_limit, pattern_char) == find_from(
                    target@,
                    t_idx as int,
                    w_limit,
                    pattern_char,
                ),
                found ==> t_idx >= 1 && t_idx <= limit && find_from(
                    target@,
                    start,
                    w_limit,
                    pattern_char,
                ) == t_idx - 1,
            decreases limit - t_idx, if found { 0int } else { 1int },
        {
            if target[t_idx] == pattern_char {
                found = true;
            }
            t_idx += 1;
        }

        if !found {
            assert(find_from(target@, start, w_limit, pattern_char) == -1);
            return false;
        }
        p_idx += 1;
    }
    true
}

/// Tries every occurrence of the pattern's first byte as an anchor, left to
/// right, and succeeds at the first anchor whose walk consumes the whole
/// pattern.
pub fn fuzzy_match_bytes(target: &[u8], pattern: &[u8]) -> (r: bool)
    ensures
        r == fuzzy_matches(target@, pattern@),
{
    if pattern.len() == 0 {
        return true;
    }
    if target.len() == 0 {
        return false;
    }

    let p0 = pattern[0];
    let mut off: usize = 0;

    loop
        invariant
            off <= target@.len(),
            pattern@.len() >= 1,
            p0 == pattern@[0],
            forall|a: int|
                0 <= a < off ==> !(target@[a] == pattern@[0] && sequential_check_spec(
                    pattern@,
                    target@.subrange(a, target@.len() as int),
                    MATCH_WINDOW as int,
                )),
        decreases target@.len() - off,
    {
        let rest = vstd::slice::slice_subrange(target, off, target.len());
        match find_first_byte(p0, rest) {
            Some(pos) => {
                let anchor = off + pos;
                let suffix = vstd::slice::slice_subrange(target, anchor, target.len());
                if sequential_check(pattern, suffix, MATCH_WINDOW) {
                    return true;
                }
                assert forall|a: int| 0 <= a < anchor + 1 implies !(target@[a] == pattern@[0]
                    && sequential_check_spec(
                    pattern@,
                    target@.subrange(a, target@.len() as int),
                    MATCH_WINDOW as int,
                )) by {
                    if off <= a < anchor {
                        assert(rest@[a - off] != p0);
                        assert(target@[a] != pattern@[0]);
                    }
                }
                if anchor + 1 >= target.len() {
                    return false;
                }
                off = anchor + 1;
            },
            None => {
                assert forall|a: int| 0 <= a < target@.len() implies !(target@[a] == pattern@[0]
                    && sequential_check_spec(
                    pattern@,
                    target@.subrange(a, target@.len() as int),
                    MATCH_WINDOW as int,
                )) by {
                    if off <= a {
                        assert(rest@[a - off] != p0);
                    }
                }
                return false;
            },
        }
    }
}

/// Fuzzy matching of a lowercased pattern against a lowercased search text.
pub trait SherlockSearch {
    /// The bytes that the matcher walks.
    spec fn search_view(&self) -> Seq<u8>;

    /// Both self and the pattern should already be lowercased.
    fn fuzzy_match(&self, pattern: &str) -> (r: bool)
        ensures
            r == fuzzy_matches(self.search_view(), pattern.spec_bytes()),
    ;
}

impl SherlockSearch for str {
    open spec fn search_view(&self) -> Seq<u8> {
        self.spec_bytes()
    }

    fn fuzzy_match(&self, pattern: &str) -> (r: bool) {
        fuzzy_match_bytes(self.as_bytes(), pattern.as_bytes())
    }
}

impl SherlockSearch for String {
    open spec fn search_view(&self) -> Seq<u8> {
        vstd::utf8::encode_utf8(self@)
    }

    fn fuzzy_match(&self, pattern: &str) -> (r: bool) {
        fuzzy_match_bytes(self.as_str().as_bytes(), pattern.as_bytes())
    }
}

/// A walk always succeeds on a target that continues the pattern
/// contiguously at the cursor.
proof fn lemma_walk_contiguous(p: Seq<u8>, pi: int, t: Seq<u8>, w: int)
    requires
        1 <= pi <= p.len(),
        p.len() <= t.len(),
        w >= 1,
        forall|j: int| pi <= j < p.len() ==> t[j] == p[j],
    ensures
        walk(p, pi, t, pi, w),
    decreases p.len() - pi,
{
    if pi < p.len() {
        assert(find_from(t, pi, pi + w, p[pi]) == pi);
        lemma_walk_contiguous(p, pi + 1, t, w);
    }
}

/// A target that contains the pattern as a contiguous substring matches it.
pub proof fn lemma_substring_matches(t: Seq<u8>, p: Seq<u8>, a: int)
    requires
        0 <= a,
        a + p.len() <= t.len(),
        p.len() > 0,
        forall|j: int| 0 <= j < p.len() ==> t[a + j] == p[j],
    ensures
        fuzzy_matches(t, p),
{
    let suffix = t.subrange(a, t.len() as int);
    assert(t[a] == p[0]);
    if p.len() > 1 {
        lemma_walk_contiguous(p, 1, suffix, MATCH_WINDOW as int);
    }
    assert(sequential_check_spec(p, suffix, MATCH_WINDOW as int));
}

} // verus!

