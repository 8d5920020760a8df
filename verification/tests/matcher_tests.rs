use sherlock::matcher::{fuzzy_match_bytes, sequential_check, SherlockSearch};

#[test]
fn empty_pattern_always_matches() {
    assert!(fuzzy_match_bytes(b"anything", b""));
    assert!(fuzzy_match_bytes(b"", b""));
}

#[test]
fn empty_target_never_matches_nonempty_pattern() {
    assert!(!fuzzy_match_bytes(b"", b"a"));
}

#[test]
fn contiguous_substring_matches() {
    assert!("hello world".fuzzy_match("o w"));
    assert!("firefox".fuzzy_match("fire"));
    assert!("firefox".fuzzy_match("firefox"));
}

#[test]
fn small_gaps_match() {
    // each gap is one character, well inside the window
    assert!("a1b1c".fuzzy_match("abc"));
}

#[test]
fn large_gaps_do_not_match() {
    // six characters between the letters, outside the five-byte window
    assert!(!"a......b......c".fuzzy_match("abc"));
}

#[test]
fn later_anchor_is_tried_after_a_failed_one() {
    // the first 'a' leads nowhere; the second anchors a match
    assert!("abxxxxxxabc".fuzzy_match("abc"));
}

#[test]
fn window_boundary_is_inclusive_of_the_fifth_byte() {
    // 'b' sits at the last position the window reaches
    assert!(sequential_check(b"ab", b"a1234b", 5));
    // one further and the chain breaks
    assert!(!sequential_check(b"ab", b"a12345b", 5));
}

#[test]
fn string_and_str_agree() {
    let s = String::from("music player");
    assert!(s.fuzzy_match("msc"));
    assert!(!s.fuzzy_match("zz"));
}
