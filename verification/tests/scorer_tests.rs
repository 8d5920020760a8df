use sherlock::scorer::{make_prio, search_score, Priority, EMPTY_QUERY_SCORE, SCORE_ONE};

#[test]
fn exact_match_scores_zero() {
    assert_eq!(search_score("fire", "fire"), 0);
}

#[test]
fn empty_query_scores_the_home_default() {
    assert_eq!(search_score("", "anything"), EMPTY_QUERY_SCORE);
    assert_eq!(search_score("", ""), EMPTY_QUERY_SCORE);
}

#[test]
fn empty_candidate_scores_worst() {
    assert_eq!(search_score("fire", ""), SCORE_ONE);
}

#[test]
fn prefix_match_scores_by_coverage() {
    // 0.1 + 0.1 * (1 - 4/7), in fixed point: 1_000_000 * 10 / 70
    assert_eq!(search_score("fire", "firefox"), 142_857);
    // full coverage would be an exact match; one extra character is close to 0.1
    assert_eq!(search_score("firefo", "firefox"), 114_285);
}

#[test]
fn best_field_wins_and_empty_fields_are_skipped() {
    assert_eq!(search_score("fire", ";;zzz;fire;firefox"), 0);
    assert_eq!(search_score("fire", "zzz;firefox"), 142_857);
}

#[test]
fn near_miss_is_scored_by_edit_distance() {
    // "held" -> "hello" needs two edits; 2/5 normalized
    assert_eq!(search_score("held", "hello"), 400_000);
    // a one-edit miss on a four-letter field clamps at the floor of 0.2
    assert_eq!(search_score("fire", "fira"), 250_000);
}

#[test]
fn distant_lengths_contribute_nothing() {
    // length difference of four and no shared prefix: worst score
    assert_eq!(search_score("zzz", "qqqqqqq"), SCORE_ONE);
    assert_eq!(search_score("ab", "qqqqqq"), SCORE_ONE);
}

#[test]
fn ranking_key_combines_tier_usage_and_score() {
    // exact match: only the shifted usage fraction remains
    assert_eq!(make_prio(Priority::new(2, 340_000), "fire", "fire"), 2_003_400);
    // empty query: the 0.8 default plus the shifted fraction
    assert_eq!(make_prio(Priority::new(1, 0), "", "whatever"), 1_800_000);
}

#[test]
fn ranking_key_fraction_is_capped_below_the_next_tier() {
    // worst score plus a large usage fraction would exceed 0.99
    let key = make_prio(Priority::new(3, 999_999), "zz", "");
    assert_eq!(key, 3_990_000);
    assert!(key < 4_000_000);
}
