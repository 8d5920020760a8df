use std::sync::Arc;

use sherlock::calc::{CalcData, Capabilities};
use sherlock::children::{AppData, MprisState, RenderableChild};
use sherlock::launcher::{AppLauncher, HomeType, Launcher, LauncherType};
use sherlock::mode::LauncherMode;
use sherlock::pipeline::filter_and_rank;
use sherlock::scorer::Priority;

fn launcher(tier: u32, alias: Option<&str>, home: HomeType) -> Arc<Launcher> {
    Arc::new(Launcher {
        name: Some("category".to_string()),
        display_name: None,
        icon: None,
        alias: alias.map(|s| s.to_string()),
        priority: tier,
        refreshes_async: false,
        home,
        launcher_type: LauncherType::App(AppLauncher { use_keywords: true }),
    })
}

fn app(name: &str, search: &str, tier: u32, alias: Option<&str>, home: HomeType) -> RenderableChild {
    RenderableChild::AppLike {
        launcher: launcher(tier, alias, home),
        inner: AppData {
            name: Some(name.to_string()),
            search_string: search.to_string(),
            exec_cmd: None,
            icon: None,
            terminal: false,
            priority: Priority::new(tier, 0),
        },
    }
}

#[test]
fn end_to_end_prefix_match_wins_and_nonmatch_is_excluded() {
    let pool = vec![
        app("Firefox", "firefox", 2, None, HomeType::Default),
        app("Files", "files", 1, None, HomeType::Default),
    ];
    let r = filter_and_rank(&pool, &LauncherMode::Search, "fire");
    assert_eq!(r, vec![0]);
}

#[test]
fn lower_key_comes_first_and_ties_keep_pool_order() {
    let pool = vec![
        app("B", "same", 2, None, HomeType::Default),
        app("A", "same", 1, None, HomeType::Default),
        app("C", "same", 2, None, HomeType::Default),
    ];
    let r = filter_and_rank(&pool, &LauncherMode::Search, "same");
    // tier 1 outranks tier 2; the two tier-2 items keep pool order
    assert_eq!(r, vec![1, 0, 2]);
}

#[test]
fn usage_fraction_breaks_exact_score_ties() {
    let mut heavy_use = app("A", "same", 1, None, HomeType::Default);
    if let RenderableChild::AppLike { ref mut inner, .. } = heavy_use {
        inner.priority = Priority::new(1, 500_000);
    }
    let light_use = app("B", "same", 1, None, HomeType::Default);
    let pool = vec![heavy_use, light_use];
    let r = filter_and_rank(&pool, &LauncherMode::Search, "same");
    // a larger usage fraction means a larger key, so it ranks later
    assert_eq!(r, vec![1, 0]);
}

#[test]
fn persist_item_is_present_for_every_query() {
    let pool = vec![
        app("Web", "", 1, None, HomeType::Persist),
        app("Files", "files", 1, None, HomeType::Default),
    ];
    for q in ["", "files", "zzzzzz", "no such thing"] {
        let r = filter_and_rank(&pool, &LauncherMode::Search, q);
        assert!(r.contains(&0), "persist item missing for query {:?}", q);
    }
    // while an ordinary item with no match disappears
    let r = filter_and_rank(&pool, &LauncherMode::Search, "zzzzzz");
    assert!(!r.contains(&1));
}

#[test]
fn lane_gate_rejects_low_tier_items_of_other_lanes() {
    let pool = vec![
        app("Bookmark", "docs", 0, Some("bm"), HomeType::Default),
        app("Docs", "docs", 1, None, HomeType::Default),
    ];
    // in the default lane, the tier-0 aliased item is gated out
    let r = filter_and_rank(&pool, &LauncherMode::Search, "docs");
    assert_eq!(r, vec![1]);
    // in its own lane it shows
    let bm = LauncherMode::Alias { short: "bm".to_string(), name: "Bookmarks".to_string() };
    let r = filter_and_rank(&pool, &bm, "docs");
    assert!(r.contains(&0));
}

#[test]
fn home_rules_hide_search_only_and_only_home_items() {
    let pool = vec![
        app("OnlyHome", "thing", 1, None, HomeType::OnlyHome),
        app("SearchOnly", "thing", 1, None, HomeType::Search),
    ];
    // the home view: empty query, default lane
    let home = filter_and_rank(&pool, &LauncherMode::Home, "");
    assert!(home.contains(&0));
    assert!(!home.contains(&1));
    // a search view
    let search = filter_and_rank(&pool, &LauncherMode::Search, "thing");
    assert!(!search.contains(&0));
    assert!(search.contains(&1));
}

#[test]
fn rerunning_the_same_query_reproduces_the_same_order() {
    let pool = vec![
        app("B", "same", 2, None, HomeType::Default),
        app("A", "same", 1, None, HomeType::Default),
        app("C", "same", 2, None, HomeType::Default),
    ];
    let r1 = filter_and_rank(&pool, &LauncherMode::Search, "same");
    let r2 = filter_and_rank(&pool, &LauncherMode::Search, "same");
    assert_eq!(r1, r2);
}

#[test]
fn calc_item_shows_only_for_evaluable_queries() {
    let calc = RenderableChild::CalcLike {
        launcher: launcher(1, None, HomeType::Default),
        inner: CalcData::new(Capabilities { math: true, units: false }),
    };
    let pool = vec![calc];
    assert_eq!(filter_and_rank(&pool, &LauncherMode::Search, "2+2"), vec![0]);
    assert!(filter_and_rank(&pool, &LauncherMode::Search, "not math").is_empty());
}

#[test]
fn music_item_hides_itself_without_a_player_state() {
    let music = RenderableChild::MusicLike {
        launcher: launcher(1, None, HomeType::Default),
        inner: MprisState { raw: None },
    };
    let pool = vec![music];
    assert!(filter_and_rank(&pool, &LauncherMode::Home, "").is_empty());
}
