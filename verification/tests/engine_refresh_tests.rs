use std::sync::Arc;

use sherlock::children::{AppData, MprisData, MprisState, RenderableChild, RefreshPayload};
use sherlock::engine::QueryEngine;
use sherlock::launcher::{AppLauncher, HomeType, Launcher, LauncherType};
use sherlock::mode::LauncherMode;
use sherlock::refresh::{apply_refresh_batch, async_eligible_indices, GenerationCounter};
use sherlock::scorer::Priority;
use sherlock::weather::{WeatherClass, WeatherData};

fn launcher(tier: u32, refreshes_async: bool) -> Arc<Launcher> {
    Arc::new(Launcher {
        name: None,
        display_name: None,
        icon: None,
        alias: None,
        priority: tier,
        refreshes_async,
        home: HomeType::Default,
        launcher_type: LauncherType::App(AppLauncher { use_keywords: true }),
    })
}

fn app(search: &str, tier: u32) -> RenderableChild {
    RenderableChild::AppLike {
        launcher: launcher(tier, false),
        inner: AppData {
            name: None,
            search_string: search.to_string(),
            exec_cmd: None,
            icon: None,
            terminal: false,
            priority: Priority::new(tier, 0),
        },
    }
}

fn weather(temperature: &str) -> WeatherData {
    WeatherData {
        temperature: temperature.to_string(),
        icon: None,
        format_str: String::new(),
        location: "here".to_string(),
        css: WeatherClass::Clear,
        sunset_minutes: 18 * 60,
        init: true,
    }
}

fn weather_item(temperature: &str) -> RenderableChild {
    RenderableChild::WeatherLike { launcher: launcher(1, true), inner: weather(temperature) }
}

fn pool_temperature(pool: &[RenderableChild]) -> String {
    match &pool[0] {
        RenderableChild::WeatherLike { inner, .. } => inner.temperature.clone(),
        _ => panic!("expected a weather item"),
    }
}

#[test]
fn stale_refresh_batch_leaves_the_pool_untouched() {
    let mut counter = GenerationCounter::new();
    let mut pool = vec![weather_item("3°C")];

    // a batch is spawned at generation G
    let token = counter.begin_session();
    let updates = vec![(0usize, weather_item("21°C"))];

    // a newer session begins before the batch lands
    let _newer = counter.begin_session();

    let applied = apply_refresh_batch(&counter, token, &mut pool, updates);
    assert!(!applied);
    assert_eq!(pool_temperature(&pool), "3°C");
}

#[test]
fn current_refresh_batch_is_spliced_in() {
    let mut counter = GenerationCounter::new();
    let mut pool = vec![weather_item("3°C"), app("firefox", 2)];

    let token = counter.begin_session();
    let updates = vec![(0usize, weather_item("21°C"))];

    let applied = apply_refresh_batch(&counter, token, &mut pool, updates);
    assert!(applied);
    assert_eq!(pool_temperature(&pool), "21°C");
    assert_eq!(pool.len(), 2);
}

#[test]
fn only_async_items_are_fanned_out() {
    let pool = vec![app("firefox", 2), weather_item("3°C"), app("files", 1)];
    assert_eq!(async_eligible_indices(&pool), vec![1]);
}

#[test]
fn weather_merge_applies_only_reported_changes() {
    let item = weather_item("3°C");
    let unchanged = item.merge_refresh(RefreshPayload::Weather(weather("3°C"), false));
    assert!(unchanged.is_none());

    let item = weather_item("3°C");
    let changed = item.merge_refresh(RefreshPayload::Weather(weather("21°C"), true));
    match changed {
        Some(RenderableChild::WeatherLike { inner, .. }) => assert_eq!(inner.temperature, "21°C"),
        _ => panic!("expected a replaced weather item"),
    }
}

#[test]
fn music_merge_is_deduplicated_by_title() {
    let track = |title: &str| MprisData {
        title: Some(title.to_string()),
        artists: vec![],
        art_url: None,
    };
    let item = RenderableChild::MusicLike {
        launcher: launcher(1, true),
        inner: MprisState { raw: Some(track("song a")) },
    };
    // same title: no update
    assert!(item.merge_refresh(RefreshPayload::Music(Some(track("song a")))).is_none());

    let item = RenderableChild::MusicLike {
        launcher: launcher(1, true),
        inner: MprisState { raw: Some(track("song a")) },
    };
    let merged = item.merge_refresh(RefreshPayload::Music(Some(track("song b"))));
    match merged {
        Some(RenderableChild::MusicLike { inner, .. }) => {
            assert_eq!(inner.raw.unwrap().title.unwrap(), "song b");
        }
        _ => panic!("expected a replaced music item"),
    }
}

#[test]
fn engine_skips_a_repeated_query_and_reranks_a_new_one() {
    let pool = vec![app("firefox", 2), app("files", 1)];
    let mut engine = QueryEngine::new(vec![]);

    assert!(engine.run_query(&pool, "fire".to_string()));
    assert_eq!(engine.results, vec![0]);

    // the same query again is answered from the committed state
    assert!(!engine.run_query(&pool, "fire".to_string()));
    assert_eq!(engine.results, vec![0]);

    assert!(engine.run_query(&pool, "files".to_string()));
    assert_eq!(engine.results, vec![1]);
}

#[test]
fn engine_alias_switch_clears_the_query() {
    let pool = vec![app("firefox", 2)];
    let modes = vec![LauncherMode::Alias {
        short: "bm".to_string(),
        name: "Bookmarks".to_string(),
    }];
    let mut engine = QueryEngine::new(modes);

    // the first keystroke only moves home into search
    assert!(engine.run_query(&pool, "b".to_string()));
    assert!(matches!(engine.mode, LauncherMode::Search));

    // the alias code with its trailing space switches the mode and
    // clears the committed query
    assert!(engine.run_query(&pool, "bm ".to_string()));
    assert!(matches!(engine.mode, LauncherMode::Alias { .. }));
    assert_eq!(engine.last_query.as_deref(), Some(""));
}

#[test]
fn invalidation_forces_a_rerun_of_the_same_query() {
    let pool = vec![app("firefox", 2)];
    let mut engine = QueryEngine::new(vec![]);
    assert!(engine.run_query(&pool, "fire".to_string()));
    assert!(!engine.run_query(&pool, "fire".to_string()));
    engine.invalidate();
    assert!(engine.run_query(&pool, "fire".to_string()));
    assert_eq!(engine.results, vec![0]);
}
