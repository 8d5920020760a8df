use std::sync::Arc;

use sherlock::calc::Capabilities;
use sherlock::children::{AppData, RenderableChild};
use sherlock::launcher::{
    AppLauncher, CalculatorLauncher, EventLauncher, HomeType, Launcher, LauncherType,
    MusicPlayerLauncher, WeatherLauncher, WeatherIconTheme,
};
use sherlock::scorer::Priority;
use sherlock::weather::{WeatherClass, WeatherData};

fn launcher_of(kind: LauncherType) -> Arc<Launcher> {
    Arc::new(Launcher {
        name: Some("category".to_string()),
        display_name: None,
        icon: None,
        alias: None,
        priority: 1,
        refreshes_async: false,
        home: HomeType::Default,
        launcher_type: kind,
    })
}

fn entry(name: &str) -> AppData {
    AppData {
        name: Some(name.to_string()),
        search_string: name.to_lowercase(),
        exec_cmd: Some(name.to_lowercase()),
        icon: None,
        terminal: false,
        priority: Priority::new(1, 0),
    }
}

#[test]
fn app_categories_wrap_every_loaded_entry() {
    let launcher = launcher_of(LauncherType::App(AppLauncher { use_keywords: true }));
    let kind = LauncherType::App(AppLauncher { use_keywords: true });
    let loaded = vec![entry("Firefox"), entry("Files")];
    let caps = Capabilities { math: false, units: false };
    let children = kind.get_render_obj(launcher, loaded, caps, None).unwrap();
    assert_eq!(children.len(), 2);
    match &children[0] {
        RenderableChild::AppLike { inner, .. } => {
            assert_eq!(inner.name.as_deref(), Some("Firefox"))
        }
        _ => panic!("expected an app item"),
    }
}

#[test]
fn calculator_and_media_categories_contribute_one_item() {
    let caps = Capabilities { math: true, units: false };
    let kind = LauncherType::Calc(CalculatorLauncher {});
    let children = kind
        .get_render_obj(launcher_of(LauncherType::Calc(CalculatorLauncher {})), vec![], caps, None)
        .unwrap();
    assert_eq!(children.len(), 1);
    assert!(matches!(children[0], RenderableChild::CalcLike { .. }));

    let kind = LauncherType::MusicPlayer(MusicPlayerLauncher {});
    let children = kind
        .get_render_obj(
            launcher_of(LauncherType::MusicPlayer(MusicPlayerLauncher {})),
            vec![],
            caps,
            None,
        )
        .unwrap();
    assert_eq!(children.len(), 1);
    match &children[0] {
        RenderableChild::MusicLike { inner, .. } => assert!(inner.raw.is_none()),
        _ => panic!("expected a music item"),
    }
}

#[test]
fn weather_category_uses_the_cached_snapshot_when_one_exists() {
    let wttr = WeatherLauncher {
        location: "berlin".to_string(),
        update_interval: 60,
        icon_theme: WeatherIconTheme::Sherlock,
        show_datetime: false,
    };
    let cached = WeatherData::from_fetch(
        "Berlin", "berlin", "21", false, "113", None, 90, "14", false, 18 * 60,
    );
    let kind = LauncherType::Weather(wttr);
    let children = kind
        .get_render_obj(
            launcher_of(LauncherType::Empty),
            vec![],
            Capabilities { math: false, units: false },
            Some(cached),
        )
        .unwrap();
    match &children[0] {
        RenderableChild::WeatherLike { inner, .. } => {
            assert_eq!(inner.temperature, "21\u{b0}C");
            assert!(matches!(inner.css, WeatherClass::Clear));
            assert_eq!(inner.format_str, "Berlin  \u{2192} 14km/h");
            assert!(inner.init);
        }
        _ => panic!("expected a weather item"),
    }
}

#[test]
fn kinds_without_children_contribute_none() {
    let kind = LauncherType::Event(EventLauncher {});
    assert!(kind
        .get_render_obj(
            launcher_of(LauncherType::Empty),
            vec![],
            Capabilities { math: false, units: false },
            None,
        )
        .is_none());
}

#[test]
fn fetched_fields_assemble_the_snapshot() {
    let data = WeatherData::from_fetch(
        "Berlin", "berlin", "70", true, "143", Some("mist-icon".to_string()), 200, "9", true, 1100,
    );
    assert_eq!(data.temperature, "70\u{b0}F");
    assert!(matches!(data.css, WeatherClass::Mist));
    // 200 degrees falls in the south sector
    assert_eq!(data.format_str, "Berlin  \u{2193} 9mph");
    assert_eq!(data.location, "berlin");
    assert_eq!(data.icon.as_deref(), Some("mist-icon"));
    assert_eq!(data.sunset_minutes, 1100);
}
