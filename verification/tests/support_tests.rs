use std::sync::Arc;

use sherlock::audio::{identify_image_type, select_player};
use sherlock::children::{AppData, MprisData, RenderableChild};
use sherlock::currency::currency_code_from_symbol;
use sherlock::distance::edit_distance;
use sherlock::icons::{expand_home, CustomIconTheme, IconThemeGuard};
use sherlock::launcher::{
    AppLauncher, ApplicationAction, ExecMode, HomeType, Launcher, LauncherType,
};
use sherlock::scorer::Priority;
use sherlock::weather::{
    is_imperial_length_unit, wind_direction_index, WeatherClass, WeatherData,
};

#[test]
fn edit_distance_matches_known_values() {
    assert_eq!(edit_distance(b"kitten", b"sitting"), 3);
    assert_eq!(edit_distance(b"", b"abc"), 3);
    assert_eq!(edit_distance(b"abc", b"abc"), 0);
    assert_eq!(edit_distance(b"flaw", b"lawn"), 2);
}

#[test]
fn player_names_are_filtered_by_the_bus_prefix() {
    let names = vec![
        "org.freedesktop.DBus".to_string(),
        "org.mpris.MediaPlayer2.spotify".to_string(),
        "org.mpris.MediaPlayer2.vlc".to_string(),
    ];
    assert_eq!(select_player(&names, None).as_deref(), Some("org.mpris.MediaPlayer2.spotify"));
    let preferred = "vlc".to_string();
    assert_eq!(
        select_player(&names, Some(&preferred)).as_deref(),
        Some("org.mpris.MediaPlayer2.vlc")
    );
    let missing = "mpd".to_string();
    assert_eq!(
        select_player(&names, Some(&missing)).as_deref(),
        Some("org.mpris.MediaPlayer2.spotify")
    );
    assert_eq!(select_player(&vec!["org.freedesktop.DBus".to_string()], None), None);
}

#[test]
fn image_types_are_identified_by_magic_bytes() {
    assert_eq!(identify_image_type(&[0x89, 0x50, 0x4E, 0x47, 0, 0]), "image/png");
    assert_eq!(identify_image_type(&[0xFF, 0xD8, 0xFF, 0xE0]), "image/jpeg");
    assert_eq!(identify_image_type(&[0x47, 0x49, 0x46, 0x38, 0x39]), "image/gif");
    assert_eq!(identify_image_type(&[0x42, 0x4D, 0x01, 0x02]), "image/bmp");
    assert_eq!(
        identify_image_type(&[0x52, 0x49, 0x46, 0x46, 0, 0, 0, 0, 0x57, 0x45, 0x42, 0x50]),
        "image/webp"
    );
    // a RIFF header too short to carry a WEBP tag falls back to the default
    assert_eq!(identify_image_type(&[0x52, 0x49, 0x46, 0x46, 0, 0]), "image/png");
    assert_eq!(identify_image_type(&[1, 2]), "image/png");
}

#[test]
fn weather_codes_map_to_display_classes() {
    assert!(matches!(WeatherData::match_weather_code("113"), WeatherClass::Clear));
    assert!(matches!(WeatherData::match_weather_code("122"), WeatherClass::ManyClouds));
    assert!(matches!(WeatherData::match_weather_code("395"), WeatherClass::SnowScatteredStorm));
    assert!(matches!(WeatherData::match_weather_code("999"), WeatherClass::NoneAvailable));
    assert_eq!(WeatherClass::FewClouds.class_name(), "few-clouds");
    assert_eq!(WeatherClass::NoneAvailable.class_name(), "none-available");
}

#[test]
fn wind_directions_fall_into_eight_sectors() {
    assert_eq!(wind_direction_index(0), 0);
    assert_eq!(wind_direction_index(22), 0);
    assert_eq!(wind_direction_index(23), 1);
    assert_eq!(wind_direction_index(90), 2);
    assert_eq!(wind_direction_index(350), 0);
}

#[test]
fn imperial_units_call_for_miles() {
    assert!(is_imperial_length_unit("miles"));
    assert!(is_imperial_length_unit("in"));
    assert!(!is_imperial_length_unit("km"));
    assert!(!is_imperial_length_unit("meters"));
}

#[test]
fn icon_cache_keeps_the_first_resolution() {
    let mut theme = CustomIconTheme::new();
    theme.add_path(vec![
        ("firefox".to_string(), "/icons/a.png".to_string()),
        ("firefox".to_string(), "/icons/b.png".to_string()),
        ("files".to_string(), "/icons/files.svg".to_string()),
    ]);
    assert_eq!(theme.lookup_icon("firefox"), Some(Some("/icons/a.png".to_string())));
    assert_eq!(theme.lookup_icon("files"), Some(Some("/icons/files.svg".to_string())));
    assert_eq!(theme.lookup_icon("unknown"), None);
}

#[test]
fn icon_guard_remembers_resolutions() {
    let mut guard = IconThemeGuard::new();
    assert_eq!(guard.lookup_icon("firefox"), None);
    guard.add_path(vec![("firefox".to_string(), "/icons/a.png".to_string())]);
    assert_eq!(guard.lookup_icon("firefox"), Some(Some("/icons/a.png".to_string())));
}

#[test]
fn home_prefix_is_expanded() {
    assert_eq!(expand_home("~/icons", "/home/me"), "/home/me/icons");
    assert_eq!(expand_home("/usr/share/icons", "/home/me"), "/usr/share/icons");
    assert_eq!(expand_home("~", "/home/me"), "~");
}

#[test]
fn app_actions_become_commands() {
    let launcher = Arc::new(Launcher {
        name: None,
        display_name: None,
        icon: None,
        alias: None,
        priority: 1,
        refreshes_async: false,
        home: HomeType::Default,
        launcher_type: LauncherType::App(AppLauncher { use_keywords: true }),
    });
    let action = ApplicationAction {
        method: "command".to_string(),
        exec_cmd: Some("xdg-open .".to_string()),
    };
    match ExecMode::from_app_action(&action, &launcher) {
        ExecMode::Commmand { exec_cmd } => assert_eq!(exec_cmd, "xdg-open ."),
        _ => panic!("expected a command action"),
    }
    let other = ApplicationAction { method: "copy".to_string(), exec_cmd: None };
    assert!(matches!(ExecMode::from_app_action(&other, &launcher), ExecMode::NoAction));
}

#[test]
fn app_items_describe_their_own_command() {
    let launcher = Arc::new(Launcher {
        name: None,
        display_name: None,
        icon: None,
        alias: None,
        priority: 2,
        refreshes_async: false,
        home: HomeType::Default,
        launcher_type: LauncherType::App(AppLauncher { use_keywords: true }),
    });
    let item = RenderableChild::AppLike {
        launcher,
        inner: AppData {
            name: Some("Firefox".to_string()),
            search_string: "firefox".to_string(),
            exec_cmd: Some("firefox".to_string()),
            icon: None,
            terminal: false,
            priority: Priority::new(2, 0),
        },
    };
    assert_eq!(item.get_exec().as_deref(), Some("firefox"));
    match item.build_exec() {
        Some(ExecMode::App { exec_cmd, terminal }) => {
            assert_eq!(exec_cmd, "firefox");
            assert!(!terminal);
        }
        _ => panic!("expected an app action"),
    }
}

#[test]
fn media_updates_are_flagged_by_title_changes() {
    let current = MprisData {
        title: Some("song a".to_string()),
        artists: vec!["someone".to_string()],
        art_url: None,
    };
    let fetched = MprisData { title: Some("song b".to_string()), artists: vec![], art_url: None };
    match current.update(Some(fetched)) {
        Some((m, changed)) => {
            assert!(changed);
            assert_eq!(m.title.as_deref(), Some("song b"));
        }
        None => panic!("expected an update"),
    }
    let same = MprisData { title: Some("song a".to_string()), artists: vec![], art_url: None };
    match current.update(Some(same)) {
        Some((_, changed)) => assert!(!changed),
        None => panic!("expected an update"),
    }
    assert!(current.update(None).is_none());
}

#[test]
fn quote_symbols_yield_their_base_currency() {
    assert_eq!(currency_code_from_symbol("FX_IDC:EURUSD").as_deref(), Some("eur"));
    assert_eq!(currency_code_from_symbol("FX_IDC:JPYUSD").as_deref(), Some("jpy"));
    assert_eq!(currency_code_from_symbol("no colon here"), None);
    assert_eq!(currency_code_from_symbol("X:ab"), None);
}
