use sherlock::mode::LauncherMode;

fn alias(short: &str, name: &str) -> LauncherMode {
    LauncherMode::Alias { short: short.to_string(), name: name.to_string() }
}

#[test]
fn home_with_text_enters_search() {
    let mut mode = LauncherMode::Home;
    let clear = mode.transition_for_query("x", &[]);
    assert!(!clear);
    assert!(matches!(mode, LauncherMode::Search));
}

#[test]
fn search_with_empty_query_returns_home() {
    let mut mode = LauncherMode::Search;
    let clear = mode.transition_for_query("", &[]);
    assert!(!clear);
    assert!(matches!(mode, LauncherMode::Home));
}

#[test]
fn alias_code_with_trailing_space_switches_mode_and_clears() {
    let modes = vec![alias("browser", "Browser")];
    let mut mode = LauncherMode::Search;
    let clear = mode.transition_for_query("browser ", &modes);
    assert!(clear);
    match mode {
        LauncherMode::Alias { short, name } => {
            assert_eq!(short, "browser");
            assert_eq!(name, "Browser");
        }
        _ => panic!("expected an alias mode"),
    }
}

#[test]
fn alias_matching_ignores_ascii_case() {
    let modes = vec![alias("browser", "Browser")];
    let mut mode = LauncherMode::Search;
    assert!(mode.transition_for_query("BroWsEr ", &modes));
    assert!(matches!(mode, LauncherMode::Alias { .. }));
}

#[test]
fn unknown_code_or_missing_space_changes_nothing() {
    let modes = vec![alias("browser", "Browser")];
    let mut mode = LauncherMode::Search;
    assert!(!mode.transition_for_query("browser", &modes));
    assert!(matches!(mode, LauncherMode::Search));
    assert!(!mode.transition_for_query("files ", &modes));
    assert!(matches!(mode, LauncherMode::Search));
}

#[test]
fn home_with_empty_query_stays_home() {
    let mut mode = LauncherMode::Home;
    assert!(!mode.transition_for_query("", &[]));
    assert!(matches!(mode, LauncherMode::Home));
}

#[test]
fn lane_strings() {
    assert_eq!(LauncherMode::Home.as_str(), "all");
    assert_eq!(LauncherMode::Search.as_str(), "all");
    assert_eq!(alias("web", "Web").as_str(), "web");
    assert_eq!(LauncherMode::Home.display_str(), "All");
    assert_eq!(alias("web", "Web Search").display_str(), "Web Search");
}
