use std::sync::Arc;

use sherlock::calc::{trim_ascii, CalcData, Capabilities};
use sherlock::children::RenderableChild;
use sherlock::launcher::{ExecMode, HomeType, Launcher, LauncherType, CalculatorLauncher};

fn math_calc() -> CalcData {
    CalcData::new(Capabilities { math: true, units: false })
}

#[test]
fn an_expression_that_evaluates_to_something_new_shows() {
    assert!(math_calc().based_show("2+2"));
    assert!(math_calc().based_show("  3 * (1 + 1) "));
}

#[test]
fn a_plain_number_evaluates_to_itself_and_hides() {
    assert!(!math_calc().based_show("4"));
}

#[test]
fn whitespace_only_and_unparsable_queries_hide() {
    assert!(!math_calc().based_show(""));
    assert!(!math_calc().based_show("   "));
    assert!(!math_calc().based_show("firefox"));
}

#[test]
fn disabled_mathematics_hides_everything() {
    let calc = CalcData::new(Capabilities { math: false, units: false });
    assert!(!calc.based_show("2+2"));
}

#[test]
fn the_remembered_result_is_the_evaluated_text() {
    let mut calc = math_calc();
    calc.refresh("2+2");
    assert_eq!(calc.result.as_deref(), Some("4"));
    calc.refresh("firefox");
    assert!(calc.result.is_none());
}

#[test]
fn activating_a_calc_item_copies_its_result() {
    let mut calc = math_calc();
    calc.refresh("10/4");
    let item = RenderableChild::CalcLike {
        launcher: Arc::new(Launcher {
            name: None,
            display_name: None,
            icon: None,
            alias: None,
            priority: 1,
            refreshes_async: false,
            home: HomeType::Default,
            launcher_type: LauncherType::Calc(CalculatorLauncher {}),
        }),
        inner: calc,
    };
    match item.build_exec() {
        Some(ExecMode::Copy { content }) => assert_eq!(content, "2.5"),
        _ => panic!("expected a copy action"),
    }
}

#[test]
fn trimming_strips_ascii_whitespace_from_both_ends() {
    assert_eq!(trim_ascii("  2+2\t\n"), "2+2");
    assert_eq!(trim_ascii("inner space s"), "inner space s");
    assert_eq!(trim_ascii(" \t "), "");
}
