//! Launcher definitions: the immutable per-category descriptors that every
//! pool item references, and the action descriptors built for the
//! execution collaborator.

use vstd::prelude::*;
use vstd::string::StringSliceAdditionalSpecFns;
use std::sync::Arc;

use crate::mode::LauncherMode;

verus! {

/// Visibility rule of a category's items.
#[derive(Clone, Copy, PartialEq, Eq, Structural, Debug)]
pub enum HomeType {
    /// Shown when its mode matches, or globally for high-tier items.
    Default,
    /// Always shown, whatever the mode and query.
    Persist,
    /// Shown only in the home view.
    OnlyHome,
    /// Hidden in the home view.
    Search,
}

/// Static configuration of an application category.
pub struct AppLauncher {
    pub use_keywords: bool,
}

/// Static configuration of a bookmark category.
pub struct BookmarkLauncher {
    pub target_browser: String,
}

/// Static configuration of a calculator category.
pub struct CalculatorLauncher {}

/// Static configuration of a nested-category launcher.
pub struct CategoryLauncher {}

/// Static configuration of a command category.
pub struct CommandLauncher {}

/// Static configuration of an event category.
pub struct EventLauncher {}

/// Static configuration of a media-player category.
pub struct MusicPlayerLauncher {}

/// Static configuration of a clipboard-history category.
pub struct ClipboardLauncher {}

/// Which icon set the weather tile uses.
#[derive(Clone, Copy, PartialEq, Eq, Structural, Debug)]
pub enum WeatherIconTheme {
    Sherlock,
    System,
}

/// Static configuration of a weather category.
pub struct WeatherLauncher {
    pub location: String,
    pub update_interval: u64,
    pub icon_theme: WeatherIconTheme,
    pub show_datetime: bool,
}

/// Static configuration of a web-search category.
pub struct WebLauncher {
    pub engine: String,
    pub browser: Option<String>,
}

/// The kind of a launcher and the variant-specific configuration of its
/// children.
pub enum LauncherType {
    App(AppLauncher),
    Bookmark(BookmarkLauncher),
    Calc(CalculatorLauncher),
    Category(CategoryLauncher),
    Command(CommandLauncher),
    Event(EventLauncher),
    MusicPlayer(MusicPlayerLauncher),
    Weather(WeatherLauncher),
    Web(WebLauncher),
    Clipboard(ClipboardLauncher),
    Empty,
}

/// Immutable, shared descriptor of one category: its name, its alias
/// (mode), its base priority tier, its visibility rule, and whether its
/// items refresh asynchronously.  Built once at load time and never
/// mutated.
pub struct Launcher {
    pub name: Option<String>,
    pub display_name: Option<String>,
    pub icon: Option<String>,
    pub alias: Option<String>,
    pub priority: u32,
    pub refreshes_async: bool,
    pub home: HomeType,
    pub launcher_type: LauncherType,
}

/// A context-menu action attached to an item.
pub struct ApplicationAction {
    pub method: String,
    pub exec_cmd: Option<String>,
}

/// An action descriptor handed to the execution collaborator; the core
/// builds it but never observes its outcome.
pub enum ExecMode {
    App { exec_cmd: String, terminal: bool },
    Commmand { exec_cmd: String },
    Category { category: LauncherMode },
    Web { engine: Option<String>, browser: Option<String>, exec_cmd: Option<String> },
    Copy { content: String },
    NoAction,
}

/// Relies on Arc::clone: the clone is a new handle on the same
/// allocation, so it carries the same descriptor.
#[verifier::external_body]
pub(crate) fn share_launcher(l: &Arc<Launcher>) -> (r: Arc<Launcher>)
    ensures
        r == *l,
{
    Arc::clone(l)
}

/// Option<String> equal by text.
pub open spec fn opt_str_eq(a: Option<String>, b: Option<String>) -> bool {
    match (a, b) {
        (Option::None, Option::None) => true,
        (Option::Some(x), Option::Some(y)) => x@ == y@,
        _ => false,
    }
}

fn clone_opt_string(s: &Option<String>) -> (r: Option<String>)
    ensures
        opt_str_eq(r, *s),
{
    match s {
        Option::Some(x) => Option::Some(x.clone()),
        Option::None => Option::None,
    }
}

impl ExecMode {
    /// Relation between an app-like item, its launcher and the action
    /// descriptor built from them.
    pub open spec fn describes(self, data: crate::children::AppData, launcher: Launcher) -> bool {
        match launcher.launcher_type {
            LauncherType::App(_) => self matches ExecMode::App { exec_cmd, terminal } && terminal
                == data.terminal && exec_cmd@ == match data.exec_cmd {
                Option::Some(e) => e@,
                Option::None => Seq::<char>::empty(),
            },
            LauncherType::Bookmark(bkm) => self matches ExecMode::Web { engine, browser, exec_cmd }
                && engine is None && (browser matches Option::Some(b) && b@ == bkm.target_browser@)
                && opt_str_eq(exec_cmd, data.exec_cmd),
            LauncherType::Category(_) => self matches ExecMode::Category { category } && (
            category matches LauncherMode::Alias { short, name } && short@ == (match data.exec_cmd {
                Option::Some(e) => e@,
                Option::None => Seq::<char>::empty(),
            }) && name@ == (match data.name {
                Option::Some(n) => n@,
                Option::None => Seq::<char>::empty(),
            })),
            LauncherType::Command(_) => self matches ExecMode::Commmand { exec_cmd } && exec_cmd@
                == match data.exec_cmd {
                Option::Some(e) => e@,
                Option::None => Seq::<char>::empty(),
            },
            LauncherType::Web(web) => self matches ExecMode::Web { engine, browser, exec_cmd }
                && (engine matches Option::Some(e) && e@ == web.engine@) && opt_str_eq(
                browser,
                web.browser,
            ) && opt_str_eq(exec_cmd, data.exec_cmd),
            _ => self is NoAction,
        }
    }

    /// Builds the action descriptor for an app-like item, from its data
    /// and its launcher's kind.  Restoring a clipboard entry is performed
    /// by the execution collaborator, so the clipboard arm carries no
    /// action.
    pub fn from_appdata(app_data: &crate::children::AppData, launcher: &Arc<Launcher>) -> (r:
        ExecMode)
        ensures
            r.describes(*app_data, **launcher),
    {
        match &launcher.launcher_type {
            LauncherType::App(_) => ExecMode::App {
                exec_cmd: match &app_data.exec_cmd {
                    Option::Some(e) => e.clone(),
                    Option::None => String::new(),
                },
                terminal: app_data.terminal,
            },
            LauncherType::Bookmark(bkm) => ExecMode::Web {
                engine: Option::None,
                browser: Option::Some(bkm.target_browser.clone()),
                exec_cmd: clone_opt_string(&app_data.exec_cmd),
            },
            LauncherType::Category(_) => ExecMode::Category {
                category: LauncherMode::Alias {
                    short: match &app_data.exec_cmd {
                        Option::Some(e) => e.clone(),
                        Option::None => String::new(),
                    },
                    name: match &app_data.name {
                        Option::Some(n) => n.clone(),
                        Option::None => String::new(),
                    },
                },
            },
            LauncherType::Command(_) => ExecMode::Commmand {
                exec_cmd: match &app_data.exec_cmd {
                    Option::Some(e) => e.clone(),
                    Option::None => String::new(),
                },
            },
            LauncherType::Web(web) => ExecMode::Web {
                engine: Option::Some(web.engine.clone()),
                browser: clone_opt_string(&web.browser),
                exec_cmd: clone_opt_string(&app_data.exec_cmd),
            },
            _ => ExecMode::NoAction,
        }
    }

    /// Builds the action descriptor of a context-menu action: only
    /// app-launcher and command methods carry one.
    pub fn from_app_action(action: &ApplicationAction, _launcher: &Arc<Launcher>) -> (r: ExecMode)
        ensures
            ({
                let is_cmd = action.method@ == "app_launcher"@ || action.method@ == "command"@;
                &&& is_cmd ==> (r matches ExecMode::Commmand { exec_cmd } && exec_cmd@ == (
                match action.exec_cmd {
                    Option::Some(e) => e@,
                    Option::None => Seq::<char>::empty(),
                }))
                &&& !is_cmd ==> r is NoAction
            }),
    {
        let is_cmd = str_text_eq(action.method.as_str(), "app_launcher") || str_text_eq(
            action.method.as_str(),
            "command",
        );
        if is_cmd {
            ExecMode::Commmand {
                exec_cmd: match &action.exec_cmd {
                    Option::Some(e) => e.clone(),
                    Option::None => String::new(),
                },
            }
        } else {
            ExecMode::NoAction
        }
    }
}

/// Two strings hold the same text.
pub fn str_text_eq(a: &str, b: &str) -> (r: bool)
    ensures
        r == (a@ == b@),
{
    let ab = a.as_bytes();
    let bb = b.as_bytes();
    if ab.len() != bb.len() {
        proof {
            vstd::utf8::encode_utf8_decode_utf8(a@);
            vstd::utf8::encode_utf8_decode_utf8(b@);
        }
        return false;
    }
    let mut i: usize = 0;
    while i < ab.len()
        invariant
            i <= ab@.len(),
            ab@.len() == bb@.len(),
            ab@ == a.spec_bytes(),
            bb@ == b.spec_bytes(),
            forall|j: int| 0 <= j < i ==> ab@[j] == bb@[j],
        decreases ab@.len() - i,
    {
        if ab[i] != bb[i] {
            proof {
                vstd::utf8::encode_utf8_decode_utf8(a@);
                vstd::utf8::encode_utf8_decode_utf8(b@);
            }
            return false;
        }
        i += 1;
    }
    proof {
        assert(ab@ =~= bb@);
        vstd::utf8::encode_utf8_decode_utf8(a@);
        vstd::utf8::encode_utf8_decode_utf8(b@);
    }
    true
}

} // verus!
