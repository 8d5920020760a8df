//! The item model: a closed set of pool item variants behind one
//! capability surface.
//!
//! Every item answers the same questions — its search text, its priority,
//! its visibility rule, its lane, whether it refreshes asynchronously, and
//! an optional variant-specific visibility override — and the filter-rank
//! pipeline dispatches over the variants through these accessors.

use vstd::prelude::*;
use vstd::string::StringSliceAdditionalSpecFns;
use std::sync::Arc;

use crate::calc::{CalcData, calc_shows};
use crate::launcher::{ApplicationAction, ExecMode, HomeType, Launcher, LauncherType, opt_str_eq};
use crate::scorer::Priority;
use crate::weather::WeatherData;

verus! {

/// Metadata of one application-like entry.
pub struct AppData {
    pub name: Option<String>,
    pub search_string: String,
    pub exec_cmd: Option<String>,
    pub icon: Option<String>,
    pub terminal: bool,
    pub priority: Priority,
}

/// What a media player reports about the current track.
pub struct MprisData {
    pub title: Option<String>,
    pub artists: Vec<String>,
    pub art_url: Option<String>,
}

/// A media item's payload: the last fetched player state, if any player
/// was available.
pub struct MprisState {
    pub raw: Option<MprisData>,
}

/// The title of a fetched player state, when both exist.
pub open spec fn mpris_title(o: Option<MprisData>) -> Option<Seq<char>> {
    match o {
        Option::Some(m) => match m.title {
            Option::Some(t) => Option::Some(t@),
            Option::None => Option::None,
        },
        Option::None => Option::None,
    }
}

fn opt_text_eq(a: &Option<String>, b: &Option<String>) -> (r: bool)
    ensures
        r == opt_str_eq(*a, *b),
{
    match (a, b) {
        (Option::Some(x), Option::Some(y)) => crate::launcher::str_text_eq(x.as_str(), y.as_str()),
        (Option::None, Option::None) => true,
        _ => false,
    }
}

impl LauncherType {
    /// Builds the pool items of one category from what its loader
    /// produced.  Entry-based categories wrap each loaded entry; the
    /// calculator, media and weather categories contribute one item each,
    /// the weather one seeded from its cached snapshot when a fresh one
    /// exists; kinds without children contribute none.
    pub fn get_render_obj(
        &self,
        launcher: Arc<Launcher>,
        loaded: Vec<AppData>,
        capabilities: crate::calc::Capabilities,
        cached_weather: Option<WeatherData>,
    ) -> (r: Option<Vec<RenderableChild>>)
        ensures
            match *self {
                LauncherType::App(_)
                | LauncherType::Bookmark(_)
                | LauncherType::Category(_)
                | LauncherType::Command(_)
                | LauncherType::Clipboard(_)
                | LauncherType::Web(_) => r matches Some(v) && v@.len() == loaded@.len() && forall|
                    i: int,
                |
                    0 <= i < v@.len() ==> (#[trigger] v@[i] matches RenderableChild::AppLike {
                        launcher: l,
                        inner,
                    } && *l == *launcher && inner == loaded@[i]),
                LauncherType::Calc(_) => r matches Some(v) && v@.len() == 1 && (
                v@[0] matches RenderableChild::CalcLike { launcher: l, inner } && *l == *launcher
                    && inner.capabilities == capabilities && inner.result is None),
                LauncherType::MusicPlayer(_) => r matches Some(v) && v@.len() == 1 && (
                v@[0] matches RenderableChild::MusicLike { launcher: l, inner } && *l == *launcher
                    && inner.raw is None),
                LauncherType::Weather(_) => r matches Some(v) && v@.len() == 1 && (
                v@[0] matches RenderableChild::WeatherLike { launcher: l, inner } && *l == *launcher
                    && (match cached_weather {
                    Option::Some(w) => inner == w,
                    Option::None => !inner.init,
                })),
                LauncherType::Event(_) | LauncherType::Empty => r is None,
            },
    {
        match self {
            LauncherType::App(_)
            | LauncherType::Bookmark(_)
            | LauncherType::Category(_)
            | LauncherType::Command(_)
            | LauncherType::Clipboard(_)
            | LauncherType::Web(_) => {
                let ghost all = loaded@;
                let mut items: Vec<RenderableChild> = Vec::new();
                let mut rest = loaded;
                loop
                    invariant
                        items@.len() + rest@.len() == all.len(),
                        rest@ == all.skip(items@.len() as int),
                        forall|i: int|
                            0 <= i < items@.len() ==> (#[trigger] items@[i]
                                matches RenderableChild::AppLike { launcher: l, inner } && *l
                                == *launcher && inner == all[i]),
                    ensures
                        rest@.len() == 0,
                    decreases rest@.len(),
                {
                    if rest.len() == 0 {
                        break ;
                    }
                    let ghost rest_before = rest@;
                    let entry = rest.remove(0);
                    items.push(
                        RenderableChild::AppLike {
                            launcher: crate::launcher::share_launcher(&launcher),
                            inner: entry,
                        },
                    );
                    proof {
                        assert(rest@ =~= all.skip(items@.len() as int));
                    }
                }
                Option::Some(items)
            },
            LauncherType::Calc(_) => {
                let mut items: Vec<RenderableChild> = Vec::new();
                items.push(
                    RenderableChild::CalcLike {
                        launcher,
                        inner: crate::calc::CalcData::new(capabilities),
                    },
                );
                Option::Some(items)
            },
            LauncherType::MusicPlayer(_) => {
                let mut items: Vec<RenderableChild> = Vec::new();
                items.push(
                    RenderableChild::MusicLike { launcher, inner: MprisState { raw: Option::None } },
                );
                Option::Some(items)
            },
            LauncherType::Weather(_) => {
                let inner = match cached_weather {
                    Option::Some(w) => w,
                    Option::None => WeatherData::uninitialized(),
                };
                let mut items: Vec<RenderableChild> = Vec::new();
                items.push(RenderableChild::WeatherLike { launcher, inner });
                Option::Some(items)
            },
            LauncherType::Event(_) | LauncherType::Empty => Option::None,
        }
    }
}

impl MprisData {
    /// Decides what a freshly fetched player state means for this one:
    /// the fetched state is handed back together with whether the track
    /// changed, judged by the title.  No fetched state means no update.
    pub fn update(&self, fetched: Option<MprisData>) -> (r: Option<(MprisData, bool)>)
        ensures
            r is Some <==> fetched is Some,
            r matches Some(p) ==> fetched matches Some(f) && p.0 == f && p.1 == !opt_str_eq(
                f.title,
                self.title,
            ),
    {
        match fetched {
            Option::Some(f) => {
                let changed = !opt_text_eq(&f.title, &self.title);
                Option::Some((f, changed))
            },
            Option::None => Option::None,
        }
    }
}

/// A freshly fetched payload for one asynchronously refreshing item.
pub enum RefreshPayload {
    /// The current player state, or none when no player session exists.
    Music(Option<MprisData>),
    /// A weather snapshot, and whether the producer saw it change.
    Weather(WeatherData, bool),
}

/// One item of the pool: its shared category descriptor and its
/// variant-specific payload.
pub enum RenderableChild {
    AppLike { launcher: Arc<Launcher>, inner: AppData },
    CalcLike { launcher: Arc<Launcher>, inner: CalcData },
    MusicLike { launcher: Arc<Launcher>, inner: MprisState },
    WeatherLike { launcher: Arc<Launcher>, inner: WeatherData },
}

impl RenderableChild {
    /// The category descriptor this item references.
    pub open spec fn launcher_spec(self) -> Launcher {
        match self {
            RenderableChild::AppLike { launcher, .. } => *launcher,
            RenderableChild::CalcLike { launcher, .. } => *launcher,
            RenderableChild::MusicLike { launcher, .. } => *launcher,
            RenderableChild::WeatherLike { launcher, .. } => *launcher,
        }
    }

    /// The item's visibility rule.
    pub open spec fn home_spec(self) -> HomeType {
        self.launcher_spec().home
    }

    /// The item's alias (mode) string.
    pub open spec fn alias_spec(self) -> Option<String> {
        self.launcher_spec().alias
    }

    /// Whether the item refreshes asynchronously.
    pub open spec fn is_async_spec(self) -> bool {
        self.launcher_spec().refreshes_async
    }

    /// The item's base priority: app-like entries carry their own,
    /// usage-weighted one, the other variants inherit their category's
    /// tier.
    pub open spec fn priority_spec(self) -> Priority {
        match self {
            RenderableChild::AppLike { inner, .. } => inner.priority,
            _ => Priority { tier: self.launcher_spec().priority, frac: 0 },
        }
    }

    /// The bytes of the item's search text; only app-like entries have
    /// one.
    pub open spec fn search_spec(self) -> Seq<u8> {
        match self {
            RenderableChild::AppLike { inner, .. } => vstd::utf8::encode_utf8(
                inner.search_string@,
            ),
            _ => Seq::<u8>::empty(),
        }
    }

    /// Whether matching and scoring read the item's extended search text;
    /// when false, the pipeline scores the category name instead.
    pub open spec fn use_keywords_spec(self) -> bool {
        match self.launcher_spec().launcher_type {
            LauncherType::App(app) => app.use_keywords,
            _ => true,
        }
    }

    /// The variant-specific visibility override: calculator items decide
    /// by evaluating the query, media items hide themselves entirely when
    /// no player state is present, and the other variants defer to the
    /// default rules.
    pub open spec fn based_show_spec(self, q: Seq<char>) -> Option<bool> {
        match self {
            RenderableChild::CalcLike { inner, .. } => Option::Some(
                calc_shows(inner.capabilities.math, q),
            ),
            RenderableChild::MusicLike { inner, .. } => if inner.raw is Some {
                Option::None
            } else {
                Option::Some(false)
            },
            _ => Option::None,
        }
    }

    fn launcher(&self) -> (r: &Arc<Launcher>)
        ensures
            **r == self.launcher_spec(),
    {
        match self {
            RenderableChild::AppLike { launcher, .. } => launcher,
            RenderableChild::CalcLike { launcher, .. } => launcher,
            RenderableChild::MusicLike { launcher, .. } => launcher,
            RenderableChild::WeatherLike { launcher, .. } => launcher,
        }
    }

    /// The item's visibility rule.
    pub fn home(&self) -> (r: HomeType)
        ensures
            r == self.home_spec(),
    {
        self.launcher().home
    }

    /// The item's alias (mode) string.
    pub fn alias(&self) -> (r: &Option<String>)
        ensures
            *r == self.alias_spec(),
    {
        &self.launcher().alias
    }

    /// The item's category name.
    pub fn name(&self) -> (r: &Option<String>)
        ensures
            *r == self.launcher_spec().name,
    {
        &self.launcher().name
    }

    /// Whether the item refreshes asynchronously.
    pub fn is_async(&self) -> (r: bool)
        ensures
            r == self.is_async_spec(),
    {
        self.launcher().refreshes_async
    }

    /// The item's base priority.
    pub fn priority(&self) -> (r: Priority)
        ensures
            r == self.priority_spec(),
    {
        match self {
            RenderableChild::AppLike { inner, .. } => inner.priority,
            _ => Priority { tier: self.launcher().priority, frac: 0 },
        }
    }

    /// The item's search text.
    pub fn search(&self) -> (r: &str)
        ensures
            r.spec_bytes() == self.search_spec(),
    {
        match self {
            RenderableChild::AppLike { inner, .. } => inner.search_string.as_str(),
            _ => {
                proof {
                    reveal_strlit("");
                    assert(""@ =~= Seq::<char>::empty());
                    assert("".spec_bytes() =~= Seq::<u8>::empty());
                }
                ""
            },
        }
    }

    /// Whether matching and scoring read the extended search text.
    pub fn use_keywords(&self) -> (r: bool)
        ensures
            r == self.use_keywords_spec(),
    {
        match &self.launcher().launcher_type {
            LauncherType::App(app) => app.use_keywords,
            _ => true,
        }
    }

    /// The variant-specific visibility override.
    pub fn based_show(&self, query: &str) -> (r: Option<bool>)
        ensures
            r == self.based_show_spec(query@),
    {
        match self {
            RenderableChild::CalcLike { inner, .. } => Option::Some(inner.based_show(query)),
            RenderableChild::MusicLike { inner, .. } => match &inner.raw {
                Option::Some(_) => Option::None,
                Option::None => Option::Some(false),
            },
            _ => Option::None,
        }
    }

    /// The command an app-like item runs; other variants have none.
    pub fn get_exec(&self) -> (r: Option<String>)
        ensures
            match self {
                RenderableChild::AppLike { inner, .. } => opt_str_eq(r, inner.exec_cmd),
                _ => r is None,
            },
    {
        match self {
            RenderableChild::AppLike { inner, .. } => match &inner.exec_cmd {
                Option::Some(e) => Option::Some(e.clone()),
                Option::None => Option::None,
            },
            _ => Option::None,
        }
    }

    /// Builds the action descriptor this item hands to the execution
    /// collaborator: app-like entries describe their command, a
    /// calculator item copies its remembered result, and the other
    /// variants carry no action.
    pub fn build_exec(&self) -> (r: Option<ExecMode>)
        ensures
            match self {
                RenderableChild::AppLike { inner, launcher } => r matches Some(e) && e.describes(
                    *inner,
                    **launcher,
                ),
                RenderableChild::CalcLike { inner, .. } => match inner.result {
                    Option::Some(s) => r matches Some(e) && e matches ExecMode::Copy { content }
                        && content@ == s@,
                    Option::None => r is None,
                },
                _ => r is None,
            },
    {
        match self {
            RenderableChild::AppLike { inner, launcher } => Option::Some(
                ExecMode::from_appdata(inner, launcher),
            ),
            RenderableChild::CalcLike { inner, .. } => match &inner.result {
                Option::Some(s) => Option::Some(ExecMode::Copy { content: s.clone() }),
                Option::None => Option::None,
            },
            _ => Option::None,
        }
    }

    /// The context-menu action descriptor for this item: only
    /// app-launcher and command methods carry one.
    pub fn build_action_exec(&self, action: &ApplicationAction) -> (r: ExecMode)
        ensures
            ({
                let is_cmd = action.method@ == "app_launcher"@ || action.method@ == "command"@;
                &&& is_cmd ==> (r matches ExecMode::Commmand { exec_cmd } && exec_cmd@ == (
                match action.exec_cmd {
                    Option::Some(e) => e@,
                    Option::None => Seq::<char>::empty(),
                }))
                &&& !is_cmd ==> r is NoAction
            }),
    {
        ExecMode::from_app_action(action, self.launcher())
    }

    /// Decides whether a fetched payload replaces this item.  A media
    /// update is applied only when the track title changed; a weather
    /// update only when the producer saw a change; anything else leaves
    /// the item as it is, signalled by an empty result.
    pub fn merge_refresh(self, payload: RefreshPayload) -> (r: Option<RenderableChild>)
        ensures
            match self {
                RenderableChild::MusicLike { launcher, inner } => match payload {
                    RefreshPayload::Music(new_state) => {
                        if mpris_title(new_state) == mpris_title(inner.raw) {
                            r is None
                        } else {
                            r matches Some(c) && c matches RenderableChild::MusicLike {
                                launcher: l2,
                                inner: s2,
                            } && *l2 == *launcher && s2.raw == new_state
                        }
                    },
                    _ => r is None,
                },
                RenderableChild::WeatherLike { launcher, .. } => match payload {
                    RefreshPayload::Weather(new_data, changed) => {
                        if changed {
                            r matches Some(c) && c matches RenderableChild::WeatherLike {
                                launcher: l2,
                                inner: d2,
                            } && *l2 == *launcher && d2 == new_data
                        } else {
                            r is None
                        }
                    },
                    _ => r is None,
                },
                _ => r is None,
            },
    {
        match self {
            RenderableChild::MusicLike { launcher, inner } => match payload {
                RefreshPayload::Music(new_state) => {
                    let same_title = match (&new_state, &inner.raw) {
                        (Option::Some(n), Option::Some(o)) => opt_text_eq(&n.title, &o.title),
                        (Option::None, Option::None) => true,
                        (Option::Some(n), Option::None) => n.title.is_none(),
                        (Option::None, Option::Some(o)) => o.title.is_none(),
                    };
                    if same_title {
                        Option::None
                    } else {
                        Option::Some(
                            RenderableChild::MusicLike {
                                launcher,
                                inner: MprisState { raw: new_state },
                            },
                        )
                    }
                },
                _ => Option::None,
            },
            RenderableChild::WeatherLike { launcher, inner: _ } => match payload {
                RefreshPayload::Weather(new_data, changed) => {
                    if changed {
                        Option::Some(RenderableChild::WeatherLike { launcher, inner: new_data })
                    } else {
                        Option::None
                    }
                },
                _ => Option::None,
            },
            _ => Option::None,
        }
    }
}

} // verus!
