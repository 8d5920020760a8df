//! Mode state machine.
//!
//! Exactly one mode is active at a time: the home view, plain search, or a
//! named alias.  The active mode decides the lane that gates item
//! eligibility, and typing an alias's short code followed by a single
//! space switches into that alias mode and asks the caller to clear the
//! query.

use vstd::prelude::*;
use vstd::string::StringSliceAdditionalSpecFns;

verus! {

#[derive(Debug)]
pub enum LauncherMode {
    Home,
    Search,
    Alias { short: String, name: String },
}

/// Lowercases one ASCII byte; other bytes are left alone.
pub open spec fn lower_byte(b: u8) -> u8 {
    if 65 <= b <= 90 {
        (b + 32) as u8
    } else {
        b
    }
}

/// Byte strings equal up to ASCII case.
pub open spec fn ascii_eq_ignore_case(a: Seq<u8>, b: Seq<u8>) -> bool {
    a.len() == b.len() && forall|i: int| 0 <= i < a.len() ==> lower_byte(a[i]) == lower_byte(b[i])
}

/// The bytes of the lane that matches every non-alias mode.
pub open spec fn all_lane() -> Seq<u8> {
    "all".spec_bytes()
}

/// Structural equality of two modes, comparing strings by contents.
pub open spec fn mode_eq(a: LauncherMode, b: LauncherMode) -> bool {
    match (a, b) {
        (LauncherMode::Home, LauncherMode::Home) => true,
        (LauncherMode::Search, LauncherMode::Search) => true,
        (
            LauncherMode::Alias { short: s1, name: n1 },
            LauncherMode::Alias { short: s2, name: n2 },
        ) => s1@ == s2@ && n1@ == n2@,
        _ => false,
    }
}

/// This mode is the alias whose short code equals `q` up to ASCII case.
pub open spec fn alias_matches(m: LauncherMode, q: Seq<u8>) -> bool {
    match m {
        LauncherMode::Alias { short, .. } => ascii_eq_ignore_case(
            vstd::utf8::encode_utf8(short@),
            q,
        ),
        _ => false,
    }
}

fn eq_ignore_ascii_case_bytes(a: &[u8], b: &[u8]) -> (r: bool)
    ensures
        r == ascii_eq_ignore_case(a@, b@),
{
    if a.len() != b.len() {
        return false;
    }
    let mut i: usize = 0;
    while i < a.len()
        invariant
            i <= a@.len(),
            a@.len() == b@.len(),
            forall|j: int| 0 <= j < i ==> lower_byte(a@[j]) == lower_byte(b@[j]),
        decreases a@.len() - i,
    {
        let ca = if 65 <= a[i] && a[i] <= 90 {
            a[i] + 32
        } else {
            a[i]
        };
        let cb = if 65 <= b[i] && b[i] <= 90 {
            b[i] + 32
        } else {
            b[i]
        };
        if ca != cb {
            return false;
        }
        i += 1;
    }
    true
}

impl LauncherMode {
    /// The lane of this mode: `"all"` for home and search, the alias short
    /// code otherwise.
    pub open spec fn lane_spec(&self) -> Seq<u8> {
        match self {
            LauncherMode::Alias { short, .. } => vstd::utf8::encode_utf8(short@),
            _ => all_lane(),
        }
    }

    /// Lane string used by the filter-rank pipeline.
    pub fn as_str(&self) -> (r: &str)
        ensures
            r.spec_bytes() == self.lane_spec(),
    {
        match self {
            LauncherMode::Home | LauncherMode::Search => "all",
            LauncherMode::Alias { short, .. } => short.as_str(),
        }
    }

    /// Human-readable name of this mode.
    pub fn display_str(&self) -> (r: String)
        ensures
            r@ == match self {
                LauncherMode::Home => "All"@,
                LauncherMode::Search => "Search"@,
                LauncherMode::Alias { name, .. } => name@,
            },
    {
        match self {
            LauncherMode::Home => "All".to_owned(),
            LauncherMode::Search => "Search".to_owned(),
            LauncherMode::Alias { name, .. } => name.clone(),
        }
    }

    /// A copy of this mode whose strings hold the same text.
    pub fn duplicate(&self) -> (r: LauncherMode)
        ensures
            mode_eq(r, *self),
    {
        match self {
            LauncherMode::Home => LauncherMode::Home,
            LauncherMode::Search => LauncherMode::Search,
            LauncherMode::Alias { short, name } => LauncherMode::Alias {
                short: short.clone(),
                name: name.clone(),
            },
        }
    }

    /// Reacts to a query change.  An emptied query leaves search for home;
    /// a first keystroke leaves home for search; in search or an alias, a
    /// query that ends in one trailing space and otherwise names a known
    /// alias's short code (ignoring ASCII case) switches to the first such
    /// alias and returns true to ask the caller to clear the query.  In
    /// every other case the mode is unchanged.
    #[verifier::loop_isolation(false)]
    pub fn transition_for_query(&mut self, query: &str, modes: &[LauncherMode]) -> (clear: bool)
        ensures
            ({
                let q = query.spec_bytes();
                let stripped = q.take(q.len() - 1);
                &&& ((*old(self)) is Search && q.len() == 0) ==> ((*final (self)) is Home && !clear)
                &&& ((*old(self)) is Home && q.len() > 0) ==> ((*final (self)) is Search && !clear)
                &&& ((*old(self)) is Home && q.len() == 0) ==> (mode_eq(*final (self), *old(self))
                    && !clear)
                &&& ((*old(self)) is Alias && q.len() == 0) ==> (mode_eq(*final (self), *old(self))
                    && !clear)
                &&& (((*old(self)) is Search || (*old(self)) is Alias) && q.len() > 0 && q.last()
                    != 32) ==> (mode_eq(*final (self), *old(self)) && !clear)
                &&& (((*old(self)) is Search || (*old(self)) is Alias) && q.len() > 0 && q.last() == 32
                    && (forall|t: int|
                    0 <= t < modes@.len() ==> !alias_matches(modes@[t], stripped))) ==> (mode_eq(
                    *final (self),
                    *old(self),
                ) && !clear)
                &&& (((*old(self)) is Search || (*old(self)) is Alias) && q.len() > 0 && q.last() == 32
                    && (exists|t: int|
                    0 <= t < modes@.len() && alias_matches(modes@[t], stripped))) ==> (clear
                    && exists|k: int|
                    0 <= k < modes@.len() && alias_matches(modes@[k], stripped) && (forall|t: int|
                        0 <= t < k ==> !alias_matches(modes@[t], stripped)) && mode_eq(
                        *final (self),
                        modes@[k],
                    ))
            }),
    {
        let q = query.as_bytes();
        let is_search = match self {
            LauncherMode::Search => true,
            _ => false,
        };
        let is_home = match self {
            LauncherMode::Home => true,
            _ => false,
        };
        if is_search && q.len() == 0 {
            *self = LauncherMode::Home;
            return false;
        }
        if is_home && q.len() > 0 {
            *self = LauncherMode::Search;
            return false;
        }
        if !is_home && q.len() > 0 {
            if q[q.len() - 1] == 32 {
                let stripped = vstd::slice::slice_subrange(q, 0, q.len() - 1);
                proof {
                    assert(stripped@ =~= query.spec_bytes().take(
                        query.spec_bytes().len() - 1,
                    ));
                }
                let mut k: usize = 0;
                while k < modes.len()
                    invariant
                        k <= modes@.len(),
                        *self == *old(self),
                        forall|t: int| 0 <= t < k ==> !alias_matches(modes@[t], stripped@),
                    decreases modes@.len() - k,
                {
                    let matched = match &modes[k] {
                        LauncherMode::Alias { short, .. } => eq_ignore_ascii_case_bytes(
                            short.as_str().as_bytes(),
                            stripped,
                        ),
                        _ => false,
                    };
                    if matched {
                        assert(alias_matches(modes@[k as int], stripped@));
                        *self = modes[k].duplicate();
                        return true;
                    }
                    k += 1;
                }
            }
        }
        false
    }
}

} // verus!
