//! The per-session query engine.
//!
//! It owns the active mode, the known alias modes, the last answered
//! query, and the currently displayed ranking.  A query change first lets
//! the mode react (possibly clearing the query), then re-runs the
//! filter-rank pipeline over the whole pool and commits the result
//! together with the query it answers; a query equal to the last answered
//! one is skipped outright, which both caches work and keeps a superseded
//! run from overwriting newer state.

use vstd::prelude::*;
use vstd::string::StringSliceAdditionalSpecFns;

use crate::children::RenderableChild;
use crate::launcher::str_text_eq;
use crate::mode::LauncherMode;
use crate::pipeline::{filter_and_rank, home_view, valid_ranking};

verus! {

pub struct QueryEngine {
    /// The active mode.
    pub mode: LauncherMode,
    /// The alias modes known to the engine.
    pub modes: Vec<LauncherMode>,
    /// The query the current results answer, if any ran yet.
    pub last_query: Option<String>,
    /// The accepted pool indices, in ranking order.
    pub results: Vec<usize>,
}

impl QueryEngine {
    /// The committed results answer the committed query: whenever a query
    /// is remembered, the stored ranking is the correct pipeline output
    /// for it under the active mode.
    pub open spec fn coherent_with(self, pool: Seq<RenderableChild>) -> bool {
        match self.last_query {
            Option::Some(q) => {
                let qb = vstd::utf8::encode_utf8(q@);
                valid_ranking(
                    pool,
                    self.mode.lane_spec(),
                    home_view(self.mode.lane_spec(), qb),
                    qb,
                    q@,
                    self.results@,
                )
            },
            Option::None => true,
        }
    }

    pub fn new(modes: Vec<LauncherMode>) -> (r: QueryEngine)
        ensures
            r.mode is Home,
            r.modes@ == modes@,
            r.last_query is None,
            r.results@.len() == 0,
    {
        QueryEngine { mode: LauncherMode::Home, modes, last_query: Option::None, results: Vec::new() }
    }

    /// Forgets the last answered query, so that the next run re-ranks
    /// even an identical query text.  The refresh orchestrator calls this
    /// after splicing fresh payloads into the pool: the committed results
    /// may no longer describe it.
    pub fn invalidate(&mut self)
        ensures
            final (self).last_query is None,
            final (self).mode == old(self).mode,
            final (self).modes == old(self).modes,
            final (self).results == old(self).results,
    {
        self.last_query = Option::None;
    }

    /// Reacts to a query change.  A query equal to the last answered one
    /// leaves everything untouched.  Otherwise the mode reacts first — an
    /// alias switch clears the query — and the pipeline output for the
    /// effective query is committed along with it.
    pub fn run_query(&mut self, pool: &Vec<RenderableChild>, query: String) -> (updated: bool)
        ensures
            ({
                let unchanged = old(self).last_query matches Option::Some(lq) && lq@ == query@;
                &&& updated == !unchanged
                &&& !updated ==> *final (self) == *old(self)
                &&& updated ==> final (self).modes@ == old(self).modes@
                &&& updated ==> (final (self).last_query matches Option::Some(eff) && (eff@
                    == query@ || eff@.len() == 0))
                &&& updated ==> final (self).coherent_with(pool@)
            }),
    {
        let unchanged = match &self.last_query {
            Option::Some(lq) => str_text_eq(lq.as_str(), query.as_str()),
            Option::None => false,
        };
        if unchanged {
            return false;
        }
        let clear = self.mode.transition_for_query(query.as_str(), self.modes.as_slice());
        let effective = if clear {
            String::new()
        } else {
            query
        };
        self.results = filter_and_rank(pool, &self.mode, effective.as_str());
        self.last_query = Option::Some(effective);
        true
    }
}

} // verus!
