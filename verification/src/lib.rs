//! Core query engine of an interactive item launcher.
//!
//! The engine filters, scores and orders a pool of heterogeneous items on
//! every keystroke.  Its pieces are: a bounded-gap approximate substring
//! matcher, a fixed-point similarity scorer with explicit tie-break
//! semantics, a mode state machine that decides which items are candidates,
//! the filter-rank pipeline that combines them, and a generation-guarded
//! refresh protocol that merges asynchronously fetched payloads without
//! applying stale results.

pub mod audio;
pub mod calc;
pub mod children;
pub mod currency;
pub mod distance;
pub mod engine;
pub mod icons;
pub mod launcher;
pub mod matcher;
pub mod mode;
pub mod pipeline;
pub mod ranking;
pub mod refresh;
pub mod scorer;
pub mod weather;
