//! A presence reconciliation engine for a local media-playback session.
//!
//! The library samples "what is currently playing" as plain values, renders a
//! small set of display rows from configurable templates, resolves a cover
//! image URL through a cached lookup, and decides when the externally visible
//! presence must be broadcast, kept, or retracted.

pub mod activity;
pub mod config;
pub mod coverart;
pub mod engine;
pub mod metadata;
pub mod errors;
pub mod strmap;
pub mod template;
pub mod strutil;

use vstd::prelude::*;

verus! {

} // verus!
