//! The library's error taxonomy. Transport and session faults stay with the
//! adapters; these are the failures the engine itself decides on.

use vstd::prelude::*;

verus! {

/// Why a tick, a configuration access or a render gave no result.
#[derive(Debug, PartialEq, Eq)]
pub enum AppError {
    /// The named configuration key is not set in the environment.
    EnvVar(String),
    /// Every discovered player is on the ignore list, or none exists.
    NoActivePlayers,
    /// A duration-typed configuration value is not a non-negative integer.
    ParseInt,
    /// The cached value for the named key has another type than asked for.
    TypeMismatch(String),
    /// The selected session is stopped or paused and not configured to show.
    NoSongPlaying,
    /// A row template references a metadata field that the map lacks.
    FieldNotFound(String),
}

} // verus!
