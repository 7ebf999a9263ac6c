//! The presence payload and the per-tick state it is derived from.

use vstd::prelude::*;
use crate::strutil::str_eq;

verus! {

/// The four display rows that a presence broadcast carries.
#[derive(Debug)]
pub struct ActivityInfo {
    /// First row.
    pub details: String,
    /// Second row.
    pub state: String,
    /// Third row.
    pub subtitle: String,
    /// Cover image URL or the media player's name.
    pub image: String,
}

/// An activity is empty exactly when all four rows are empty.
pub open spec fn activity_is_empty(a: ActivityInfo) -> bool {
    &&& a.details@.len() == 0
    &&& a.state@.len() == 0
    &&& a.subtitle@.len() == 0
    &&& a.image@.len() == 0
}

impl ActivityInfo {
    /// Whether all four rows are empty.
    pub fn is_empty(&self) -> (r: bool)
        ensures
            r == activity_is_empty(*self),
    {
        self.details.as_str().unicode_len() == 0 && self.state.as_str().unicode_len() == 0
            && self.subtitle.as_str().unicode_len() == 0 && self.image.as_str().unicode_len()
            == 0
    }
}

impl Clone for ActivityInfo {
    /// A clone is the same payload.
    fn clone(&self) -> (r: Self)
        ensures
            r == *self,
    {
        ActivityInfo {
            details: self.details.clone(),
            state: self.state.clone(),
            subtitle: self.subtitle.clone(),
            image: self.image.clone(),
        }
    }
}

impl Default for ActivityInfo {
    /// The zero value: four empty rows.
    fn default() -> (r: Self)
        ensures
            activity_is_empty(r),
    {
        ActivityInfo {
            details: String::new(),
            state: String::new(),
            subtitle: String::new(),
            image: String::new(),
        }
    }
}

/// The engine's snapshot of the last derived presence.
#[derive(Debug)]
pub struct Current {
    /// The release (album) name last read.
    pub release: String,
    /// The album artists last read, joined.
    pub artist: String,
    /// The image URL or player-name fallback last resolved.
    pub url: String,
    /// The payload last assembled.
    pub activity: ActivityInfo,
}

/// The identity under which two snapshots count as the same broadcast:
/// release, artist and URL; the payload is deliberately left out.
pub open spec fn same_identity(a: Current, b: Current) -> bool {
    &&& a.release@ == b.release@
    &&& a.artist@ == b.artist@
    &&& a.url@ == b.url@
}

/// The reset snapshot: empty identity and an empty payload.
pub open spec fn is_default_current(c: Current) -> bool {
    &&& c.release@.len() == 0
    &&& c.artist@.len() == 0
    &&& c.url@.len() == 0
    &&& activity_is_empty(c.activity)
}

impl PartialEq for Current {
    /// Equality compares the (release, artist, url) identity only.
    fn eq(&self, other: &Current) -> (r: bool) {
        str_eq(self.release.as_str(), other.release.as_str()) && str_eq(
            self.artist.as_str(),
            other.artist.as_str(),
        ) && str_eq(self.url.as_str(), other.url.as_str())
    }
}

impl vstd::std_specs::cmp::PartialEqSpecImpl for Current {
    open spec fn obeys_eq_spec() -> bool {
        true
    }

    open spec fn eq_spec(&self, other: &Current) -> bool {
        same_identity(*self, *other)
    }
}

impl Clone for Current {
    /// A clone is the same snapshot.
    fn clone(&self) -> (r: Self)
        ensures
            r == *self,
    {
        Current {
            release: self.release.clone(),
            artist: self.artist.clone(),
            url: self.url.clone(),
            activity: self.activity.clone(),
        }
    }
}

impl Current {
    /// A snapshot with an empty identity carrying the given payload, or the
    /// zero payload when none is given.
    pub fn new(activity: Option<ActivityInfo>) -> (r: Current)
        ensures
            r.release@.len() == 0,
            r.artist@.len() == 0,
            r.url@.len() == 0,
            match activity {
                Some(a) => r.activity == a,
                None => activity_is_empty(r.activity),
            },
    {
        let act = match activity {
            Some(a) => a,
            None => ActivityInfo::default(),
        };
        Current {
            release: String::new(),
            artist: String::new(),
            url: String::new(),
            activity: act,
        }
    }
}

impl Default for Current {
    /// The reset snapshot.
    fn default() -> (r: Self)
        ensures
            is_default_current(r),
    {
        Current::new(None)
    }
}

} // verus!
