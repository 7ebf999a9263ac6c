//! The state reconciler: per tick it selects a player, derives the presence
//! from status, metadata and configuration, and decides whether the
//! transport must broadcast, stay idle, or retract.

use vstd::prelude::*;
use crate::activity::{
    activity_is_empty, is_default_current, same_identity, ActivityInfo, Current,
};
use crate::coverart::{accepted_id, cover_art_from_search, cover_key_spec, cover_url_spec,
    cover_art_key, CoverArt, SearchOutcome};
use crate::errors::AppError;
use crate::metadata::{Metadata, MetaModel, MetaValue};
use crate::strutil::{contains_str, join_comma, join_with_comma, lower_of, lowercase, str_eq, str_views};
use crate::template::{render, render_rows_spec};

verus! {

/// A session's playback status.
#[derive(Debug, Clone, Copy, PartialEq, Eq, Structural)]
pub enum PlaybackStatus {
    Playing,
    Paused,
    Stopped,
}

/// Picks the first discovered player whose identity is not on the ignore
/// list; with none left, the tick fails.
pub fn select_player(identities: &Vec<String>, ignored: &Vec<String>) -> (r: Result<
    usize,
    AppError,
>)
    ensures
        r matches Ok(i) ==> 0 <= i < identities@.len() && !str_views(ignored@).contains(
            identities@[i as int]@,
        ) && forall|j: int| 0 <= j < i ==> str_views(ignored@).contains(identities@[j]@),
        r is Err ==> r == Err::<usize, AppError>(AppError::NoActivePlayers) && forall|j: int|
            0 <= j < identities@.len() ==> str_views(ignored@).contains(identities@[j]@),
{
    let mut i: usize = 0;
    while i < identities.len()
        invariant
            0 <= i <= identities.len(),
            forall|j: int| 0 <= j < i ==> str_views(ignored@).contains(identities@[j]@),
        decreases identities.len() - i,
    {
        if !contains_str(ignored, identities[i].as_str()) {
            return Ok(i);
        }
        i += 1;
    }
    Err(AppError::NoActivePlayers)
}

/// A song is wanted on screen: playing, or paused with paused sessions
/// configured to show.
pub open spec fn wants_song(status: PlaybackStatus, show_paused: bool) -> bool {
    status == PlaybackStatus::Playing || (status == PlaybackStatus::Paused && show_paused)
}

/// The metadata fields a playing session is assumed to expose: the album
/// name as a string and the album artists as a list.
pub open spec fn has_album_fields(md: Map<Seq<char>, MetaModel>) -> bool {
    &&& md.contains_key("xesam:album"@)
    &&& md["xesam:album"@] is Str
    &&& md.contains_key("xesam:albumArtist"@)
    &&& md["xesam:albumArtist"@] is List
}

/// The release the metadata names.
pub open spec fn album_of(md: Map<Seq<char>, MetaModel>) -> Seq<char> {
    md["xesam:album"@]->Str_0
}

/// The album artists the metadata names, joined.
pub open spec fn artist_of(md: Map<Seq<char>, MetaModel>) -> Seq<char> {
    join_comma(md["xesam:albumArtist"@]->List_0)
}

/// The player-derived image name: the lowercase identity, with a marker
/// suffix when a paused session is shown.
pub open spec fn player_image(identity: Seq<char>, paused_marker: bool) -> Seq<char> {
    if paused_marker {
        lower_of(identity) + "_paused"@
    } else {
        lower_of(identity)
    }
}

/// The fixed presence of a stopped session configured to show: the fixed
/// message, an empty identity, and the lowercase player name as image.
pub open spec fn is_stopped_presence(c: Current, identity: Seq<char>) -> bool {
    &&& c.release@ =~= Seq::<char>::empty()
    &&& c.artist@ =~= Seq::<char>::empty()
    &&& c.url@ =~= Seq::<char>::empty()
    &&& c.activity.details@ == "Stopped playback"@
    &&& c.activity.state@ =~= Seq::<char>::empty()
    &&& c.activity.subtitle@ =~= Seq::<char>::empty()
    &&& c.activity.image@ == lower_of(identity)
}

/// A fully assembled snapshot: identity fields, three rendered rows, and
/// the resolved URL standing both as `url` and as the fourth row.
pub open spec fn is_assembled(
    c: Current,
    release: Seq<char>,
    artist: Seq<char>,
    url: Seq<char>,
    rows: Seq<Seq<char>>,
) -> bool {
    &&& c.release@ == release
    &&& c.artist@ == artist
    &&& c.url@ == url
    &&& c.activity.details@ == rows[0]
    &&& c.activity.state@ == rows[1]
    &&& c.activity.subtitle@ == rows[2]
    &&& c.activity.image@ == url
}

/// A tick that stopped short of the cover-art search: everything already
/// derived, waiting for the search outcome.
#[derive(Debug)]
pub struct PendingTick {
    pub release: String,
    pub artist: String,
    pub details: String,
    pub state: String,
    pub subtitle: String,
    pub player_name: String,
}

/// What `tick_complete` must assemble from a pending tick and a URL.
pub open spec fn pending_assembled(c: Current, p: PendingTick, url: Seq<char>) -> bool {
    &&& c.release@ == p.release@
    &&& c.artist@ == p.artist@
    &&& c.url@ == url
    &&& c.activity.details@ == p.details@
    &&& c.activity.state@ == p.state@
    &&& c.activity.subtitle@ == p.subtitle@
    &&& c.activity.image@ == url
}

/// How far one tick's derivation got without the cover-art search.
#[derive(Debug)]
pub enum TickStep {
    /// The tick is decided: a new snapshot, or the failure to report.
    Finished(Result<Current, AppError>),
    /// Everything but the image is derived; a search must settle it.
    AwaitCoverArt(PendingTick),
}

fn assemble(release: String, artist: String, url: String, rows: &Vec<String>) -> (c: Current)
    requires
        rows@.len() == 3,
    ensures
        is_assembled(c, release@, artist@, url@, str_views(rows@)),
{
    let image = url.clone();
    Current {
        release,
        artist,
        url,
        activity: ActivityInfo {
            details: rows[0].clone(),
            state: rows[1].clone(),
            subtitle: rows[2].clone(),
            image,
        },
    }
}

/// Derives one tick as far as plain data allows. The stopped-and-shown
/// session short-circuits to the fixed presence; a hidden pause or stop
/// fails the tick; an unchanged (release, artist) with a non-empty stored
/// payload returns the stored snapshot untouched, bypassing both the
/// template engine and the resolver; otherwise the rows are rendered and
/// the image is settled from configuration and cache, deferring to a
/// search only on a cache miss.
pub fn tick_prepare(
    identity: &str,
    status: PlaybackStatus,
    metadata: &Metadata,
    show_paused: bool,
    show_stopped: bool,
    templates: &Vec<String>,
    fetch_cover_art: bool,
    current: &Current,
    cover: &CoverArt,
) -> (r: TickStep)
    requires
        wants_song(status, show_paused) ==> has_album_fields(metadata@),
    ensures
        status == PlaybackStatus::Stopped && show_stopped ==> r is Finished && r->Finished_0
            is Ok && is_stopped_presence(r->Finished_0->Ok_0, identity@),
        !(status == PlaybackStatus::Stopped && show_stopped) && ((status
            == PlaybackStatus::Paused && !show_paused) || status == PlaybackStatus::Stopped)
            ==> r == TickStep::Finished(Err::<Current, AppError>(AppError::NoSongPlaying)),
        wants_song(status, show_paused) ==> ({
            let md = metadata@;
            let release = album_of(md);
            let artist = artist_of(md);
            let rendered = render_rows_spec(str_views(templates@), md);
            let marker = status == PlaybackStatus::Paused && show_paused;
            let fallback = player_image(identity@, marker);
            let key = cover_key_spec(release, artist);
            &&& (release == current.release@ && artist == current.artist@
                && !activity_is_empty(current.activity) ==> r == TickStep::Finished(Ok::<
                Current,
                AppError,
            >(*current)))
            &&& !(release == current.release@ && artist == current.artist@
                && !activity_is_empty(current.activity)) ==> {
                &&& rendered is Err ==> r is Finished && r->Finished_0 is Err
                    && r->Finished_0->Err_0 is FieldNotFound
                    && r->Finished_0->Err_0->FieldNotFound_0@ == rendered->Err_0
                &&& rendered is Ok && !fetch_cover_art ==> r is Finished && r->Finished_0
                    is Ok && is_assembled(
                    r->Finished_0->Ok_0,
                    release,
                    artist,
                    fallback,
                    rendered->Ok_0,
                )
                &&& rendered is Ok && fetch_cover_art && cover@.contains_key(key) ==> r
                    is Finished && r->Finished_0 is Ok && is_assembled(
                    r->Finished_0->Ok_0,
                    release,
                    artist,
                    cover@[key],
                    rendered->Ok_0,
                )
                &&& rendered is Ok && fetch_cover_art && !cover@.contains_key(key) ==> r
                    is AwaitCoverArt && ({
                    let p = r->AwaitCoverArt_0;
                    &&& p.release@ == release
                    &&& p.artist@ == artist
                    &&& p.details@ == rendered->Ok_0[0]
                    &&& p.state@ == rendered->Ok_0[1]
                    &&& p.subtitle@ == rendered->Ok_0[2]
                    &&& p.player_name@ == fallback
                })
            }
        }),
{
    let mut player_name = lowercase(identity);
    if status == PlaybackStatus::Stopped && show_stopped {
        return TickStep::Finished(
            Ok(
                Current {
                    release: String::new(),
                    artist: String::new(),
                    url: String::new(),
                    activity: ActivityInfo {
                        details: String::from_str("Stopped playback"),
                        state: String::new(),
                        subtitle: String::new(),
                        image: player_name,
                    },
                },
            ),
        );
    }
    if (status == PlaybackStatus::Paused && !show_paused) || status == PlaybackStatus::Stopped {
        return TickStep::Finished(Err(AppError::NoSongPlaying));
    }
    let release: String = match metadata.get("xesam:album") {
        Some(MetaValue::Str(s)) => s.clone(),
        _ => vstd::pervasive::unreached(),
    };
    let artist: String = match metadata.get("xesam:albumArtist") {
        Some(MetaValue::List(xs)) => join_with_comma(xs),
        _ => vstd::pervasive::unreached(),
    };
    if str_eq(release.as_str(), current.release.as_str())
        && str_eq(artist.as_str(), current.artist.as_str())
        && !current.activity.is_empty() {
        return TickStep::Finished(Ok(current.clone()));
    }
    let rows = match render(templates, metadata) {
        Ok(rows) => rows,
        Err(e) => {
            return TickStep::Finished(Err(e));
        },
    };
    if status == PlaybackStatus::Paused && show_paused {
        player_name.append("_paused");
    }
    if !fetch_cover_art {
        return TickStep::Finished(Ok(assemble(release, artist, player_name, &rows)));
    }
    let key = cover_art_key(release.as_str(), artist.as_str());
    if cover.has(key.as_str()) {
        let url = cover.get(key);
        return TickStep::Finished(Ok(assemble(release, artist, url, &rows)));
    }
    TickStep::AwaitCoverArt(
        PendingTick {
            release,
            artist,
            details: rows[0].clone(),
            state: rows[1].clone(),
            subtitle: rows[2].clone(),
            player_name,
        },
    )
}

/// Finishes a deferred tick once the search outcome is in: an accepted
/// identifier gives the derived URL, now cached; anything else falls back
/// to the player-derived image name, and nothing is cached.
pub fn tick_complete(pending: PendingTick, cover: &mut CoverArt, outcome: &SearchOutcome) -> (c:
    Current)
    ensures
        match accepted_id(outcome@) {
            Some(id) => {
                &&& final(cover)@ == old(cover)@.insert(
                    cover_key_spec(pending.release@, pending.artist@),
                    cover_url_spec(id),
                )
                &&& pending_assembled(c, pending, cover_url_spec(id))
            },
            None => {
                &&& final(cover)@ == old(cover)@
                &&& pending_assembled(c, pending, pending.player_name@)
            },
        },
{
    let url = match cover_art_from_search(
        cover,
        pending.release.as_str(),
        pending.artist.as_str(),
        outcome,
    ) {
        Some(u) => u,
        None => pending.player_name.clone(),
    };
    let image = url.clone();
    Current {
        release: pending.release,
        artist: pending.artist,
        url,
        activity: ActivityInfo {
            details: pending.details,
            state: pending.state,
            subtitle: pending.subtitle,
            image,
        },
    }
}

/// What one tick asks of the transport.
#[derive(Debug)]
pub enum Action {
    /// Send this payload: the derived snapshot differs from the last one.
    Broadcast(ActivityInfo),
    /// Clear the presence: the first failure after a listening tick.
    Retract,
    /// Touch nothing.
    Idle,
}

/// A retraction is due exactly when a tick fails while the engine was
/// still listening.
pub open spec fn retraction_due(listening: bool, tick_ok: bool) -> bool {
    listening && !tick_ok
}

/// The listening flag after a tick reflects that tick alone.
pub open spec fn listening_after(listening: bool, tick_ok: bool) -> bool {
    tick_ok
}

/// One retraction per failure streak: a failing tick after a listening one
/// retracts, and since listening is then off, a second consecutive failing
/// tick asks nothing of the transport.
pub proof fn lemma_retract_once(listening: bool)
    requires
        listening,
    ensures
        retraction_due(listening, false),
        !retraction_due(listening_after(listening, false), false),
{
}

/// The engine's persistent state across ticks.
#[derive(Debug)]
pub struct Engine {
    /// The snapshot of the last successful tick.
    pub current: Current,
    /// Whether the last tick succeeded, so a presence may be showing.
    pub listening: bool,
}

impl Engine {
    /// A fresh engine: not listening, with the reset snapshot.
    pub fn new() -> (e: Engine)
        ensures
            !e.listening,
            is_default_current(e.current),
    {
        Engine { current: Current::default(), listening: false }
    }

    /// Folds one tick's outcome into the state and names the transport
    /// action: broadcast on a changed identity, idle on an unchanged one,
    /// and on failure retract once, only from a listening state.
    pub fn on_tick_result(&mut self, outcome: Result<Current, AppError>) -> (a: Action)
        ensures
            final(self).listening == listening_after(old(self).listening, outcome is Ok),
            a is Retract <==> retraction_due(old(self).listening, outcome is Ok),
            outcome matches Ok(new) ==> {
                &&& !same_identity(new, old(self).current) ==> final(self).current == new
                    && a == Action::Broadcast(new.activity)
                &&& same_identity(new, old(self).current) ==> final(self).current == old(
                    self,
                ).current && a == Action::Idle
            },
            outcome is Err && old(self).listening ==> is_default_current(final(self).current)
                && a == Action::Retract,
            outcome is Err && !old(self).listening ==> final(self).current == old(self).current
                && a == Action::Idle,
    {
        match outcome {
            Ok(new) => {
                self.listening = true;
                let same = self.current == new;
                if !same {
                    let act = new.activity.clone();
                    self.current = new;
                    Action::Broadcast(act)
                } else {
                    Action::Idle
                }
            },
            Err(_) => {
                if self.listening {
                    self.listening = false;
                    self.current = Current::default();
                    Action::Retract
                } else {
                    Action::Idle
                }
            },
        }
    }
}

} // verus!
