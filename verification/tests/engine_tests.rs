use mpris_presence::activity::{ActivityInfo, Current};
use mpris_presence::coverart::{CoverArt, SearchOutcome};
use mpris_presence::engine::{
    select_player, tick_complete, tick_prepare, Action, Engine, PlaybackStatus, TickStep,
};
use mpris_presence::errors::AppError;
use mpris_presence::metadata::{MetaValue, Metadata};

fn playing_metadata() -> Metadata {
    let mut m = Metadata::new();
    m.insert("xesam:album".to_string(), MetaValue::Str("Album".to_string()));
    m.insert(
        "xesam:albumArtist".to_string(),
        MetaValue::List(vec!["Artist".to_string(), "Guest".to_string()]),
    );
    m.insert("xesam:title".to_string(), MetaValue::Str("Song".to_string()));
    m
}

fn rows() -> Vec<String> {
    vec!["{title}".to_string(), "by {album}".to_string()]
}

#[test]
fn first_unignored_player_is_selected() {
    let identities = vec!["kdeconnect".to_string(), "mpv".to_string(), "vlc".to_string()];
    let ignored = vec!["kdeconnect".to_string()];
    assert_eq!(select_player(&identities, &ignored).unwrap(), 1);
    assert_eq!(select_player(&identities, &Vec::new()).unwrap(), 0);
}

#[test]
fn all_players_ignored_fails_the_tick() {
    let identities = vec!["mpv".to_string()];
    let ignored = vec!["mpv".to_string()];
    assert_eq!(select_player(&identities, &ignored).unwrap_err(), AppError::NoActivePlayers);
    assert_eq!(select_player(&Vec::new(), &ignored).unwrap_err(), AppError::NoActivePlayers);
}

#[test]
fn stopped_and_shown_emits_fixed_message() {
    // The stopped presence bypasses templates and cover art entirely: the
    // metadata is empty and the templates reference nothing resolvable.
    let metadata = Metadata::new();
    let templates = vec!["{missing}".to_string()];
    let current = Current::default();
    let cover = CoverArt::new();
    let step = tick_prepare(
        "MyPlayer",
        PlaybackStatus::Stopped,
        &metadata,
        false,
        true,
        &templates,
        true,
        &current,
        &cover,
    );
    match step {
        TickStep::Finished(Ok(c)) => {
            assert_eq!(c.activity.details, "Stopped playback");
            assert_eq!(c.activity.state, "");
            assert_eq!(c.activity.subtitle, "");
            assert_eq!(c.activity.image, "myplayer");
            assert_eq!(c.release, "");
            assert_eq!(c.artist, "");
            assert_eq!(c.url, "");
        },
        _ => panic!("expected the fixed stopped presence"),
    }
}

#[test]
fn hidden_pause_and_stop_fail_with_no_song() {
    let metadata = Metadata::new();
    let templates = Vec::new();
    let current = Current::default();
    let cover = CoverArt::new();
    let step = tick_prepare(
        "P",
        PlaybackStatus::Paused,
        &metadata,
        false,
        false,
        &templates,
        false,
        &current,
        &cover,
    );
    assert!(matches!(step, TickStep::Finished(Err(AppError::NoSongPlaying))));
    let step = tick_prepare(
        "P",
        PlaybackStatus::Stopped,
        &metadata,
        true,
        false,
        &templates,
        false,
        &current,
        &cover,
    );
    assert!(matches!(step, TickStep::Finished(Err(AppError::NoSongPlaying))));
}

#[test]
fn playing_tick_assembles_rows_and_fallback_image() {
    let metadata = playing_metadata();
    let current = Current::default();
    let cover = CoverArt::new();
    let step = tick_prepare(
        "MyPlayer",
        PlaybackStatus::Playing,
        &metadata,
        false,
        false,
        &rows(),
        false,
        &current,
        &cover,
    );
    match step {
        TickStep::Finished(Ok(c)) => {
            assert_eq!(c.release, "Album");
            assert_eq!(c.artist, "Artist, Guest");
            assert_eq!(c.url, "myplayer");
            assert_eq!(c.activity.details, "Song");
            assert_eq!(c.activity.state, "by Album");
            assert_eq!(c.activity.subtitle, "");
            assert_eq!(c.activity.image, "myplayer");
        },
        _ => panic!("expected a finished snapshot"),
    }
}

#[test]
fn shown_pause_suffixes_the_player_image() {
    let metadata = playing_metadata();
    let current = Current::default();
    let cover = CoverArt::new();
    let step = tick_prepare(
        "MyPlayer",
        PlaybackStatus::Paused,
        &metadata,
        true,
        false,
        &rows(),
        false,
        &current,
        &cover,
    );
    match step {
        TickStep::Finished(Ok(c)) => {
            assert_eq!(c.url, "myplayer_paused");
            assert_eq!(c.activity.image, "myplayer_paused");
        },
        _ => panic!("expected a finished snapshot"),
    }
}

#[test]
fn unchanged_song_returns_stored_snapshot_untouched() {
    // The dedupe path must not re-render or re-resolve: the templates here
    // would fail a render, and the cover cache is empty, yet the stored
    // snapshot comes back as it was.
    let metadata = playing_metadata();
    let templates = vec!["{missing}".to_string()];
    let stored = Current {
        release: "Album".to_string(),
        artist: "Artist, Guest".to_string(),
        url: "old-url".to_string(),
        activity: ActivityInfo {
            details: "old details".to_string(),
            state: "old state".to_string(),
            subtitle: "old subtitle".to_string(),
            image: "old-url".to_string(),
        },
    };
    let cover = CoverArt::new();
    let step = tick_prepare(
        "MyPlayer",
        PlaybackStatus::Playing,
        &metadata,
        false,
        false,
        &templates,
        true,
        &stored,
        &cover,
    );
    match step {
        TickStep::Finished(Ok(c)) => {
            assert_eq!(c.release, "Album");
            assert_eq!(c.artist, "Artist, Guest");
            assert_eq!(c.url, "old-url");
            assert_eq!(c.activity.details, "old details");
            assert_eq!(c.activity.state, "old state");
            assert_eq!(c.activity.subtitle, "old subtitle");
            assert_eq!(c.activity.image, "old-url");
        },
        _ => panic!("expected the stored snapshot unchanged"),
    }
}

#[test]
fn empty_stored_activity_forces_rederivation() {
    let metadata = playing_metadata();
    let stored = Current {
        release: "Album".to_string(),
        artist: "Artist, Guest".to_string(),
        url: "old-url".to_string(),
        activity: ActivityInfo {
            details: String::new(),
            state: String::new(),
            subtitle: String::new(),
            image: String::new(),
        },
    };
    let cover = CoverArt::new();
    let step = tick_prepare(
        "MyPlayer",
        PlaybackStatus::Playing,
        &metadata,
        false,
        false,
        &rows(),
        false,
        &stored,
        &cover,
    );
    match step {
        TickStep::Finished(Ok(c)) => {
            assert_eq!(c.activity.details, "Song");
            assert_eq!(c.url, "myplayer");
        },
        _ => panic!("expected a rebuilt snapshot"),
    }
}

#[test]
fn render_failure_aborts_the_tick() {
    let metadata = playing_metadata();
    let templates = vec!["{missing}".to_string()];
    let current = Current::default();
    let cover = CoverArt::new();
    let step = tick_prepare(
        "MyPlayer",
        PlaybackStatus::Playing,
        &metadata,
        false,
        false,
        &templates,
        false,
        &current,
        &cover,
    );
    assert!(matches!(
        step,
        TickStep::Finished(Err(AppError::FieldNotFound(f))) if f == "missing"
    ));
}

#[test]
fn cached_cover_art_needs_no_search() {
    let metadata = playing_metadata();
    let current = Current::default();
    let mut cover = CoverArt::new();
    cover.cache(
        "Album".to_string(),
        "Artist, Guest".to_string(),
        "https://coverartarchive.org/release/zzz/front".to_string(),
    );
    let step = tick_prepare(
        "MyPlayer",
        PlaybackStatus::Playing,
        &metadata,
        false,
        false,
        &rows(),
        true,
        &current,
        &cover,
    );
    match step {
        TickStep::Finished(Ok(c)) => {
            assert_eq!(c.url, "https://coverartarchive.org/release/zzz/front");
            assert_eq!(c.activity.image, "https://coverartarchive.org/release/zzz/front");
        },
        _ => panic!("expected a finished snapshot from the cache"),
    }
}

#[test]
fn cache_miss_defers_to_the_search() {
    let metadata = playing_metadata();
    let current = Current::default();
    let mut cover = CoverArt::new();
    let step = tick_prepare(
        "MyPlayer",
        PlaybackStatus::Playing,
        &metadata,
        false,
        false,
        &rows(),
        true,
        &current,
        &cover,
    );
    let pending = match step {
        TickStep::AwaitCoverArt(p) => p,
        _ => panic!("expected a deferred tick"),
    };
    assert_eq!(pending.release, "Album");
    assert_eq!(pending.artist, "Artist, Guest");
    assert_eq!(pending.details, "Song");
    assert_eq!(pending.state, "by Album");
    assert_eq!(pending.subtitle, "");
    assert_eq!(pending.player_name, "myplayer");
    let c = tick_complete(pending, &mut cover, &SearchOutcome::Found("abc".to_string()));
    assert_eq!(c.url, "https://coverartarchive.org/release/abc/front");
    assert_eq!(c.activity.image, "https://coverartarchive.org/release/abc/front");
    assert_eq!(c.activity.details, "Song");
    assert!(cover.has("Album_Artist, Guest"));
}

#[test]
fn failed_search_falls_back_to_player_image() {
    let metadata = playing_metadata();
    let current = Current::default();
    let mut cover = CoverArt::new();
    let step = tick_prepare(
        "MyPlayer",
        PlaybackStatus::Playing,
        &metadata,
        false,
        false,
        &rows(),
        true,
        &current,
        &cover,
    );
    let pending = match step {
        TickStep::AwaitCoverArt(p) => p,
        _ => panic!("expected a deferred tick"),
    };
    let c = tick_complete(pending, &mut cover, &SearchOutcome::Failed);
    assert_eq!(c.url, "myplayer");
    assert_eq!(c.activity.image, "myplayer");
    assert!(!cover.has("Album_Artist, Guest"));
}

fn snapshot(release: &str, url: &str) -> Current {
    Current {
        release: release.to_string(),
        artist: "Artist".to_string(),
        url: url.to_string(),
        activity: ActivityInfo {
            details: "d".to_string(),
            state: "s".to_string(),
            subtitle: "t".to_string(),
            image: url.to_string(),
        },
    }
}

#[test]
fn changed_snapshot_broadcasts_and_unchanged_stays_idle() {
    let mut engine = Engine::new();
    let a = engine.on_tick_result(Ok(snapshot("Album", "u1")));
    match a {
        Action::Broadcast(act) => assert_eq!(act.details, "d"),
        _ => panic!("expected a broadcast"),
    }
    assert!(engine.listening);
    // The same identity again: no transport work.
    let a = engine.on_tick_result(Ok(snapshot("Album", "u1")));
    assert!(matches!(a, Action::Idle));
    // A different release: broadcast again.
    let a = engine.on_tick_result(Ok(snapshot("Other", "u1")));
    assert!(matches!(a, Action::Broadcast(_)));
}

#[test]
fn equality_of_snapshots_ignores_the_payload() {
    let mut a = snapshot("Album", "u1");
    let b = snapshot("Album", "u1");
    a.activity.details = "something else".to_string();
    assert!(a == b);
    let c = snapshot("Album", "u2");
    assert!(a != c);
}

#[test]
fn one_retraction_per_failure_streak() {
    let mut engine = Engine::new();
    // Failures before anything was shown touch nothing.
    let a = engine.on_tick_result(Err(AppError::NoActivePlayers));
    assert!(matches!(a, Action::Idle));
    // A successful tick, then a failing one: exactly one retraction.
    let a = engine.on_tick_result(Ok(snapshot("Album", "u1")));
    assert!(matches!(a, Action::Broadcast(_)));
    let a = engine.on_tick_result(Err(AppError::NoSongPlaying));
    assert!(matches!(a, Action::Retract));
    assert!(!engine.listening);
    assert_eq!(engine.current.release, "");
    // A second consecutive failure asks nothing of the transport.
    let a = engine.on_tick_result(Err(AppError::NoSongPlaying));
    assert!(matches!(a, Action::Idle));
}

#[test]
fn retraction_resets_the_snapshot_so_the_same_song_rebroadcasts() {
    let mut engine = Engine::new();
    let a = engine.on_tick_result(Ok(snapshot("Album", "u1")));
    assert!(matches!(a, Action::Broadcast(_)));
    let a = engine.on_tick_result(Err(AppError::NoSongPlaying));
    assert!(matches!(a, Action::Retract));
    let a = engine.on_tick_result(Ok(snapshot("Album", "u1")));
    assert!(matches!(a, Action::Broadcast(_)));
}

#[test]
fn activity_emptiness_needs_all_four_rows_empty() {
    let empty = ActivityInfo {
        details: String::new(),
        state: String::new(),
        subtitle: String::new(),
        image: String::new(),
    };
    assert!(empty.is_empty());
    let with_image = ActivityInfo { image: "x".to_string(), ..empty };
    assert!(!with_image.is_empty());
}
