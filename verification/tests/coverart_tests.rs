use mpris_presence::coverart::{
    cover_art_cached, cover_art_from_search, cover_art_key, query_terms, CoverArt, SearchOutcome,
};

const SENTINEL: &str = "1735e086-462e-42c3-b615-eebbd5e9f352";

#[test]
fn key_concatenates_with_underscore() {
    assert_eq!(cover_art_key("Album", "Artist"), "Album_Artist");
}

#[test]
fn accepted_identifier_yields_url_and_caches() {
    let mut cover = CoverArt::new();
    let url = cover_art_from_search(
        &mut cover,
        "Album",
        "Artist",
        &SearchOutcome::Found("abc-123".to_string()),
    )
    .unwrap();
    assert_eq!(url, "https://coverartarchive.org/release/abc-123/front");
    assert!(cover.has("Album_Artist"));
    assert_eq!(cover.get("Album_Artist".to_string()), url);
}

#[test]
fn resolved_pair_is_answered_from_cache() {
    // A successful resolution is cached: the next lookup for the same pair
    // returns the identical URL, so no second search is issued for it.
    let mut cover = CoverArt::new();
    assert_eq!(cover_art_cached(&cover, "Album", "Artist"), None);
    let url = cover_art_from_search(
        &mut cover,
        "Album",
        "Artist",
        &SearchOutcome::Found("abc-123".to_string()),
    )
    .unwrap();
    assert_eq!(cover_art_cached(&cover, "Album", "Artist"), Some(url));
}

#[test]
fn sentinel_identifier_is_not_found_and_not_cached() {
    let mut cover = CoverArt::new();
    let r = cover_art_from_search(
        &mut cover,
        "Album",
        "Artist",
        &SearchOutcome::Found(SENTINEL.to_string()),
    );
    assert_eq!(r, None);
    assert!(!cover.has("Album_Artist"));
    assert_eq!(cover.get("Album_Artist".to_string()), "");
}

#[test]
fn empty_result_set_and_failed_search_resolve_nothing() {
    let mut cover = CoverArt::new();
    assert_eq!(cover_art_from_search(&mut cover, "A", "B", &SearchOutcome::NoResults), None);
    assert_eq!(cover_art_from_search(&mut cover, "A", "B", &SearchOutcome::Failed), None);
    assert!(!cover.has("A_B"));
}

#[test]
fn later_resolution_replaces_cached_url() {
    let mut cover = CoverArt::new();
    cover.cache("A".to_string(), "B".to_string(), "u1".to_string());
    cover.cache("A".to_string(), "B".to_string(), "u2".to_string());
    assert_eq!(cover.get("A_B".to_string()), "u2");
}

#[test]
fn query_terms_escape_meta_characters() {
    let (release, artist) = query_terms("a{b", "c.d");
    assert_eq!(release, "a\\{b");
    assert_eq!(artist, "c\\.d");
    let (plain_release, plain_artist) = query_terms("Plain Album", "Plain Artist");
    assert_eq!(plain_release, "Plain Album");
    assert_eq!(plain_artist, "Plain Artist");
}
