//! The cover art resolver: a cache keyed by `release + "_" + artist`, filled
//! only by successful lookups against the release-metadata search service.
//! A well-known sentinel identifier means "no real match" and is never
//! cached, so such a pair is searched again on a later tick.

use vstd::prelude::*;
use crate::strmap::StrMap;

verus! {

/// The cache key of a (release, artist) pair.
pub open spec fn cover_key_spec(release: Seq<char>, artist: Seq<char>) -> Seq<char> {
    release + "_"@ + artist
}

/// Builds the cache key of a (release, artist) pair.
pub fn cover_art_key(release: &str, artist: &str) -> (r: String)
    ensures
        r@ == cover_key_spec(release@, artist@),
{
    let r = String::from_str(release).concat("_").concat(artist);
    proof {
        assert(r@ =~= cover_key_spec(release@, artist@));
    }
    r
}

/// The identifier the search service returns for empty or degenerate
/// queries; it marks "no real match".
pub open spec fn sentinel_id() -> Seq<char> {
    "1735e086-462e-42c3-b615-eebbd5e9f352"@
}

/// The image URL derived from a release identifier.
pub open spec fn cover_url_spec(mbid: Seq<char>) -> Seq<char> {
    "https://coverartarchive.org/release/"@ + mbid + "/front"@
}

/// Builds the image URL of a release identifier.
pub fn cover_url(mbid: &str) -> (r: String)
    ensures
        r@ == cover_url_spec(mbid@),
{
    let r = String::from_str("https://coverartarchive.org/release/").concat(mbid).concat(
        "/front",
    );
    proof {
        assert(r@ =~= cover_url_spec(mbid@));
    }
    r
}

/// The cover art cache: key to image URL, positive results only.
pub struct CoverArt {
    entries: StrMap<String>,
}

impl View for CoverArt {
    type V = Map<Seq<char>, Seq<char>>;

    closed spec fn view(&self) -> Map<Seq<char>, Seq<char>> {
        self.entries@.map_values(|s: String| s@)
    }
}

impl CoverArt {
    /// An empty cache.
    pub fn new() -> (r: CoverArt)
        ensures
            r@ == Map::<Seq<char>, Seq<char>>::empty(),
    {
        let r = CoverArt { entries: StrMap::new() };
        proof {
            assert(r@ =~= Map::<Seq<char>, Seq<char>>::empty());
        }
        r
    }

    /// Records a resolved URL for a (release, artist) pair.
    pub fn cache(&mut self, release: String, artist: String, url: String)
        ensures
            final(self)@ == old(self)@.insert(cover_key_spec(release@, artist@), url@),
    {
        let key = cover_art_key(release.as_str(), artist.as_str());
        let ghost gu = url@;
        self.entries.insert(key, url);
        proof {
            assert(self@ =~= old(self)@.insert(cover_key_spec(release@, artist@), gu));
        }
    }

    /// Whether a key is cached.
    pub fn has(&self, key: &str) -> (r: bool)
        ensures
            r == self@.contains_key(key@),
    {
        self.entries.contains(key)
    }

    /// The cached URL for a key, or the empty string when none is cached.
    pub fn get(&self, key: String) -> (r: String)
        ensures
            self@.contains_key(key@) ==> r@ == self@[key@],
            !self@.contains_key(key@) ==> r@ == Seq::<char>::empty(),
    {
        match self.entries.get(key.as_str()) {
            Some(url) => url.clone(),
            None => String::new(),
        }
    }
}

/// The outcome of one search against the release-metadata service.
#[derive(Debug)]
pub enum SearchOutcome {
    /// The search itself failed (transport or service error).
    Failed,
    /// The search succeeded with an empty result set.
    NoResults,
    /// The identifier of the first entity of a non-empty result set.
    Found(String),
}

/// The mathematical shape of a search outcome.
pub enum SearchModel {
    Failed,
    NoResults,
    Found(Seq<char>),
}

impl View for SearchOutcome {
    type V = SearchModel;

    open spec fn view(&self) -> SearchModel {
        match self {
            SearchOutcome::Failed => SearchModel::Failed,
            SearchOutcome::NoResults => SearchModel::NoResults,
            SearchOutcome::Found(id) => SearchModel::Found(id@),
        }
    }
}

/// The identifier a search outcome yields, if any: the first entity's,
/// unless it is the sentinel.
pub open spec fn accepted_id(o: SearchModel) -> Option<Seq<char>> {
    match o {
        SearchModel::Found(id) => if id == sentinel_id() {
            None
        } else {
            Some(id)
        },
        _ => None,
    }
}

/// The cached URL for a (release, artist) pair, when one is cached. A hit
/// means no search is needed for this pair.
pub fn cover_art_cached(cover: &CoverArt, release: &str, artist: &str) -> (r: Option<String>)
    ensures
        cover@.contains_key(cover_key_spec(release@, artist@)) ==> r is Some && r->Some_0@
            == cover@[cover_key_spec(release@, artist@)],
        !cover@.contains_key(cover_key_spec(release@, artist@)) ==> r is None,
{
    let key = cover_art_key(release, artist);
    if cover.has(key.as_str()) {
        Some(cover.get(key))
    } else {
        None
    }
}

/// Turns a search outcome into a resolved URL: an accepted identifier gives
/// the derived URL and is cached; the sentinel, an empty result set or a
/// failed search gives nothing and caches nothing.
pub fn cover_art_from_search(
    cover: &mut CoverArt,
    release: &str,
    artist: &str,
    outcome: &SearchOutcome,
) -> (r: Option<String>)
    ensures
        match accepted_id(outcome@) {
            Some(id) => {
                &&& r is Some
                &&& r->Some_0@ == cover_url_spec(id)
                &&& final(cover)@ == old(cover)@.insert(
                    cover_key_spec(release@, artist@),
                    cover_url_spec(id),
                )
            },
            None => {
                &&& r is None
                &&& final(cover)@ == old(cover)@
            },
        },
{
    match outcome {
        SearchOutcome::Found(id) => {
            if crate::strutil::str_eq(id.as_str(), "1735e086-462e-42c3-b615-eebbd5e9f352") {
                return None;
            }
            let url = cover_url(id.as_str());
            cover.cache(
                String::from_str(release),
                String::from_str(artist),
                url.clone(),
            );
            Some(url)
        },
        _ => None,
    }
}

/// A pair resolved successfully stays cached: after its URL is recorded,
/// the cache answers a lookup for the same pair with that URL, so no
/// further search is needed for it.
pub proof fn lemma_resolution_cached(
    before: Map<Seq<char>, Seq<char>>,
    release: Seq<char>,
    artist: Seq<char>,
    url: Seq<char>,
)
    ensures
        ({
            let after = before.insert(cover_key_spec(release, artist), url);
            &&& after.contains_key(cover_key_spec(release, artist))
            &&& after[cover_key_spec(release, artist)] == url
        }),
{
}

/// What `regex::escape` returns for a string.
pub uninterp spec fn escaped(s: Seq<char>) -> Seq<char>;

/// Relies on regex::escape: backslash-escapes every character that is
/// significant in a regular expression; a function of the input alone.
#[verifier::external_body]
fn escape_term(s: &str) -> (r: String)
    ensures
        r@ == escaped(s@),
{
    regex::escape(s)
}

/// The two search terms of a release lookup, escaped for the search
/// service's query syntax.
pub fn query_terms(release: &str, artist: &str) -> (r: (String, String))
    ensures
        r.0@ == escaped(release@),
        r.1@ == escaped(artist@),
{
    (escape_term(release), escape_term(artist))
}

} // verus!
