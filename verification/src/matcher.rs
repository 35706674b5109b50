//! The resource matcher: given the metadata of a track or album in one
//! catalog, decide which candidate of another catalog is the same
//! resource.
//!
//! Identifier-based evidence (barcodes for albums, ISRCs for tracks) is
//! trusted unconditionally over fuzzy evidence (normalized titles and
//! durations). Strategies are tried in a fixed order and the first
//! success wins.

use vstd::prelude::*;
use vstd::string::StringExecFns;

use crate::normalize::{normalize_track_name, spec_normalize};

verus! {

/// Milliseconds two track durations may differ and still count as equal.
pub const DURATION_TOLERANCE_MS: u64 = 2000;

/// Album metadata hydrated from the source catalog. Identifier fields
/// hold the empty string when the catalog did not supply a value.
#[derive(Clone)]
pub struct AlbumMeta {
    /// Native id in the source catalog.
    pub id: String,
    pub title: String,
    /// Primary artist name; empty when unknown.
    pub artist: String,
    /// Universal product code; empty when absent.
    pub upc: String,
    /// European article number; empty when absent.
    pub ean: String,
}

/// An album returned by a search of the target catalog.
#[derive(Clone)]
pub struct AlbumCandidate {
    /// Native id in the target catalog.
    pub id: String,
    pub title: String,
    /// The candidate's barcode; empty when absent.
    pub barcode: String,
}

/// Track metadata hydrated from the source catalog.
#[derive(Clone)]
pub struct TrackMeta {
    /// Native id in the source catalog.
    pub id: String,
    pub title: String,
    /// Primary artist name; empty when unknown.
    pub artist: String,
    /// International standard recording code; empty when absent.
    pub isrc: String,
    /// Duration in milliseconds; `None` when the catalog gave none.
    pub duration_ms: Option<u64>,
    /// The parent album, used for album-scoped resolution.
    pub album: AlbumMeta,
}

/// A track returned by a search or an album listing of the target catalog.
#[derive(Clone)]
pub struct TrackCandidate {
    /// Native id in the target catalog.
    pub id: String,
    pub title: String,
    /// International standard recording code; empty when absent.
    pub isrc: String,
    /// Duration in milliseconds; `None` when unknown or unparsable.
    pub duration_ms: Option<u64>,
}

/// A non-empty barcode of the source album equals the candidate's barcode.
pub open spec fn spec_barcode_match(a: AlbumMeta, c: AlbumCandidate) -> bool {
    ||| (a.upc@.len() > 0 && a.upc@ == c.barcode@)
    ||| (a.ean@.len() > 0 && a.ean@ == c.barcode@)
}

/// The album match predicate: a matching barcode is authoritative;
/// otherwise the normalized titles must be equal.
pub open spec fn spec_album_matches(a: AlbumMeta, c: AlbumCandidate) -> bool {
    ||| spec_barcode_match(a, c)
    ||| spec_normalize(a.title@) == spec_normalize(c.title@)
}

/// Both sides carry the same non-empty ISRC.
pub open spec fn spec_isrc_match(t: TrackMeta, c: TrackCandidate) -> bool {
    t.isrc@.len() > 0 && t.isrc@ == c.isrc@
}

/// Both durations are known and differ by at most the tolerance.
pub open spec fn spec_duration_close(a: Option<u64>, b: Option<u64>) -> bool {
    match (a, b) {
        (Some(x), Some(y)) => (x >= y && x - y <= DURATION_TOLERANCE_MS) || (y >= x && y - x
            <= DURATION_TOLERANCE_MS),
        _ => false,
    }
}

/// The track match predicate: a shared ISRC is authoritative; otherwise
/// the durations must be close and the normalized titles equal. Duration
/// alone never suffices, and neither does the title alone.
pub open spec fn spec_track_matches(t: TrackMeta, c: TrackCandidate) -> bool {
    ||| spec_isrc_match(t, c)
    ||| (spec_duration_close(t.duration_ms, c.duration_ms) && spec_normalize(t.title@)
        == spec_normalize(c.title@))
}

/// Decides whether the source album `a` and the candidate `c` denote the
/// same album.
pub fn album_matches(a: &AlbumMeta, c: &AlbumCandidate) -> (r: bool)
    ensures
        r == spec_album_matches(*a, *c),
{
    let upc_matches = !a.upc.as_str().is_empty() && a.upc == c.barcode;
    let ean_matches = !a.ean.as_str().is_empty() && a.ean == c.barcode;
    if upc_matches || ean_matches {
        true
    } else {
        normalize_track_name(a.title.clone()) == normalize_track_name(c.title.clone())
    }
}

/// Decides whether the source track `t` and the candidate `c` denote the
/// same recording.
pub fn track_matches(t: &TrackMeta, c: &TrackCandidate) -> (r: bool)
    ensures
        r == spec_track_matches(*t, *c),
{
    if !t.isrc.as_str().is_empty() && t.isrc == c.isrc {
        return true;
    }
    let close = match (t.duration_ms, c.duration_ms) {
        (Some(x), Some(y)) => {
            if x >= y {
                x - y <= DURATION_TOLERANCE_MS
            } else {
                y - x <= DURATION_TOLERANCE_MS
            }
        },
        _ => false,
    };
    close && normalize_track_name(t.title.clone()) == normalize_track_name(c.title.clone())
}

/// A shared, non-empty ISRC decides a track match by itself, whatever the
/// titles and durations say.
pub proof fn track_match_by_isrc(t: TrackMeta, c: TrackCandidate)
    requires
        t.isrc@.len() > 0,
        t.isrc@ == c.isrc@,
    ensures
        spec_track_matches(t, c),
{
}

/// Without an ISRC on the source side, durations farther apart than the
/// tolerance rule a match out, even for identical titles.
pub proof fn track_match_needs_close_duration(t: TrackMeta, c: TrackCandidate)
    requires
        t.isrc@.len() == 0,
        !spec_duration_close(t.duration_ms, c.duration_ms),
    ensures
        !spec_track_matches(t, c),
{
}

/// Without an ISRC, close durations together with equal normalized titles
/// always give a match.
pub proof fn track_match_by_duration_and_title(t: TrackMeta, c: TrackCandidate)
    requires
        spec_duration_close(t.duration_ms, c.duration_ms),
        spec_normalize(t.title@) == spec_normalize(c.title@),
    ensures
        spec_track_matches(t, c),
{
}

/// A matching barcode decides an album match by itself, whatever the
/// titles say.
pub proof fn album_match_by_barcode(a: AlbumMeta, c: AlbumCandidate)
    requires
        spec_barcode_match(a, c),
    ensures
        spec_album_matches(a, c),
{
}

/// With an absent or mismatched barcode, an album match is exactly
/// equality of the normalized titles.
pub proof fn album_match_without_barcode(a: AlbumMeta, c: AlbumCandidate)
    requires
        !spec_barcode_match(a, c),
    ensures
        spec_album_matches(a, c) == (spec_normalize(a.title@) == spec_normalize(c.title@)),
{
}

/// Index of the first candidate from position `i` on that matches the
/// source album, if any.
pub open spec fn spec_select_album(a: AlbumMeta, cands: Seq<AlbumCandidate>, i: int) -> Option<int>
    decreases cands.len() - i,
{
    if i < 0 || i >= cands.len() {
        None
    } else if spec_album_matches(a, cands[i]) {
        Some(i)
    } else {
        spec_select_album(a, cands, i + 1)
    }
}

/// Index of the first candidate from position `i` on that matches the
/// source track, if any.
pub open spec fn spec_select_track(t: TrackMeta, cands: Seq<TrackCandidate>, i: int) -> Option<int>
    decreases cands.len() - i,
{
    if i < 0 || i >= cands.len() {
        None
    } else if spec_track_matches(t, cands[i]) {
        Some(i)
    } else {
        spec_select_track(t, cands, i + 1)
    }
}

/// The selected index is the first match: everything before it fails the
/// predicate, and `None` means nothing matches.
pub proof fn lemma_select_album_first(a: AlbumMeta, cands: Seq<AlbumCandidate>, i: int)
    requires
        0 <= i <= cands.len(),
    ensures
        match spec_select_album(a, cands, i) {
            Some(k) => i <= k < cands.len() && spec_album_matches(a, cands[k]) && forall|j: int|
                i <= j < k ==> !spec_album_matches(a, cands[j]),
            None => forall|j: int| i <= j < cands.len() ==> !spec_album_matches(a, cands[j]),
        },
    decreases cands.len() - i,
{
    if i < cands.len() && !spec_album_matches(a, cands[i]) {
        lemma_select_album_first(a, cands, i + 1);
    }
}

/// The selected index is the first match: everything before it fails the
/// predicate, and `None` means nothing matches.
pub proof fn lemma_select_track_first(t: TrackMeta, cands: Seq<TrackCandidate>, i: int)
    requires
        0 <= i <= cands.len(),
    ensures
        match spec_select_track(t, cands, i) {
            Some(k) => i <= k < cands.len() && spec_track_matches(t, cands[k]) && forall|j: int|
                i <= j < k ==> !spec_track_matches(t, cands[j]),
            None => forall|j: int| i <= j < cands.len() ==> !spec_track_matches(t, cands[j]),
        },
    decreases cands.len() - i,
{
    if i < cands.len() && !spec_track_matches(t, cands[i]) {
        lemma_select_track_first(t, cands, i + 1);
    }
}

/// Finds the first album candidate that matches the source album.
pub fn select_album(a: &AlbumMeta, cands: &Vec<AlbumCandidate>) -> (r: Option<usize>)
    ensures
        match r {
            Some(i) => i < cands@.len() && spec_select_album(*a, cands@, 0) == Some(i as int),
            None => spec_select_album(*a, cands@, 0) is None,
        },
{
    let mut i: usize = 0;
    while i < cands.len()
        invariant
            i <= cands@.len(),
            spec_select_album(*a, cands@, 0) == spec_select_album(*a, cands@, i as int),
        decreases cands@.len() - i,
    {
        if album_matches(a, &cands[i]) {
            return Some(i);
        }
        i = i + 1;
    }
    None
}

/// Finds the first track candidate that matches the source track.
pub fn select_track(t: &TrackMeta, cands: &Vec<TrackCandidate>) -> (r: Option<usize>)
    ensures
        match r {
            Some(i) => i < cands@.len() && spec_select_track(*t, cands@, 0) == Some(i as int),
            None => spec_select_track(*t, cands@, 0) is None,
        },
{
    let mut i: usize = 0;
    while i < cands.len()
        invariant
            i <= cands@.len(),
            spec_select_track(*t, cands@, 0) == spec_select_track(*t, cands@, i as int),
        decreases cands@.len() - i,
    {
        if track_matches(t, &cands[i]) {
            return Some(i);
        }
        i = i + 1;
    }
    None
}

/// The query sent to the target catalog's album search: the album title,
/// optionally followed by the primary artist.
pub fn album_query(a: &AlbumMeta, with_artist: bool) -> (q: String)
    ensures
        with_artist ==> q@ == a.title@ + " "@ + a.artist@,
        !with_artist ==> q@ == a.title@,
{
    if with_artist {
        a.title.clone().concat(" ").concat(a.artist.as_str())
    } else {
        a.title.clone()
    }
}

/// The query sent to the target catalog's track search: the track title
/// followed by the primary artist.
pub fn track_query(t: &TrackMeta) -> (q: String)
    ensures
        q@ == t.title@ + " "@ + t.artist@,
{
    t.title.clone().concat(" ").concat(t.artist.as_str())
}

/// Outcome of one round of album search results.
pub enum AlbumSearchOutcome {
    /// A candidate matched; its native id in the target catalog.
    Matched(String),
    /// Nothing matched the artist-qualified query; search again with the
    /// title alone.
    RetryWithoutArtist,
    /// Nothing matched either query.
    NoMatch,
}

/// Processes the results of one album search. Called first with
/// `with_artist` set; when that round matches nothing, the caller
/// searches again with the bare title and calls this with `with_artist`
/// cleared.
pub fn album_search_step(a: &AlbumMeta, with_artist: bool, results: &Vec<AlbumCandidate>) -> (r:
    AlbumSearchOutcome)
    ensures
        match spec_select_album(*a, results@, 0) {
            Some(i) => r == AlbumSearchOutcome::Matched(results@[i].id),
            None => r == (if with_artist {
                AlbumSearchOutcome::RetryWithoutArtist
            } else {
                AlbumSearchOutcome::NoMatch
            }),
        },
{
    match select_album(a, results) {
        Some(i) => AlbumSearchOutcome::Matched(results[i].id.clone()),
        None => {
            if with_artist {
                AlbumSearchOutcome::RetryWithoutArtist
            } else {
                AlbumSearchOutcome::NoMatch
            }
        },
    }
}

/// State of the track matching strategy, advanced by the caller as
/// search results of the target catalog come in.
pub enum TrackMatchState {
    /// Search albums with "{album title} {artist}".
    AlbumSearch,
    /// The artist-qualified album search matched nothing: search albums
    /// with the album title alone.
    AlbumSearchTitleOnly,
    /// An album matched: list its tracks and look for the track there.
    AlbumTracks(String),
    /// Album-scoped resolution failed: search tracks directly with
    /// "{track title} {artist}".
    TrackSearch,
    /// The strategies are exhausted; the match result, if any.
    Finished(Option<String>),
}

/// What the caller must do next to advance a track match.
pub enum TrackMatchAction {
    /// Run an album search with this query and report the results.
    SearchAlbums(String),
    /// List the tracks of this album of the target catalog and report them.
    ListAlbumTracks(String),
    /// Run a track search with this query and report the results.
    SearchTracks(String),
    /// Matching has finished with this result.
    Finish(Option<String>),
}

/// The initial state of a track match.
pub fn track_match_start() -> (s: TrackMatchState)
    ensures
        s == TrackMatchState::AlbumSearch,
{
    TrackMatchState::AlbumSearch
}

/// The action the caller must perform in state `s` for source track `t`.
pub fn track_match_action(s: &TrackMatchState, t: &TrackMeta) -> (a: TrackMatchAction)
    ensures
        match *s {
            TrackMatchState::AlbumSearch => a matches TrackMatchAction::SearchAlbums(q) && q@
                == t.album.title@ + " "@ + t.artist@,
            TrackMatchState::AlbumSearchTitleOnly => a matches TrackMatchAction::SearchAlbums(q)
                && q@ == t.album.title@,
            TrackMatchState::AlbumTracks(id) => a == TrackMatchAction::ListAlbumTracks(id),
            TrackMatchState::TrackSearch => a matches TrackMatchAction::SearchTracks(q) && q@
                == t.title@ + " "@ + t.artist@,
            TrackMatchState::Finished(r) => a == TrackMatchAction::Finish(r),
        },
{
    match s {
        TrackMatchState::AlbumSearch => TrackMatchAction::SearchAlbums(
            t.album.title.clone().concat(" ").concat(t.artist.as_str()),
        ),
        TrackMatchState::AlbumSearchTitleOnly => TrackMatchAction::SearchAlbums(
            t.album.title.clone(),
        ),
        TrackMatchState::AlbumTracks(id) => TrackMatchAction::ListAlbumTracks(id.clone()),
        TrackMatchState::TrackSearch => TrackMatchAction::SearchTracks(
            t.title.clone().concat(" ").concat(t.artist.as_str()),
        ),
        TrackMatchState::Finished(r) => TrackMatchAction::Finish(
            match r {
                Some(x) => Some(x.clone()),
                None => None,
            },
        ),
    }
}

/// Advances a track match on the results of an album search. The first
/// matching album is listed next; with no match, an artist-qualified
/// search falls back to the bare album title, and a bare search falls
/// back to the direct track search.
pub fn track_match_on_albums(s: TrackMatchState, t: &TrackMeta, results: &Vec<AlbumCandidate>) -> (
    next: TrackMatchState)
    requires
        s is AlbumSearch || s is AlbumSearchTitleOnly,
    ensures
        next == (match spec_select_album(t.album, results@, 0) {
            Some(i) => TrackMatchState::AlbumTracks(results@[i].id),
            None => {
                if s is AlbumSearch {
                    TrackMatchState::AlbumSearchTitleOnly
                } else {
                    TrackMatchState::TrackSearch
                }
            },
        }),
{
    match select_album(&t.album, results) {
        Some(i) => TrackMatchState::AlbumTracks(results[i].id.clone()),
        None => {
            match s {
                TrackMatchState::AlbumSearch => TrackMatchState::AlbumSearchTitleOnly,
                _ => TrackMatchState::TrackSearch,
            }
        },
    }
}

/// Advances a track match on a list of track candidates: the tracks of
/// the matched album, or the results of the direct track search. The
/// first matching track finishes the match; with no match, an album
/// listing falls back to the direct track search, and a direct search
/// finishes with no result.
pub fn track_match_on_tracks(s: TrackMatchState, t: &TrackMeta, results: &Vec<TrackCandidate>) -> (
    next: TrackMatchState)
    requires
        s is AlbumTracks || s is TrackSearch,
    ensures
        next == (match spec_select_track(*t, results@, 0) {
            Some(i) => TrackMatchState::Finished(Some(results@[i].id)),
            None => {
                if s is AlbumTracks {
                    TrackMatchState::TrackSearch
                } else {
                    TrackMatchState::Finished(None::<String>)
                }
            },
        }),
{
    match select_track(t, results) {
        Some(i) => TrackMatchState::Finished(Some(results[i].id.clone())),
        None => {
            match s {
                TrackMatchState::AlbumTracks(_) => TrackMatchState::TrackSearch,
                _ => TrackMatchState::Finished(None),
            }
        },
    }
}

} // verus!
