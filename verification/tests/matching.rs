//! The matching predicates and the strategy order of the matcher.

use spootifer::matcher::{
    AlbumCandidate, AlbumMeta, AlbumSearchOutcome, TrackCandidate, TrackMatchAction,
    TrackMatchState, TrackMeta, album_matches, album_query, album_search_step, select_album,
    select_track, track_match_action, track_match_on_albums, track_match_on_tracks,
    track_match_start, track_matches, track_query,
};
use spootifer::normalize::normalize_track_name;
use spootifer::tidal::track_candidate_from_tidal;

fn album(title: &str, artist: &str, upc: &str, ean: &str) -> AlbumMeta {
    AlbumMeta {
        id: "src-album".to_string(),
        title: title.to_string(),
        artist: artist.to_string(),
        upc: upc.to_string(),
        ean: ean.to_string(),
    }
}

fn album_cand(id: &str, title: &str, barcode: &str) -> AlbumCandidate {
    AlbumCandidate { id: id.to_string(), title: title.to_string(), barcode: barcode.to_string() }
}

fn track(title: &str, isrc: &str, duration_ms: Option<u64>) -> TrackMeta {
    TrackMeta {
        id: "src-track".to_string(),
        title: title.to_string(),
        artist: "Artist".to_string(),
        isrc: isrc.to_string(),
        duration_ms,
        album: album("Album", "Artist", "", ""),
    }
}

fn track_cand(id: &str, title: &str, isrc: &str, duration_ms: Option<u64>) -> TrackCandidate {
    TrackCandidate {
        id: id.to_string(),
        title: title.to_string(),
        isrc: isrc.to_string(),
        duration_ms,
    }
}

#[test]
fn normalize_absorbs_punctuation_styles() {
    assert_eq!(normalize_track_name("Song - Remastered".to_string()), "Song Remastered");
    assert_eq!(normalize_track_name("Song (Remastered)".to_string()), "Song Remastered");
    assert_eq!(normalize_track_name("a  -  b".to_string()), "a b");
}

#[test]
fn normalize_keeps_multibyte_characters() {
    assert_eq!(normalize_track_name("Café - Live".to_string()), "Café Live");
}

#[test]
fn normalize_is_idempotent_on_samples() {
    for s in ["Song - Live", "  a  (b)  - c ", "plain", "", "---"] {
        let once = normalize_track_name(s.to_string());
        let twice = normalize_track_name(once.clone());
        assert_eq!(once, twice, "not idempotent for {:?}", s);
    }
}

#[test]
fn identical_isrc_matches_despite_title_and_duration_skew() {
    // catalog A: "Song - Live", 200000 ms; catalog B: "Song (Live)", 201200 ms
    let t = track("Song - Live", "US123", Some(200_000));
    let c = track_cand("b1", "Totally Different", "US123", Some(900_000));
    assert!(track_matches(&t, &c));
}

#[test]
fn without_isrc_distant_durations_never_match() {
    let t = track("Song", "", Some(200_000));
    let c = track_cand("b1", "Song", "", Some(203_500));
    assert!(!track_matches(&t, &c));
}

#[test]
fn without_isrc_close_duration_and_equal_titles_match() {
    let t = track("Song - Live", "", Some(200_000));
    let c = track_cand("b1", "Song (Live)", "", Some(201_200));
    assert!(track_matches(&t, &c));
    // the tolerance is inclusive at two seconds
    let edge = track_cand("b2", "Song (Live)", "", Some(202_000));
    assert!(track_matches(&t, &edge));
    let past = track_cand("b3", "Song (Live)", "", Some(202_001));
    assert!(!track_matches(&t, &past));
}

#[test]
fn duration_alone_or_title_alone_is_never_enough() {
    let t = track("Song", "", Some(200_000));
    let same_duration_other_title = track_cand("b1", "Other", "", Some(200_000));
    assert!(!track_matches(&t, &same_duration_other_title));
    let same_title_no_duration = track_cand("b2", "Song", "", None);
    assert!(!track_matches(&t, &same_title_no_duration));
    let no_source_duration = track("Song", "", None);
    let c = track_cand("b3", "Song", "", Some(200_000));
    assert!(!track_matches(&no_source_duration, &c));
}

#[test]
fn empty_isrc_on_both_sides_is_no_evidence() {
    let t = track("One", "", Some(100_000));
    let c = track_cand("b1", "Two", "", Some(500_000));
    assert!(!track_matches(&t, &c));
}

#[test]
fn matching_barcode_decides_album_match_alone() {
    let a = album("Completely Different", "X", "886443919", "");
    let c = album_cand("b1", "Other Title", "886443919");
    assert!(album_matches(&a, &c));
    let via_ean = album("Completely Different", "X", "", "4006408113621");
    let c2 = album_cand("b2", "Other Title", "4006408113621");
    assert!(album_matches(&via_ean, &c2));
}

#[test]
fn absent_or_mismatched_barcode_falls_back_to_titles() {
    let a = album("Album - Deluxe", "X", "", "");
    let same_title = album_cand("b1", "Album (Deluxe)", "999");
    assert!(album_matches(&a, &same_title));
    let mismatch = album("Album", "X", "111", "");
    let other = album_cand("b2", "Other", "222");
    assert!(!album_matches(&mismatch, &other));
    // an empty barcode on both sides is no match by barcode
    let empty_both = album("A", "X", "", "");
    let other_title = album_cand("b3", "B", "");
    assert!(!album_matches(&empty_both, &other_title));
}

#[test]
fn selection_takes_the_first_match() {
    let a = album("Wanted", "X", "", "");
    let cands = vec![
        album_cand("c0", "Other", ""),
        album_cand("c1", "Wanted", ""),
        album_cand("c2", "Wanted", ""),
    ];
    assert_eq!(select_album(&a, &cands), Some(1));
    let t = track("Song", "ISRC1", None);
    let tcands = vec![
        track_cand("t0", "Song", "OTHER", None),
        track_cand("t1", "Song", "ISRC1", None),
    ];
    assert_eq!(select_track(&t, &tcands), Some(1));
    assert_eq!(select_track(&t, &Vec::new()), None);
}

#[test]
fn album_search_falls_back_to_title_only() {
    // search by "Title Artist" returns nothing; the bare title search
    // returns the right album: it is still resolved
    let a = album("Title", "Artist", "", "");
    assert_eq!(album_query(&a, true), "Title Artist");
    assert_eq!(album_query(&a, false), "Title");
    let first = album_search_step(&a, true, &Vec::new());
    match first {
        AlbumSearchOutcome::RetryWithoutArtist => {},
        _ => panic!("expected a retry without the artist"),
    }
    let results = vec![album_cand("the-album", "Title", "")];
    match album_search_step(&a, false, &results) {
        AlbumSearchOutcome::Matched(id) => assert_eq!(id, "the-album"),
        _ => panic!("expected a match"),
    }
    match album_search_step(&a, false, &Vec::new()) {
        AlbumSearchOutcome::NoMatch => {},
        _ => panic!("expected no match"),
    }
}

#[test]
fn track_match_walks_album_scoped_then_direct() {
    let t = track("Song", "US123", Some(200_000));
    let s0 = track_match_start();
    match track_match_action(&s0, &t) {
        TrackMatchAction::SearchAlbums(q) => assert_eq!(q, "Album Artist"),
        _ => panic!("expected an album search"),
    }
    // the album search matches an album; its listing carries the track
    let s1 = track_match_on_albums(s0, &t, &vec![album_cand("alb", "Album", "")]);
    match track_match_action(&s1, &t) {
        TrackMatchAction::ListAlbumTracks(id) => assert_eq!(id, "alb"),
        _ => panic!("expected an album listing"),
    }
    let listing = vec![track_cand("found", "Song", "US123", Some(200_500))];
    let s2 = track_match_on_tracks(s1, &t, &listing);
    match track_match_action(&s2, &t) {
        TrackMatchAction::Finish(r) => assert_eq!(r.as_deref(), Some("found")),
        _ => panic!("expected the match to finish"),
    }
}

#[test]
fn track_match_exhausts_strategies_to_no_match() {
    // both ISRCs empty and durations 3500 ms apart: every strategy fails
    // and the matcher reports no match instead of an error
    let t = track("Song", "", Some(200_000));
    let bad = vec![track_cand("x", "Song", "", Some(203_500))];
    let s0 = track_match_start();
    let s1 = track_match_on_albums(s0, &t, &Vec::new());
    match track_match_action(&s1, &t) {
        TrackMatchAction::SearchAlbums(q) => assert_eq!(q, "Album"),
        _ => panic!("expected the title-only album search"),
    }
    let s2 = track_match_on_albums(s1, &t, &Vec::new());
    match track_match_action(&s2, &t) {
        TrackMatchAction::SearchTracks(q) => assert_eq!(q, "Song Artist"),
        _ => panic!("expected the direct track search"),
    }
    assert_eq!(track_query(&t), "Song Artist");
    let s3 = track_match_on_tracks(s2, &t, &bad);
    match track_match_action(&s3, &t) {
        TrackMatchAction::Finish(r) => assert_eq!(r, None),
        _ => panic!("expected the match to finish empty"),
    }
}

#[test]
fn album_listing_misses_fall_back_to_direct_search() {
    let t = track("Song", "US1", None);
    let s0 = track_match_start();
    let s1 = track_match_on_albums(s0, &t, &vec![album_cand("alb", "Album", "")]);
    // the album's listing does not carry the track
    let s2 = track_match_on_tracks(s1, &t, &vec![track_cand("x", "Other", "", None)]);
    match track_match_action(&s2, &t) {
        TrackMatchAction::SearchTracks(_) => {},
        _ => panic!("expected the direct track search"),
    }
    let s3 = track_match_on_tracks(s2, &t, &vec![track_cand("hit", "Song", "US1", None)]);
    match track_match_action(&s3, &t) {
        TrackMatchAction::Finish(r) => assert_eq!(r.as_deref(), Some("hit")),
        _ => panic!("expected the match to finish"),
    }
}

#[test]
fn tidal_durations_parse_into_milliseconds() {
    let c = track_candidate_from_tidal(
        "tid".to_string(),
        "Song".to_string(),
        "".to_string(),
        "PT3M20S",
    );
    assert_eq!(c.duration_ms, Some(200_000));
    let t = track("Song", "", Some(201_000));
    assert!(track_matches(&t, &c));
    let bad = track_candidate_from_tidal(
        "tid".to_string(),
        "Song".to_string(),
        "".to_string(),
        "not a duration",
    );
    assert_eq!(bad.duration_ms, None);
    assert!(!track_matches(&t, &bad));
}

#[test]
fn matched_state_reports_its_state_kind() {
    let t = track("Song", "", None);
    let done = TrackMatchState::Finished(None);
    match track_match_action(&done, &t) {
        TrackMatchAction::Finish(None) => {},
        _ => panic!("expected a finished action"),
    }
}
