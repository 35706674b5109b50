//! Link extraction across the supported catalogs.

use spootifer::spotify::{
    self, IdType, MessagePlan, SpotifyLink, contains_spotify_link, extract_album_id, extract_ids,
    extract_links, extract_track_id, is_album, plan_spotify_message,
};
use spootifer::tidal::{self, TidalResource, contains_tidal_link};
use spootifer::youtube::{self, YoutubeResource, contains_youtube_link};
use spootifer::model::ServiceResources;

#[test]
fn test_is_album() {
    assert!(is_album("https://open.spotify.com/album/4yP0hdKOZPNshxUOjY0cZj"));
    assert!(!is_album("https://open.spotify.com/track/4yP0hdKOZPNshxUOjY0cZj"));
    assert!(!is_album("https://example.com/album/123"));
}

#[test]
fn test_extract_track_id() {
    let test_cases = vec![
        ("https://open.spotify.com/track/4yP0hdKOZPNshxUOjY0cZj", Some("4yP0hdKOZPNshxUOjY0cZj")),
        ("https://open.spotify.com/track/2EqlS6tkEnglzr7tkKAAYD", Some("2EqlS6tkEnglzr7tkKAAYD")),
        ("https://open.spotify.com/album/4yP0hdKOZPNshxUOjY0cZj", None),
        ("https://example.com/track/123", None),
        ("invalid_link", None),
    ];

    for (input, expected) in test_cases {
        let result = extract_track_id(input);
        assert_eq!(result.as_deref(), expected, "Failed for input: {}", input);
    }
}

#[test]
fn test_extract_album_id() {
    let test_cases = vec![
        ("https://open.spotify.com/album/4yP0hdKOZPNshxUOjY0cZj", Some("4yP0hdKOZPNshxUOjY0cZj")),
        ("https://open.spotify.com/album/1DFixLWuPkv3KT3TnV35m3", Some("1DFixLWuPkv3KT3TnV35m3")),
        ("https://open.spotify.com/track/4yP0hdKOZPNshxUOjY0cZj", None),
        ("https://example.com/album/123", None),
        ("invalid_link", None),
    ];

    for (input, expected) in test_cases {
        let result = extract_album_id(input);
        assert_eq!(result.as_deref(), expected, "Failed for input: {}", input);
    }
}

#[test]
fn contains_spotify_link_looks_for_the_host() {
    assert!(contains_spotify_link("check this out https://open.spotify.com/track/abc123"));
    assert!(!contains_spotify_link("nothing to see here"));
    assert!(!contains_spotify_link("https://tidal.com/track/123/u"));
}

#[test]
fn spotify_extract_ids_finds_every_link_in_order() {
    let msg = "first https://open.spotify.com/track/aaa then spotify:album:bbb and \
               https://open.spotify.com/album/ccc!";
    let ids = extract_ids(msg);
    assert_eq!(ids, vec!["aaa".to_string(), "bbb".to_string(), "ccc".to_string()]);
}

#[test]
fn spotify_extract_ids_skips_short_links_and_malformed_text() {
    let msg = "https://spotify.link/xyz and https://open.spotify.com/track/ (no id) \
               but https://open.spotify.com/track/ok9 works";
    let ids = extract_ids(msg);
    assert_eq!(ids, vec!["ok9".to_string()]);
}

#[test]
fn spotify_extract_links_reports_short_links_whole() {
    let msg = "go https://spotify.link/abC12 now";
    let links = extract_links(msg);
    assert_eq!(links.len(), 1);
    match &links[0] {
        SpotifyLink::Short(url) => assert_eq!(url, "https://spotify.link/abC12"),
        other => panic!("expected a short link, got {:?}", other),
    }
}

#[test]
fn spotify_duplicate_links_stay_duplicated() {
    let msg = "https://open.spotify.com/track/dup https://open.spotify.com/track/dup";
    let ids = extract_ids(msg);
    assert_eq!(ids, vec!["dup".to_string(), "dup".to_string()]);
}

#[test]
fn spotify_plan_ignores_messages_without_links() {
    match plan_spotify_message("hello there") {
        MessagePlan::Ignore => {},
        _ => panic!("expected the message to be ignored"),
    }
}

#[test]
fn spotify_plan_expands_album_messages() {
    match plan_spotify_message("https://open.spotify.com/album/alb1") {
        MessagePlan::Album(id) => assert_eq!(id, "alb1"),
        _ => panic!("expected an album plan"),
    }
}

#[test]
fn spotify_plan_lists_track_messages() {
    match plan_spotify_message("https://open.spotify.com/track/t1 spotify:track:t2") {
        MessagePlan::Tracks(ids) => assert_eq!(ids, vec!["t1".to_string(), "t2".to_string()]),
        _ => panic!("expected a track plan"),
    }
}

#[test]
fn spotify_playlist_id_is_extracted() {
    let r = spotify::extract_playlist_id(
        "https://open.spotify.com/playlist/37i9dQZF1DXcBWIGoYBM5M".to_string(),
    );
    assert_eq!(r.as_deref(), Some("37i9dQZF1DXcBWIGoYBM5M"));
    assert_eq!(spotify::extract_playlist_id("https://example.com/playlist/x".to_string()), None);
}

#[test]
fn tidal_links_need_the_share_suffix() {
    let ids = tidal::extract_ids("https://tidal.com/track/446712247/u");
    assert_eq!(ids.len(), 1);
    match &ids[0] {
        TidalResource::Track(id) => assert_eq!(id, "446712247"),
        _ => panic!("expected a track"),
    }
    assert_eq!(tidal::extract_ids("https://tidal.com/track/446712247").len(), 0);
}

#[test]
fn tidal_album_links_are_recognized() {
    assert!(tidal::is_album("https://tidal.com/album/123/u"));
    assert!(!tidal::is_album("https://tidal.com/track/123/u"));
    let ids = tidal::extract_ids("see https://tidal.com/album/99/u and https://tidal.com/track/7/u");
    assert_eq!(ids.len(), 2);
    match (&ids[0], &ids[1]) {
        (TidalResource::Album(a), TidalResource::Track(t)) => {
            assert_eq!(a, "99");
            assert_eq!(t, "7");
        },
        _ => panic!("expected an album then a track"),
    }
}

#[test]
fn tidal_host_mention_is_detected() {
    assert!(contains_tidal_link("https://tidal.com/album/1/u".to_string()));
    assert!(!contains_tidal_link("https://open.spotify.com/track/abc".to_string()));
}

#[test]
fn tidal_playlist_id_needs_a_uuid() {
    let link = "https://tidal.com/playlist/12345678-9abc-def0-1234-56789abcdef0".to_string();
    let r = tidal::extract_playlist_id(link);
    assert_eq!(r.as_deref(), Some("12345678-9abc-def0-1234-56789abcdef0"));
    let bad = "https://tidal.com/playlist/not-a-uuid".to_string();
    assert_eq!(tidal::extract_playlist_id(bad), None);
}

#[test]
fn youtube_short_and_live_links_carry_the_id() {
    let ids = youtube::extract_ids("https://youtu.be/dQw4w9WgXcQ");
    assert_eq!(ids.len(), 1);
    match &ids[0] {
        YoutubeResource::Video(id) => assert_eq!(id, "dQw4w9WgXcQ"),
    }
    let ids = youtube::extract_ids("https://www.youtube.com/live/AbCdEfGhIj0 is live");
    assert_eq!(ids.len(), 1);
    match &ids[0] {
        YoutubeResource::Video(id) => assert_eq!(id, "AbCdEfGhIj0"),
    }
}

#[test]
fn youtube_watch_links_use_the_v_parameter() {
    let ids = youtube::extract_ids("https://www.youtube.com/watch?t=42&v=dQw4w9WgXcQ");
    assert_eq!(ids.len(), 1);
    match &ids[0] {
        YoutubeResource::Video(id) => assert_eq!(id, "dQw4w9WgXcQ"),
    }
    // a watch URL without a v parameter yields nothing
    assert_eq!(youtube::extract_ids("https://www.youtube.com/watch?t=42").len(), 0);
}

#[test]
fn youtube_resources_are_grouped_for_the_orchestrator() {
    let rs = youtube::extract_resources("https://youtu.be/dQw4w9WgXcQ");
    assert_eq!(rs.len(), 1);
    match &rs[0] {
        ServiceResources::Youtube(v) => assert_eq!(v.len(), 1),
        _ => panic!("expected youtube resources"),
    }
    assert_eq!(youtube::extract_resources("no links here").len(), 0);
    assert!(contains_youtube_link("https://youtu.be/x".to_string()));
    assert!(!contains_youtube_link("https://example.com".to_string()));
}

#[test]
fn youtube_playlist_id_sits_in_the_list_parameter() {
    let r = youtube::extract_playlist_id(
        "https://www.youtube.com/playlist?list=PL123abc".to_string(),
    );
    assert_eq!(r.as_deref(), Some("PL123abc"));
    assert_eq!(
        youtube::extract_playlist_id("https://www.youtube.com/watch?v=abc".to_string()),
        None
    );
    assert_eq!(youtube::extract_playlist_id("not a url".to_string()), None);
}

#[test]
fn uri_prefixes_are_stripped_for_bare_ids() {
    assert_eq!(spotify::strip_uri_prefix("spotify:track:abc", "spotify:track:"), "abc");
    assert_eq!(spotify::strip_uri_prefix("abc", "spotify:track:"), "abc");
    assert_eq!(spotify::strip_uri_prefix("spotify:album:xy", "spotify:album:"), "xy");
}

#[test]
fn extraction_handles_multibyte_text_around_links() {
    let msg = "héllo → https://open.spotify.com/track/xyz ← görüşürüz";
    assert_eq!(extract_ids(msg), vec!["xyz".to_string()]);
}

#[test]
fn spotify_err_is_constructible() {
    let e = spotify::SpotifyErr;
    let copy = e.clone();
    assert!(format!("{:?}", copy).contains("SpotifyErr"));
}

#[test]
fn id_types_carry_their_ids() {
    let t = IdType::Track("t".to_string());
    let a = IdType::Album("a".to_string());
    match (t, a) {
        (IdType::Track(x), IdType::Album(y)) => {
            assert_eq!(x, "t");
            assert_eq!(y, "a");
        },
        _ => panic!("variants swapped"),
    }
}
