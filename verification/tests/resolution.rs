//! Shortlink resolution and album pagination.

use spootifer::paginate::{AlbumPagination, PageResponse};
use spootifer::shortlink::ShortlinkResolver;

fn drive_chain(urls: &[&str]) -> Option<String> {
    // feeds a redirect chain into the resolver the way the network
    // driver would: urls[0] starts it, each later entry is the URL one
    // GET landed on
    let mut r = ShortlinkResolver::start(urls[0].to_string());
    let mut next = 1;
    while r.needs_fetch() {
        if next >= urls.len() {
            // the chain ran out: a transport failure; the caller drops
            // the resolver and treats the link as unresolvable
            return None;
        }
        assert_eq!(r.fetch_url().as_str(), urls[next - 1]);
        r.on_fetched(urls[next].to_string());
        next += 1;
    }
    Some(r.result())
}

#[test]
fn short_chain_resolves_to_the_canonical_url() {
    let resolved = drive_chain(&[
        "https://spotify.link/a",
        "https://spotify.link/b",
        "https://open.spotify.com/track/abc123",
    ]);
    assert_eq!(resolved.as_deref(), Some("https://open.spotify.com/track/abc123"));
}

#[test]
fn single_hop_chain_resolves_directly() {
    let resolved = drive_chain(&[
        "https://spotify.link/a",
        "https://open.spotify.com/album/xyz",
    ]);
    assert_eq!(resolved.as_deref(), Some("https://open.spotify.com/album/xyz"));
}

#[test]
fn five_hop_chain_still_reaches_the_canonical_url() {
    let resolved = drive_chain(&[
        "https://spotify.link/0",
        "https://spotify.link/1",
        "https://spotify.link/2",
        "https://spotify.link/3",
        "https://spotify.link/4",
        "https://open.spotify.com/track/deep",
    ]);
    assert_eq!(resolved.as_deref(), Some("https://open.spotify.com/track/deep"));
}

#[test]
fn longer_chains_stop_at_the_hop_bound_without_error() {
    // an endless shortened chain: the resolver keeps the URL observed at
    // the fifth hop instead of erroring
    let resolved = drive_chain(&[
        "https://spotify.link/0",
        "https://spotify.link/1",
        "https://spotify.link/2",
        "https://spotify.link/3",
        "https://spotify.link/4",
        "https://spotify.link/5",
        "https://spotify.link/6",
        "https://spotify.link/7",
    ]);
    assert_eq!(resolved.as_deref(), Some("https://spotify.link/5"));
}

#[test]
fn pagination_returns_all_items_in_original_order() {
    // nine items split across three pages
    let pages = vec![
        (vec!["t1", "t2", "t3"], Some("c1")),
        (vec!["t4", "t5", "t6"], Some("c2")),
        (vec!["t7", "t8", "t9"], None),
    ];
    let mut walk = AlbumPagination::new();
    assert_eq!(walk.next_cursor(), &None);
    let mut expected_cursor: Option<String> = None;
    for (items, next) in pages {
        assert!(!walk.is_done());
        assert_eq!(walk.next_cursor(), &expected_cursor);
        walk.absorb(PageResponse {
            items: items.iter().map(|s| s.to_string()).collect(),
            next_cursor: next.map(|s| s.to_string()),
        });
        expected_cursor = next.map(|s| s.to_string());
    }
    assert!(walk.is_done());
    let collected = walk.into_items();
    assert_eq!(
        collected,
        vec!["t1", "t2", "t3", "t4", "t5", "t6", "t7", "t8", "t9"]
            .into_iter()
            .map(|s| s.to_string())
            .collect::<Vec<_>>()
    );
}

#[test]
fn pagination_failure_aborts_the_whole_walk() {
    // the first page arrives, the second request fails: the caller
    // drops the accumulator and reports the error, so no partial
    // listing is handed out
    let mut walk = AlbumPagination::new();
    walk.absorb(PageResponse {
        items: vec!["t1".to_string(), "t2".to_string()],
        next_cursor: Some("c1".to_string()),
    });
    assert!(!walk.is_done());
    let failed: Result<Vec<String>, &str> = Err("page request failed");
    // the walk is unfinished, so its items are never taken
    drop(walk);
    assert!(failed.is_err());
}

#[test]
fn empty_album_resolves_to_no_items() {
    let mut walk = AlbumPagination::new();
    walk.absorb(PageResponse { items: Vec::new(), next_cursor: None });
    assert!(walk.is_done());
    assert_eq!(walk.into_items(), Vec::<String>::new());
}
