//! Recognition of Spotify resource links in free-form message text: web
//! links and URIs for tracks and albums, and shortened `spotify.link`
//! URLs, which carry no id of their own and must be resolved through the
//! shortlink resolver before extraction can finish.

use vstd::prelude::*;
use vstd::string::StringExecFns;

use crate::text::{
    chars_range, contains_seq, first_capture, id_run_len, lemma_id_run_len_bound, matches_at,
    str_chars, str_contains_chars, chars_to_string,
};

verus! {

/// Error of the Spotify adapter: credentials or configuration missing.
#[derive(Debug, Clone)]
pub struct SpotifyErr;

impl SpotifyErr {
    /// A readable description of the error.
    pub fn message(&self) -> (r: String)
        ensures
            r@ == "error"@,
    {
        String::from_str("error")
    }
}

/// A resolved Spotify resource id, tagged by resource kind.
#[derive(Clone, Debug)]
pub enum IdType {
    Album(String),
    Track(String),
}

/// The kind of link a scan position recognized.
#[derive(Clone, Copy)]
pub enum LinkKind {
    /// A track link or URI; the id follows the prefix.
    Track,
    /// An album link or URI; the id follows the prefix.
    Album,
    /// A shortened link; it must be resolved before it yields an id.
    Short,
}

/// A link found in message text. A `Short` value holds the whole
/// shortened URL; the other variants hold the captured native id.
#[derive(Clone, Debug)]
pub enum SpotifyLink {
    Track(String),
    Album(String),
    Short(String),
}

/// Ghost counterpart of `SpotifyLink`, over character sequences.
pub enum LinkAt {
    Track(Seq<char>),
    Album(Seq<char>),
    Short(Seq<char>),
}

/// The view of a scanned link.
pub open spec fn link_view(l: SpotifyLink) -> LinkAt {
    match l {
        SpotifyLink::Track(id) => LinkAt::Track(id@),
        SpotifyLink::Album(id) => LinkAt::Album(id@),
        SpotifyLink::Short(url) => LinkAt::Short(url@),
    }
}

/// The canonical Spotify web host.
pub open spec fn spec_spotify_domain() -> Seq<char> {
    "open.spotify.com"@
}

/// The host of shortened Spotify links.
pub open spec fn spec_spotify_short_domain() -> Seq<char> {
    "spotify.link"@
}

/// Prefix of album web links, the mark of an album message.
pub open spec fn spec_spotify_album_link() -> Seq<char> {
    "https://open.spotify.com/album/"@
}

/// The link prefix recognized at position `i` of `s`, with its length:
/// track and album web links (either scheme), track and album URIs, and
/// shortened links.
pub open spec fn spot_prefix_at(s: Seq<char>, i: int) -> Option<(LinkKind, int)> {
    if matches_at(s, "https://open.spotify.com/track/"@, i) {
        Some((LinkKind::Track, "https://open.spotify.com/track/"@.len() as int))
    } else if matches_at(s, "http://open.spotify.com/track/"@, i) {
        Some((LinkKind::Track, "http://open.spotify.com/track/"@.len() as int))
    } else if matches_at(s, "https://open.spotify.com/album/"@, i) {
        Some((LinkKind::Album, "https://open.spotify.com/album/"@.len() as int))
    } else if matches_at(s, "http://open.spotify.com/album/"@, i) {
        Some((LinkKind::Album, "http://open.spotify.com/album/"@.len() as int))
    } else if matches_at(s, "spotify:track:"@, i) {
        Some((LinkKind::Track, "spotify:track:"@.len() as int))
    } else if matches_at(s, "spotify:album:"@, i) {
        Some((LinkKind::Album, "spotify:album:"@.len() as int))
    } else if matches_at(s, "https://spotify.link/"@, i) {
        Some((LinkKind::Short, "https://spotify.link/"@.len() as int))
    } else if matches_at(s, "http://spotify.link/"@, i) {
        Some((LinkKind::Short, "http://spotify.link/"@.len() as int))
    } else {
        None
    }
}

/// The full link match at position `i`: its kind, the start of its id
/// run, and its end position. A prefix with no id character after it is
/// no match.
pub open spec fn spot_match_at(s: Seq<char>, i: int) -> Option<(LinkKind, int, int)> {
    match spot_prefix_at(s, i) {
        Some((kind, plen)) => {
            let run = id_run_len(s, i + plen);
            if run >= 1 {
                Some((kind, i + plen, i + plen + run))
            } else {
                None
            }
        },
        None => None,
    }
}

/// The link recognized by a match, as a ghost value.
pub open spec fn spot_link_at(s: Seq<char>, i: int, kind: LinkKind, id_start: int, end: int) -> LinkAt {
    match kind {
        LinkKind::Track => LinkAt::Track(s.subrange(id_start, end)),
        LinkKind::Album => LinkAt::Album(s.subrange(id_start, end)),
        LinkKind::Short => LinkAt::Short(s.subrange(i, end)),
    }
}

/// All Spotify links in `s` from position `i` on, left to right,
/// non-overlapping: at each position the scanner either recognizes a
/// link and continues past it, or moves one character on.
pub open spec fn spec_scan_links(s: Seq<char>, i: int) -> Seq<LinkAt>
    decreases s.len() - i when 0 <= i <= s.len()
    via spec_scan_links_decreases
{
    if i >= s.len() {
        Seq::empty()
    } else {
        match spot_match_at(s, i) {
            Some((kind, id_start, end)) => seq![spot_link_at(s, i, kind, id_start, end)]
                + spec_scan_links(s, end),
            None => spec_scan_links(s, i + 1),
        }
    }
}

#[via_fn]
proof fn spec_scan_links_decreases(s: Seq<char>, i: int) {
    if i < s.len() {
        match spot_prefix_at(s, i) {
            Some((kind, plen)) => {
                lemma_id_run_len_bound(s, i + plen);
            },
            None => {},
        }
    }
}

/// All Spotify links in a message, left to right.
pub open spec fn spec_spotify_links(s: Seq<char>) -> Seq<LinkAt> {
    spec_scan_links(s, 0)
}

/// The ids carried by scanned links, in order; shortened links carry
/// none and are skipped.
pub open spec fn spec_link_ids(ls: Seq<LinkAt>) -> Seq<Seq<char>>
    decreases ls.len(),
{
    if ls.len() == 0 {
        Seq::empty()
    } else {
        spec_link_ids(ls.drop_last()) + (match ls.last() {
            LinkAt::Track(id) => seq![id],
            LinkAt::Album(id) => seq![id],
            LinkAt::Short(_) => Seq::empty(),
        })
    }
}

/// The track and album ids a message yields without resolving shortened
/// links.
pub open spec fn spec_spotify_ids(s: Seq<char>) -> Seq<Seq<char>> {
    spec_link_ids(spec_spotify_links(s))
}

/// The recognized link prefixes, in the order they are tried.
struct SpotPatterns {
    track_https: Vec<char>,
    track_http: Vec<char>,
    album_https: Vec<char>,
    album_http: Vec<char>,
    uri_track: Vec<char>,
    uri_album: Vec<char>,
    short_https: Vec<char>,
    short_http: Vec<char>,
}

impl SpotPatterns {
    spec fn wf(&self) -> bool {
        &&& self.track_https@ == "https://open.spotify.com/track/"@
        &&& self.track_http@ == "http://open.spotify.com/track/"@
        &&& self.album_https@ == "https://open.spotify.com/album/"@
        &&& self.album_http@ == "http://open.spotify.com/album/"@
        &&& self.uri_track@ == "spotify:track:"@
        &&& self.uri_album@ == "spotify:album:"@
        &&& self.short_https@ == "https://spotify.link/"@
        &&& self.short_http@ == "http://spotify.link/"@
    }

    fn new() -> (r: SpotPatterns)
        ensures
            r.wf(),
    {
        SpotPatterns {
            track_https: str_chars("https://open.spotify.com/track/"),
            track_http: str_chars("http://open.spotify.com/track/"),
            album_https: str_chars("https://open.spotify.com/album/"),
            album_http: str_chars("http://open.spotify.com/album/"),
            uri_track: str_chars("spotify:track:"),
            uri_album: str_chars("spotify:album:"),
            short_https: str_chars("https://spotify.link/"),
            short_http: str_chars("http://spotify.link/"),
        }
    }

    /// The prefix recognized at position `i`, with its length.
    fn prefix_at(&self, s: &Vec<char>, i: usize) -> (r: Option<(LinkKind, usize)>)
        requires
            self.wf(),
            i <= s@.len(),
        ensures
            match r {
                Some((kind, plen)) => spot_prefix_at(s@, i as int) == Some((kind, plen as int)),
                None => spot_prefix_at(s@, i as int) is None,
            },
    {
        if crate::text::starts_with_at(s, &self.track_https, i) {
            Some((LinkKind::Track, self.track_https.len()))
        } else if crate::text::starts_with_at(s, &self.track_http, i) {
            Some((LinkKind::Track, self.track_http.len()))
        } else if crate::text::starts_with_at(s, &self.album_https, i) {
            Some((LinkKind::Album, self.album_https.len()))
        } else if crate::text::starts_with_at(s, &self.album_http, i) {
            Some((LinkKind::Album, self.album_http.len()))
        } else if crate::text::starts_with_at(s, &self.uri_track, i) {
            Some((LinkKind::Track, self.uri_track.len()))
        } else if crate::text::starts_with_at(s, &self.uri_album, i) {
            Some((LinkKind::Album, self.uri_album.len()))
        } else if crate::text::starts_with_at(s, &self.short_https, i) {
            Some((LinkKind::Short, self.short_https.len()))
        } else if crate::text::starts_with_at(s, &self.short_http, i) {
            Some((LinkKind::Short, self.short_http.len()))
        } else {
            None
        }
    }
}

/// Scans a message for Spotify links of every recognized shape, left to
/// right. Shortened links are reported as such; the caller resolves them
/// and extracts again from the resolved URL.
pub fn extract_links(text: &str) -> (r: Vec<SpotifyLink>)
    ensures
        r@.map_values(|l: SpotifyLink| link_view(l)) == spec_spotify_links(text@),
{
    let pats = SpotPatterns::new();
    let s = str_chars(text);
    let mut out: Vec<SpotifyLink> = Vec::new();
    let mut i: usize = 0;
    while i < s.len()
        invariant
            pats.wf(),
            s@ == text@,
            i <= s@.len(),
            out@.map_values(|l: SpotifyLink| link_view(l)) + spec_scan_links(s@, i as int)
                == spec_spotify_links(text@),
        decreases s@.len() - i,
    {
        let ghost prev = out@.map_values(|l: SpotifyLink| link_view(l));
        match pats.prefix_at(&s, i) {
            Some((kind, plen)) => {
                let id_start = i + plen;
                let end = crate::text::id_run_end(&s, id_start);
                if end > id_start {
                    let link = match kind {
                        LinkKind::Track => SpotifyLink::Track(
                            chars_to_string(&chars_range(&s, id_start, end)),
                        ),
                        LinkKind::Album => SpotifyLink::Album(
                            chars_to_string(&chars_range(&s, id_start, end)),
                        ),
                        LinkKind::Short => SpotifyLink::Short(
                            chars_to_string(&chars_range(&s, i, end)),
                        ),
                    };
                    out.push(link);
                    proof {
                        assert(out@.map_values(|l: SpotifyLink| link_view(l)) =~= prev.push(
                            spot_link_at(s@, i as int, kind, id_start as int, end as int),
                        ));
                        assert(prev.push(
                            spot_link_at(s@, i as int, kind, id_start as int, end as int),
                        ) + spec_scan_links(s@, end as int) =~= prev + spec_scan_links(
                            s@,
                            i as int,
                        ));
                    }
                    i = end;
                } else {
                    i = i + 1;
                }
            },
            None => {
                i = i + 1;
            },
        }
    }
    out
}

/// Extracts the track and album ids of every Spotify link in a message,
/// left to right. Shortened links carry no id and are skipped; resolve
/// them first and extract from the resolved URL.
pub fn extract_ids(link: &str) -> (r: Vec<String>)
    ensures
        r@.map_values(|x: String| x@) == spec_spotify_ids(link@),
{
    let links = extract_links(link);
    let ghost lviews = links@.map_values(|l: SpotifyLink| link_view(l));
    let mut out: Vec<String> = Vec::new();
    let mut j: usize = 0;
    while j < links.len()
        invariant
            lviews == links@.map_values(|l: SpotifyLink| link_view(l)),
            lviews == spec_spotify_links(link@),
            j <= links@.len(),
            out@.map_values(|x: String| x@) == spec_link_ids(lviews.take(j as int)),
        decreases links@.len() - j,
    {
        let ghost prevout = out@.map_values(|x: String| x@);
        proof {
            assert(lviews.take(j as int + 1).drop_last() =~= lviews.take(j as int));
            assert(lviews.take(j as int + 1).last() == link_view(links@[j as int]));
        }
        match &links[j] {
            SpotifyLink::Track(id) => {
                out.push(id.clone());
                proof {
                    assert(out@.map_values(|x: String| x@) =~= prevout.push(id@));
                    assert(prevout + seq![id@] =~= prevout.push(id@));
                }
            },
            SpotifyLink::Album(id) => {
                out.push(id.clone());
                proof {
                    assert(out@.map_values(|x: String| x@) =~= prevout.push(id@));
                    assert(prevout + seq![id@] =~= prevout.push(id@));
                }
            },
            SpotifyLink::Short(_) => {
                proof {
                    assert(prevout + Seq::<Seq<char>>::empty() =~= prevout);
                }
            },
        }
        j = j + 1;
    }
    proof {
        assert(lviews.take(links@.len() as int) =~= lviews);
    }
    out
}

/// The text a scanned link carries: the captured id, or the whole URL
/// of a shortened link.
pub open spec fn link_payload(l: LinkAt) -> Seq<char> {
    match l {
        LinkAt::Track(id) => id,
        LinkAt::Album(id) => id,
        LinkAt::Short(url) => url,
    }
}

proof fn lemma_scan_links_nonempty(s: Seq<char>, i: int)
    requires
        0 <= i <= s.len(),
    ensures
        forall|k: int| 0 <= k < spec_scan_links(s, i).len() ==> link_payload(
            #[trigger] spec_scan_links(s, i)[k],
        ).len() > 0,
    decreases s.len() - i,
{
    if i >= s.len() {
    } else {
        match spot_match_at(s, i) {
            Some((kind, id_start, end)) => {
                let item = spot_link_at(s, i, kind, id_start, end);
                match spot_prefix_at(s, i) {
                    Some((k2, plen)) => {
                        lemma_id_run_len_bound(s, i + plen);
                    },
                    None => {},
                }
                lemma_scan_links_nonempty(s, end);
                assert(link_payload(item).len() > 0);
                assert forall|k: int| 0 <= k < spec_scan_links(s, i).len() implies link_payload(
                    #[trigger] spec_scan_links(s, i)[k],
                ).len() > 0 by {
                    if k == 0 {
                        assert(spec_scan_links(s, i)[0] == item);
                    } else {
                        assert(spec_scan_links(s, i)[k] == spec_scan_links(s, end)[k - 1]);
                    }
                }
            },
            None => {
                lemma_scan_links_nonempty(s, i + 1);
                assert(spec_scan_links(s, i) == spec_scan_links(s, i + 1));
                assert forall|k: int| 0 <= k < spec_scan_links(s, i).len() implies link_payload(
                    #[trigger] spec_scan_links(s, i)[k],
                ).len() > 0 by {
                    assert(spec_scan_links(s, i)[k] == spec_scan_links(s, i + 1)[k]);
                }
            },
        }
    }
}

proof fn lemma_link_ids_nonempty(ls: Seq<LinkAt>)
    requires
        forall|k: int| 0 <= k < ls.len() ==> link_payload(#[trigger] ls[k]).len() > 0,
    ensures
        forall|k: int| 0 <= k < spec_link_ids(ls).len() ==> (#[trigger] spec_link_ids(ls)[k]).len()
            > 0,
    decreases ls.len(),
{
    if ls.len() > 0 {
        assert forall|k: int| 0 <= k < ls.drop_last().len() implies link_payload(
            #[trigger] ls.drop_last()[k],
        ).len() > 0 by {
            assert(ls.drop_last()[k] == ls[k]);
        }
        lemma_link_ids_nonempty(ls.drop_last());
        assert(link_payload(ls.last()).len() > 0);
        let head = spec_link_ids(ls.drop_last());
        let tail = match ls.last() {
            LinkAt::Track(id) => seq![id],
            LinkAt::Album(id) => seq![id],
            LinkAt::Short(_) => Seq::<Seq<char>>::empty(),
        };
        assert(spec_link_ids(ls) == head + tail);
        assert forall|k: int| 0 <= k < spec_link_ids(ls).len() implies (#[trigger] spec_link_ids(
            ls,
        )[k]).len() > 0 by {
            if k < head.len() {
                assert(spec_link_ids(ls)[k] == head[k]);
            } else {
                assert(spec_link_ids(ls)[k] == tail[k - head.len()]);
                assert(tail[k - head.len()] == link_payload(ls.last()));
            }
        }
    }
}

/// A native id is never empty: every id an extraction yields has at
/// least one character, because a link whose prefix is followed by no
/// id character is not recognized.
pub proof fn spotify_ids_nonempty(s: Seq<char>)
    ensures
        forall|k: int| 0 <= k < spec_spotify_ids(s).len() ==> (#[trigger] spec_spotify_ids(
            s,
        )[k]).len() > 0,
{
    lemma_scan_links_nonempty(s, 0);
    lemma_link_ids_nonempty(spec_spotify_links(s));
}

/// The id a Spotify URI or link carries after a given prefix: the
/// prefix is stripped when the text begins with it, and other text is
/// returned unchanged.
pub fn strip_uri_prefix(id_or_uri: &str, prefix: &str) -> (r: String)
    ensures
        matches_at(id_or_uri@, prefix@, 0) ==> r@ == id_or_uri@.subrange(
            prefix@.len() as int,
            id_or_uri@.len() as int,
        ),
        !matches_at(id_or_uri@, prefix@, 0) ==> r@ == id_or_uri@,
{
    let s = str_chars(id_or_uri);
    let p = str_chars(prefix);
    if crate::text::starts_with_at(&s, &p, 0) {
        chars_to_string(&chars_range(&s, p.len(), s.len()))
    } else {
        chars_to_string(&s)
    }
}

/// Whether the message links a Spotify album (it contains the album web
/// link prefix).
pub fn is_album(link: &str) -> (b: bool)
    ensures
        b == contains_seq(link@, spec_spotify_album_link()),
{
    let p = str_chars("https://open.spotify.com/album/");
    str_contains_chars(link, &p)
}

/// Whether the message mentions the Spotify web host at all.
pub fn contains_spotify_link(msg: &str) -> (b: bool)
    ensures
        b == contains_seq(msg@, spec_spotify_domain()),
{
    let p = str_chars("open.spotify.com");
    str_contains_chars(msg, &p)
}

/// Extracts the id of the first Spotify track web link in `link`, if any.
pub fn extract_track_id(link: &str) -> (r: Option<String>)
    ensures
        match r {
            Some(id) => crate::text::spec_first_capture(
                link@,
                "https://open.spotify.com/track/"@,
                0,
            ) == Some(id@),
            None => crate::text::spec_first_capture(
                link@,
                "https://open.spotify.com/track/"@,
                0,
            ) is None,
        },
{
    let s = str_chars(link);
    let p = str_chars("https://open.spotify.com/track/");
    match first_capture(&s, &p) {
        Some(id) => Some(chars_to_string(&id)),
        None => None,
    }
}

/// Extracts the id of the first Spotify album web link in `link`, if any.
pub fn extract_album_id(link: &str) -> (r: Option<String>)
    ensures
        match r {
            Some(id) => crate::text::spec_first_capture(
                link@,
                "https://open.spotify.com/album/"@,
                0,
            ) == Some(id@),
            None => crate::text::spec_first_capture(
                link@,
                "https://open.spotify.com/album/"@,
                0,
            ) is None,
        },
{
    let s = str_chars(link);
    let p = str_chars("https://open.spotify.com/album/");
    match first_capture(&s, &p) {
        Some(id) => Some(chars_to_string(&id)),
        None => None,
    }
}

/// Extracts the id of the first Spotify playlist web link in `link`, if
/// any.
pub fn extract_playlist_id(link: String) -> (r: Option<String>)
    ensures
        match r {
            Some(id) => crate::text::spec_first_capture(
                link@,
                "https://open.spotify.com/playlist/"@,
                0,
            ) == Some(id@),
            None => crate::text::spec_first_capture(
                link@,
                "https://open.spotify.com/playlist/"@,
                0,
            ) is None,
        },
{
    let s = str_chars(link.as_str());
    let p = str_chars("https://open.spotify.com/playlist/");
    match first_capture(&s, &p) {
        Some(id) => Some(chars_to_string(&id)),
        None => None,
    }
}

/// What a message asks for: nothing, the expansion of one album into its
/// tracks, or a plain list of track ids.
pub enum MessagePlan {
    /// The message mentions no Spotify link.
    Ignore,
    /// The message links an album; expand this album id into its tracks.
    Album(String),
    /// Treat these extracted ids as track ids.
    Tracks(Vec<String>),
}

/// Decides how a message's Spotify links are to be handled: no link means
/// nothing to do; an album link expands the first extracted id as an
/// album; otherwise every extracted id is taken as a track.
pub fn plan_spotify_message(msg: &str) -> (p: MessagePlan)
    ensures
        ({
            let ids = spec_spotify_ids(msg@);
            if !contains_seq(msg@, spec_spotify_domain()) {
                p is Ignore
            } else if contains_seq(msg@, spec_spotify_album_link()) && ids.len() > 0 {
                p matches MessagePlan::Album(a) && a@ == ids[0]
            } else {
                p matches MessagePlan::Tracks(v) && v@.map_values(|x: String| x@) == ids
            }
        }),
{
    if !contains_spotify_link(msg) {
        return MessagePlan::Ignore;
    }
    let ids = extract_ids(msg);
    if is_album(msg) && ids.len() > 0 {
        let first = ids[0].clone();
        MessagePlan::Album(first)
    } else {
        MessagePlan::Tracks(ids)
    }
}

} // verus!
