//! Recognition of Tidal resource links and the Tidal-specific pieces of
//! matching: share links carry an `/u` suffix after the native id, and
//! track durations arrive as ISO-8601 duration strings.

use vstd::prelude::*;
use vstd::string::StringExecFns;

use crate::matcher::TrackCandidate;
use crate::text::{
    chars_range, chars_to_string, contains_seq, id_run_len, matches_at, starts_with_at, str_chars,
    str_contains_chars,
};

verus! {

/// Errors of the Tidal adapter.
#[derive(Debug, Clone)]
pub enum TidalError {
    /// The client could not be built from its configuration.
    ClientInitializationError { cause: String },
    /// A call of the named endpoint failed.
    ApiError { api: String, cause: String },
}

impl TidalError {
    /// A readable description of the error.
    pub fn message(&self) -> (r: String)
        ensures
            match self {
                TidalError::ClientInitializationError { cause } => r@ == "failed to initialize client: "@
                    + cause@,
                TidalError::ApiError { api, cause } => r@ == "failed call "@ + api@ + " api: "@
                    + cause@,
            },
    {
        match self {
            TidalError::ClientInitializationError { cause } => String::from_str(
                "failed to initialize client: ",
            ).concat(cause.as_str()),
            TidalError::ApiError { api, cause } => String::from_str("failed call ").concat(
                api.as_str(),
            ).concat(" api: ").concat(cause.as_str()),
        }
    }
}

/// A Tidal resource reference extracted from message text.
#[derive(Clone, Debug)]
pub enum TidalResource {
    Album(String),
    Track(String),
}

/// Ghost counterpart of `TidalResource`, over character sequences.
pub enum TidalAt {
    Album(Seq<char>),
    Track(Seq<char>),
}

/// The view of an extracted Tidal resource.
pub open spec fn tidal_view(r: TidalResource) -> TidalAt {
    match r {
        TidalResource::Album(id) => TidalAt::Album(id@),
        TidalResource::Track(id) => TidalAt::Track(id@),
    }
}

/// The Tidal web host.
pub open spec fn spec_tidal_domain() -> Seq<char> {
    "tidal.com"@
}

/// Prefix of album share links, the mark of an album link.
pub open spec fn spec_tidal_album_link() -> Seq<char> {
    "https://tidal.com/album"@
}

/// The link prefix recognized at position `i`: a track or album share
/// link. The result carries whether it is an album and the prefix length.
pub open spec fn tidal_prefix_at(s: Seq<char>, i: int) -> Option<(bool, int)> {
    if matches_at(s, "https://tidal.com/track/"@, i) {
        Some((false, "https://tidal.com/track/"@.len() as int))
    } else if matches_at(s, "https://tidal.com/album/"@, i) {
        Some((true, "https://tidal.com/album/"@.len() as int))
    } else {
        None
    }
}

/// The full link match at position `i`: share links carry the native id
/// followed by a literal `/u`. The result carries whether it is an
/// album and the id run's bounds; the match consumes the suffix too.
pub open spec fn tidal_match_at(s: Seq<char>, i: int) -> Option<(bool, int, int)> {
    match tidal_prefix_at(s, i) {
        Some((album, plen)) => {
            let run = id_run_len(s, i + plen);
            if run >= 1 && matches_at(s, "/u"@, i + plen + run) {
                Some((album, i + plen, i + plen + run))
            } else {
                None
            }
        },
        None => None,
    }
}

/// All Tidal resource links in `s` from position `i` on, left to right,
/// non-overlapping.
pub open spec fn spec_scan_tidal(s: Seq<char>, i: int) -> Seq<TidalAt>
    decreases s.len() - i when 0 <= i <= s.len()
{
    if i >= s.len() {
        Seq::empty()
    } else {
        match tidal_match_at(s, i) {
            Some((album, id_start, end)) => {
                let item = if album {
                    TidalAt::Album(s.subrange(id_start, end))
                } else {
                    TidalAt::Track(s.subrange(id_start, end))
                };
                seq![item] + spec_scan_tidal(s, end + "/u"@.len())
            },
            None => spec_scan_tidal(s, i + 1),
        }
    }
}

/// All Tidal resources a message links, left to right.
pub open spec fn spec_tidal_resources(s: Seq<char>) -> Seq<TidalAt> {
    spec_scan_tidal(s, 0)
}

/// The id an extracted Tidal reference carries.
pub open spec fn tidal_payload(t: TidalAt) -> Seq<char> {
    match t {
        TidalAt::Album(id) => id,
        TidalAt::Track(id) => id,
    }
}

/// A native id is never empty: every extracted Tidal reference carries
/// at least one id character.
pub proof fn tidal_ids_nonempty(s: Seq<char>)
    ensures
        forall|k: int| 0 <= k < spec_tidal_resources(s).len() ==> tidal_payload(
            #[trigger] spec_tidal_resources(s)[k],
        ).len() > 0,
{
    lemma_scan_tidal_nonempty(s, 0);
}

proof fn lemma_scan_tidal_nonempty(s: Seq<char>, i: int)
    requires
        0 <= i <= s.len(),
    ensures
        forall|k: int| 0 <= k < spec_scan_tidal(s, i).len() ==> tidal_payload(
            #[trigger] spec_scan_tidal(s, i)[k],
        ).len() > 0,
    decreases s.len() - i,
{
    if i >= s.len() {
    } else {
        match tidal_match_at(s, i) {
            Some((album, id_start, end)) => {
                let item = if album {
                    TidalAt::Album(s.subrange(id_start, end))
                } else {
                    TidalAt::Track(s.subrange(id_start, end))
                };
                lemma_scan_tidal_nonempty(s, end + "/u"@.len());
                assert(tidal_payload(item).len() > 0);
                assert forall|k: int| 0 <= k < spec_scan_tidal(s, i).len() implies tidal_payload(
                    #[trigger] spec_scan_tidal(s, i)[k],
                ).len() > 0 by {
                    if k == 0 {
                        assert(spec_scan_tidal(s, i)[0] == item);
                    } else {
                        assert(spec_scan_tidal(s, i)[k] == spec_scan_tidal(
                            s,
                            end + "/u"@.len(),
                        )[k - 1]);
                    }
                }
            },
            None => {
                lemma_scan_tidal_nonempty(s, i + 1);
                assert(spec_scan_tidal(s, i) == spec_scan_tidal(s, i + 1));
                assert forall|k: int| 0 <= k < spec_scan_tidal(s, i).len() implies tidal_payload(
                    #[trigger] spec_scan_tidal(s, i)[k],
                ).len() > 0 by {
                    assert(spec_scan_tidal(s, i)[k] == spec_scan_tidal(s, i + 1)[k]);
                }
            },
        }
    }
}

/// Whether the message mentions the Tidal host at all.
pub fn contains_tidal_link(msg: String) -> (b: bool)
    ensures
        b == contains_seq(msg@, spec_tidal_domain()),
{
    let p = str_chars("tidal.com");
    str_contains_chars(msg.as_str(), &p)
}

/// Whether the link is an album share link.
pub fn is_album(link: &str) -> (b: bool)
    ensures
        b == contains_seq(link@, spec_tidal_album_link()),
{
    let p = str_chars("https://tidal.com/album");
    str_contains_chars(link, &p)
}

/// Extracts every Tidal track and album reference of a message, left to
/// right.
pub fn extract_ids(link: &str) -> (r: Vec<TidalResource>)
    ensures
        r@.map_values(|t: TidalResource| tidal_view(t)) == spec_tidal_resources(link@),
{
    let track_pat = str_chars("https://tidal.com/track/");
    let album_pat = str_chars("https://tidal.com/album/");
    let suffix_pat = str_chars("/u");
    let s = str_chars(link);
    let mut out: Vec<TidalResource> = Vec::new();
    let mut i: usize = 0;
    while i < s.len()
        invariant
            track_pat@ == "https://tidal.com/track/"@,
            album_pat@ == "https://tidal.com/album/"@,
            suffix_pat@ == "/u"@,
            s@ == link@,
            i <= s@.len(),
            out@.map_values(|t: TidalResource| tidal_view(t)) + spec_scan_tidal(s@, i as int)
                == spec_tidal_resources(link@),
        decreases s@.len() - i,
    {
        let ghost prev = out@.map_values(|t: TidalResource| tidal_view(t));
        let hit: Option<(bool, usize)> = if starts_with_at(&s, &track_pat, i) {
            Some((false, track_pat.len()))
        } else if starts_with_at(&s, &album_pat, i) {
            Some((true, album_pat.len()))
        } else {
            None
        };
        match hit {
            Some((album, plen)) => {
                let id_start = i + plen;
                let end = crate::text::id_run_end(&s, id_start);
                if end > id_start && starts_with_at(&s, &suffix_pat, end) {
                    let id = chars_to_string(&chars_range(&s, id_start, end));
                    let item = if album {
                        TidalResource::Album(id)
                    } else {
                        TidalResource::Track(id)
                    };
                    out.push(item);
                    let next = end + suffix_pat.len();
                    proof {
                        let ghost itemv = if album {
                            TidalAt::Album(s@.subrange(id_start as int, end as int))
                        } else {
                            TidalAt::Track(s@.subrange(id_start as int, end as int))
                        };
                        assert(out@.map_values(|t: TidalResource| tidal_view(t)) =~= prev.push(
                            itemv,
                        ));
                        assert(prev.push(itemv) + spec_scan_tidal(s@, next as int) =~= prev
                            + spec_scan_tidal(s@, i as int));
                    }
                    i = next;
                } else {
                    i = i + 1;
                }
            },
            None => {
                i = i + 1;
            },
        }
    }
    out
}

/// An ASCII hexadecimal digit in lower case.
pub open spec fn is_hex_char(c: char) -> bool {
    (48 <= c as u32 <= 57) || (97 <= c as u32 <= 102)
}

/// A lower-case hyphenated UUID occupies `s[i..i + 36]`: hyphens after
/// the 8th, 13th, 18th and 23rd position, hexadecimal digits elsewhere.
pub open spec fn is_uuid_at(s: Seq<char>, i: int) -> bool {
    &&& 0 <= i
    &&& i + 36 <= s.len()
    &&& forall|j: int| 0 <= j < 36 ==> (if j == 8 || j == 13 || j == 18 || j == 23 {
        (#[trigger] s[i + j]) == '-'
    } else {
        is_hex_char(s[i + j])
    })
}

/// First position where the playlist link prefix is followed by a UUID,
/// and that UUID; `None` when the message holds no playlist link.
pub open spec fn spec_first_playlist_id(s: Seq<char>, i: int) -> Option<Seq<char>>
    decreases s.len() - i when i <= s.len()
{
    if i < 0 || i >= s.len() {
        None
    } else if matches_at(s, "https://tidal.com/playlist/"@, i) && is_uuid_at(
        s,
        i + "https://tidal.com/playlist/"@.len(),
    ) {
        Some(
            s.subrange(
                i + "https://tidal.com/playlist/"@.len(),
                i + "https://tidal.com/playlist/"@.len() + 36,
            ),
        )
    } else {
        spec_first_playlist_id(s, i + 1)
    }
}

/// Decides whether a lower-case hyphenated UUID occupies `s[i..i + 36]`.
fn uuid_at(s: &Vec<char>, i: usize) -> (b: bool)
    requires
        i <= s@.len(),
    ensures
        b == is_uuid_at(s@, i as int),
{
    if s.len() - i < 36 {
        return false;
    }
    let mut j: usize = 0;
    while j < 36
        invariant
            s@.len() <= usize::MAX,
            i + 36 <= s@.len(),
            j <= 36,
            forall|k: int| 0 <= k < j ==> (if k == 8 || k == 13 || k == 18 || k == 23 {
                (#[trigger] s@[i + k]) == '-'
            } else {
                is_hex_char(s@[i + k])
            }),
        decreases 36 - j,
    {
        let c = s[i + j];
        let ok = if j == 8 || j == 13 || j == 18 || j == 23 {
            c == '-'
        } else {
            let u = c as u32;
            (48 <= u && u <= 57) || (97 <= u && u <= 102)
        };
        if !ok {
            return false;
        }
        j = j + 1;
    }
    true
}

/// Extracts the UUID of the first Tidal playlist link in `link`, if any.
pub fn extract_playlist_id(link: String) -> (r: Option<String>)
    ensures
        match r {
            Some(id) => spec_first_playlist_id(link@, 0) == Some(id@),
            None => spec_first_playlist_id(link@, 0) is None,
        },
{
    let p = str_chars("https://tidal.com/playlist/");
    let s = str_chars(link.as_str());
    let mut i: usize = 0;
    while i < s.len()
        invariant
            p@ == "https://tidal.com/playlist/"@,
            s@ == link@,
            i <= s@.len(),
            spec_first_playlist_id(link@, 0) == spec_first_playlist_id(link@, i as int),
        decreases s@.len() - i,
    {
        if starts_with_at(&s, &p, i) {
            let id_start = i + p.len();
            if uuid_at(&s, id_start) {
                let id = chars_range(&s, id_start, id_start + 36);
                return Some(chars_to_string(&id));
            }
        }
        i = i + 1;
    }
    None
}

/// What `iso8601::duration` parses out of a string, converted to whole
/// milliseconds; `None` when the string is no ISO-8601 duration or the
/// length overflows.
pub uninterp spec fn iso8601_duration_millis(s: Seq<char>) -> Option<u64>;

/// Relies on `iso8601::duration`: the parse of an ISO-8601 duration
/// string depends on the characters alone; the parsed value is converted
/// to milliseconds through `core::time::Duration`.
#[verifier::external_body]
fn parse_iso8601_millis(s: &str) -> (r: Option<u64>)
    ensures
        r == iso8601_duration_millis(s@),
{
    match iso8601::duration(s) {
        Ok(d) => u64::try_from(core::time::Duration::from(d).as_millis()).ok(),
        Err(_) => None,
    }
}

/// Builds a track candidate from the fields a Tidal track carries,
/// parsing its ISO-8601 duration string into milliseconds.
pub fn track_candidate_from_tidal(id: String, title: String, isrc: String, duration: &str) -> (c:
    TrackCandidate)
    ensures
        c.id@ == id@,
        c.title@ == title@,
        c.isrc@ == isrc@,
        c.duration_ms == iso8601_duration_millis(duration@),
{
    let duration_ms = parse_iso8601_millis(duration);
    TrackCandidate { id, title, isrc, duration_ms }
}

/// The OAuth redirect URI under a base URI: its `/callback` path.
pub fn redirect_uri(base_uri: &str) -> (r: String)
    ensures
        r@ == base_uri@ + "/callback"@,
{
    String::from_str(base_uri).concat("/callback")
}

} // verus!
