//! Recognition of YouTube video links: short `youtu.be` and live links
//! carry an eleven-character video id in the path; desktop watch links
//! carry it in the `v` query parameter, which the `url` crate decodes.

use vstd::prelude::*;
use vstd::string::StringExecFns;

use crate::model::ServiceResources;
use crate::text::{
    chars_range, chars_to_string, contains_seq, matches_at, starts_with_at, str_chars,
    str_contains_chars, is_id_char,
};

verus! {

/// Errors of the YouTube adapter.
#[derive(Debug, Clone)]
pub enum YoutubeError {
    /// The client could not be built from its configuration.
    ClientInitializationError { cause: String },
}

impl YoutubeError {
    /// A readable description of the error.
    pub fn message(&self) -> (r: String)
        ensures
            match self {
                YoutubeError::ClientInitializationError { cause } => r@
                    == "failed to initialize client: "@ + cause@,
            },
    {
        match self {
            YoutubeError::ClientInitializationError { cause } => String::from_str("failed to initialize client: ").concat(cause.as_str()),
        }
    }
}

/// A YouTube resource reference extracted from message text.
#[derive(Clone, Debug)]
pub enum YoutubeResource {
    Video(String),
}

/// The view of an extracted video reference: its video id.
pub open spec fn yt_view(r: YoutubeResource) -> Seq<char> {
    match r {
        YoutubeResource::Video(id) => id@,
    }
}

/// The YouTube web host.
pub open spec fn spec_youtube_domain() -> Seq<char> {
    "youtube.com"@
}

/// The short YouTube host.
pub open spec fn spec_short_youtube_domain() -> Seq<char> {
    "youtu.be"@
}

/// One key/value pair of a URL's query string, percent-decoded.
pub struct QueryParam {
    pub key: String,
    pub value: String,
}

/// The views of a sequence of query parameters.
pub open spec fn params_view(v: Seq<QueryParam>) -> Seq<(Seq<char>, Seq<char>)> {
    v.map_values(|p: QueryParam| (p.key@, p.value@))
}

/// The percent-decoded query pairs of a URL string, in order; `None`
/// when the string is no parsable URL.
pub uninterp spec fn url_query_params_of(s: Seq<char>) -> Option<Seq<(Seq<char>, Seq<char>)>>;

/// Relies on `url::Url::parse` and `url::Url::query_pairs`: whether a
/// string parses as a URL and the decoded query pairs depend on the
/// string alone.
#[verifier::external_body]
fn url_query_params(s: &str) -> (r: Option<Vec<QueryParam>>)
    ensures
        match r {
            Some(v) => url_query_params_of(s@) matches Some(ps) && ps == params_view(v@),
            None => url_query_params_of(s@) is None,
        },
{
    match url::Url::parse(s) {
        Ok(u) => Some(
            u.query_pairs().map(
                |(k, v)| QueryParam { key: k.into_owned(), value: v.into_owned() },
            ).collect(),
        ),
        Err(_) => None,
    }
}

/// The value of the first query pair whose key is `key`, from position
/// `i` on.
pub open spec fn spec_first_param(
    ps: Seq<(Seq<char>, Seq<char>)>,
    key: Seq<char>,
    i: int,
) -> Option<Seq<char>>
    decreases ps.len() - i when i <= ps.len()
{
    if i < 0 || i >= ps.len() {
        None
    } else if ps[i].0 == key {
        Some(ps[i].1)
    } else {
        spec_first_param(ps, key, i + 1)
    }
}

/// Finds the value of the first query parameter named `key`.
pub fn find_query_param(params: &Vec<QueryParam>, key: &str) -> (r: Option<String>)
    ensures
        match r {
            Some(v) => spec_first_param(params_view(params@), key@, 0) == Some(v@),
            None => spec_first_param(params_view(params@), key@, 0) is None,
        },
{
    let key_string = String::from_str(key);
    let mut i: usize = 0;
    while i < params.len()
        invariant
            key_string@ == key@,
            i <= params@.len(),
            spec_first_param(params_view(params@), key@, 0) == spec_first_param(
                params_view(params@),
                key@,
                i as int,
            ),
        decreases params@.len() - i,
    {
        let ghost ps = params_view(params@);
        proof {
            assert(ps[i as int] == (params@[i as int].key@, params@[i as int].value@));
        }
        if params[i].key == key_string {
            return Some(params[i].value.clone());
        }
        i = i + 1;
    }
    None
}

/// A character admitted in the query part of a watch link.
pub open spec fn is_query_char(c: char) -> bool {
    is_id_char(c) || c == '%' || c == '=' || c == '&' || c == '_' || c == '-'
}

/// Length of the maximal run of query characters starting at `i`.
pub open spec fn query_run_len(s: Seq<char>, i: int) -> int
    decreases s.len() - i when i <= s.len()
{
    if 0 <= i < s.len() && is_query_char(s[i]) {
        1 + query_run_len(s, i + 1)
    } else {
        0
    }
}

/// The run is non-negative and stays within the sequence.
pub proof fn lemma_query_run_len_bound(s: Seq<char>, i: int)
    requires
        0 <= i <= s.len(),
    ensures
        0 <= query_run_len(s, i) <= s.len() - i,
    decreases s.len() - i,
{
    if i < s.len() && is_query_char(s[i]) {
        lemma_query_run_len_bound(s, i + 1);
    }
}

/// An id character or a hyphen, the alphabet of video ids.
pub open spec fn is_vid_char(c: char) -> bool {
    is_id_char(c) || c == '-'
}

/// Eleven video-id characters occupy `s[i..i + 11]`.
pub open spec fn vid11_at(s: Seq<char>, i: int) -> bool {
    &&& 0 <= i
    &&& i + 11 <= s.len()
    &&& forall|j: int| 0 <= j < 11 ==> is_vid_char(#[trigger] s[i + j])
}

/// The video link match at position `i`: a watch link (the whole URL is
/// kept for query parsing) or a short or live link carrying the id in
/// the path. The flag says whether it is a watch link; the bounds are
/// those of the kept text.
pub open spec fn yt_match_at(s: Seq<char>, i: int) -> Option<(bool, int, int)> {
    if matches_at(s, "https://www.youtube.com/watch?"@, i) && query_run_len(
        s,
        i + "https://www.youtube.com/watch?"@.len(),
    ) >= 1 {
        Some(
            (
                true,
                i,
                i + "https://www.youtube.com/watch?"@.len() + query_run_len(
                    s,
                    i + "https://www.youtube.com/watch?"@.len(),
                ),
            ),
        )
    } else if matches_at(s, "https://youtu.be/"@, i) && vid11_at(
        s,
        i + "https://youtu.be/"@.len(),
    ) {
        Some(
            (
                false,
                i + "https://youtu.be/"@.len(),
                i + "https://youtu.be/"@.len() + 11,
            ),
        )
    } else if matches_at(s, "https://www.youtube.com/live/"@, i) && vid11_at(
        s,
        i + "https://www.youtube.com/live/"@.len(),
    ) {
        Some(
            (
                false,
                i + "https://www.youtube.com/live/"@.len(),
                i + "https://www.youtube.com/live/"@.len() + 11,
            ),
        )
    } else {
        None
    }
}

/// The matched stretches of every video link in `s` from position `i`
/// on, left to right, non-overlapping: watch URLs whole, otherwise the
/// bare video id.
pub open spec fn spec_scan_youtube(s: Seq<char>, i: int) -> Seq<(bool, Seq<char>)>
    decreases s.len() - i when 0 <= i <= s.len()
    via spec_scan_youtube_decreases
{
    if i >= s.len() {
        Seq::empty()
    } else {
        match yt_match_at(s, i) {
            Some((watch, start, end)) => seq![(watch, s.subrange(start, end))] + spec_scan_youtube(
                s,
                end,
            ),
            None => spec_scan_youtube(s, i + 1),
        }
    }
}

#[via_fn]
proof fn spec_scan_youtube_decreases(s: Seq<char>, i: int) {
    if i < s.len() {
        if matches_at(s, "https://www.youtube.com/watch?"@, i) {
            lemma_query_run_len_bound(s, i + "https://www.youtube.com/watch?"@.len());
        }
    }
}

/// The video id a watch URL carries in its `v` query parameter, if the
/// URL parses and the parameter is there.
pub open spec fn spec_watch_video_id(u: Seq<char>) -> Option<Seq<char>> {
    match url_query_params_of(u) {
        Some(ps) => spec_first_param(ps, "v"@, 0),
        None => None,
    }
}

/// The video ids of the scanned link stretches, in order: the id of a
/// watch URL sits in its `v` parameter and a watch URL without one is
/// skipped; the other links are ids already.
pub open spec fn spec_yt_ids(items: Seq<(bool, Seq<char>)>) -> Seq<Seq<char>>
    decreases items.len(),
{
    if items.len() == 0 {
        Seq::empty()
    } else {
        (if items.first().0 {
            match spec_watch_video_id(items.first().1) {
                Some(id) => seq![id],
                None => Seq::empty(),
            }
        } else {
            seq![items.first().1]
        }) + spec_yt_ids(items.drop_first())
    }
}

/// All video ids a message links, left to right.
pub open spec fn spec_youtube_ids(s: Seq<char>) -> Seq<Seq<char>> {
    spec_yt_ids(spec_scan_youtube(s, 0))
}

/// Whether the message mentions a YouTube host at all.
pub fn contains_youtube_link(link: String) -> (b: bool)
    ensures
        b == (contains_seq(link@, spec_youtube_domain()) || contains_seq(
            link@,
            spec_short_youtube_domain(),
        )),
{
    let p1 = str_chars("youtube.com");
    let p2 = str_chars("youtu.be");
    let c1 = str_contains_chars(link.as_str(), &p1);
    let c2 = str_contains_chars(link.as_str(), &p2);
    c1 || c2
}

/// Decides whether `c` is a query character.
fn query_char(c: char) -> (b: bool)
    ensures
        b == is_query_char(c),
{
    crate::text::id_char(c) || c == '%' || c == '=' || c == '&' || c == '_' || c == '-'
}

/// Scans the maximal run of query characters starting at `start`.
fn query_run_end(s: &Vec<char>, start: usize) -> (end: usize)
    requires
        start <= s@.len(),
    ensures
        end == start + query_run_len(s@, start as int),
        start <= end <= s@.len(),
{
    let mut end: usize = start;
    while end < s.len() && query_char(s[end])
        invariant
            start <= end <= s@.len(),
            query_run_len(s@, start as int) == end - start + query_run_len(s@, end as int),
        decreases s@.len() - end,
    {
        end = end + 1;
    }
    proof {
        lemma_query_run_len_bound(s@, start as int);
    }
    end
}

/// Decides whether eleven video-id characters occupy `s[i..i + 11]`.
fn vid11(s: &Vec<char>, i: usize) -> (b: bool)
    requires
        i <= s@.len(),
    ensures
        b == vid11_at(s@, i as int),
{
    if s.len() - i < 11 {
        return false;
    }
    let mut j: usize = 0;
    while j < 11
        invariant
            s@.len() <= usize::MAX,
            i + 11 <= s@.len(),
            j <= 11,
            forall|k: int| 0 <= k < j ==> is_vid_char(#[trigger] s@[i + k]),
        decreases 11 - j,
    {
        let c = s[i + j];
        if !(crate::text::id_char(c) || c == '-') {
            return false;
        }
        j = j + 1;
    }
    true
}

/// Extracts every video id a message links, left to right: ids of short
/// and live links directly, ids of watch links out of their `v` query
/// parameter.
pub fn extract_ids(link: &str) -> (r: Vec<YoutubeResource>)
    ensures
        r@.map_values(|y: YoutubeResource| yt_view(y)) == spec_youtube_ids(link@),
{
    let watch_pat = str_chars("https://www.youtube.com/watch?");
    let short_pat = str_chars("https://youtu.be/");
    let live_pat = str_chars("https://www.youtube.com/live/");
    let s = str_chars(link);
    let mut out: Vec<YoutubeResource> = Vec::new();
    let mut i: usize = 0;
    while i < s.len()
        invariant
            watch_pat@ == "https://www.youtube.com/watch?"@,
            short_pat@ == "https://youtu.be/"@,
            live_pat@ == "https://www.youtube.com/live/"@,
            s@ == link@,
            i <= s@.len(),
            out@.map_values(|y: YoutubeResource| yt_view(y)) + spec_yt_ids(
                spec_scan_youtube(s@, i as int),
            ) == spec_youtube_ids(link@),
        decreases s@.len() - i,
    {
        let ghost prev = out@.map_values(|y: YoutubeResource| yt_view(y));
        let m_watch = starts_with_at(&s, &watch_pat, i);
        let m_short = starts_with_at(&s, &short_pat, i);
        let m_live = starts_with_at(&s, &live_pat, i);
        let mut hit: Option<(bool, usize, usize)> = None;
        if m_watch {
            let end = query_run_end(&s, i + watch_pat.len());
            if end > i + watch_pat.len() {
                hit = Some((true, i, end));
            }
        }
        if hit.is_none() && m_short && vid11(&s, i + short_pat.len()) {
            hit = Some((false, i + short_pat.len(), i + short_pat.len() + 11));
        }
        if hit.is_none() && m_live && vid11(&s, i + live_pat.len()) {
            hit = Some((false, i + live_pat.len(), i + live_pat.len() + 11));
        }
        proof {
            if i < s@.len() && yt_match_at(s@, i as int) is None {
                assert(spec_scan_youtube(s@, i as int) == spec_scan_youtube(s@, i as int + 1));
            }
        }
        match hit {
            Some((watch, start, end)) => {
                let ghost stretch = s@.subrange(start as int, end as int);
                let ghost scanned = spec_scan_youtube(s@, i as int);
                proof {
                    assert(yt_match_at(s@, i as int) == Some((watch, start as int, end as int)));
                    assert(scanned == seq![(watch, stretch)] + spec_scan_youtube(s@, end as int));
                    assert(scanned.first() == (watch, stretch));
                    assert(scanned.drop_first() =~= spec_scan_youtube(s@, end as int));
                    assert(scanned.len() > 0);
                    assert(spec_yt_ids(scanned) == (if watch {
                        match spec_watch_video_id(stretch) {
                            Some(id) => seq![id],
                            None => Seq::<Seq<char>>::empty(),
                        }
                    } else {
                        seq![stretch]
                    }) + spec_yt_ids(spec_scan_youtube(s@, end as int)));
                }
                if watch {
                    let url_text = chars_to_string(&chars_range(&s, start, end));
                    match url_query_params(url_text.as_str()) {
                        Some(params) => {
                            match find_query_param(&params, "v") {
                                Some(v) => {
                                    out.push(YoutubeResource::Video(v));
                                    proof {
                                        assert(out@.map_values(|y: YoutubeResource| yt_view(y))
                                            =~= prev.push(
                                            spec_watch_video_id(stretch)->Some_0,
                                        ));
                                        assert(prev + seq![spec_watch_video_id(stretch)->Some_0]
                                            =~= prev.push(spec_watch_video_id(stretch)->Some_0));
                                    }
                                },
                                None => {
                                    proof {
                                        assert(spec_watch_video_id(stretch) is None);
                                        assert(prev + Seq::<Seq<char>>::empty() =~= prev);
                                    }
                                },
                            }
                        },
                        None => {
                            proof {
                                assert(spec_watch_video_id(stretch) is None);
                                assert(prev + Seq::<Seq<char>>::empty() =~= prev);
                            }
                        },
                    }
                } else {
                    out.push(YoutubeResource::Video(chars_to_string(&chars_range(&s, start, end))));
                    proof {
                        assert(out@.map_values(|y: YoutubeResource| yt_view(y)) =~= prev.push(
                            stretch,
                        ));
                        assert(prev + seq![stretch] =~= prev.push(stretch));
                    }
                }
                i = end;
            },
            None => {
                i = i + 1;
            },
        }
    }
    out
}

/// Extracts the id of a YouTube playlist link out of its `list` query
/// parameter, if the link parses and carries one.
pub fn extract_playlist_id(link: String) -> (r: Option<String>)
    ensures
        match r {
            Some(id) => url_query_params_of(link@) matches Some(ps) && spec_first_param(
                ps,
                "list"@,
                0,
            ) == Some(id@),
            None => url_query_params_of(link@) is None || (url_query_params_of(
                link@,
            ) matches Some(ps) && spec_first_param(ps, "list"@, 0) is None),
        },
{
    match url_query_params(link.as_str()) {
        Some(params) => find_query_param(&params, "list"),
        None => None,
    }
}

/// Extracts a message's YouTube references, grouped for the
/// orchestrator: nothing when no YouTube host is mentioned, otherwise
/// one group with every video id found.
pub fn extract_resources(link: &str) -> (r: Vec<ServiceResources>)
    ensures
        !(contains_seq(link@, spec_youtube_domain()) || contains_seq(
            link@,
            spec_short_youtube_domain(),
        )) ==> r@.len() == 0,
        (contains_seq(link@, spec_youtube_domain()) || contains_seq(
            link@,
            spec_short_youtube_domain(),
        )) ==> r@.len() == 1 && (r@[0] matches ServiceResources::Youtube(v) && v@.map_values(
            |y: YoutubeResource| yt_view(y),
        ) == spec_youtube_ids(link@)),
{
    if !contains_youtube_link(String::from_str(link)) {
        return Vec::new();
    }
    let ids = extract_ids(link);
    let mut r: Vec<ServiceResources> = Vec::new();
    r.push(ServiceResources::Youtube(ids));
    r
}

} // verus!
