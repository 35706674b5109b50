//! Resolution of shortened Spotify links. Each HTTP hop is observed by
//! the caller, who performs the GET and reports the URL it landed on;
//! the resolver decides whether to follow another hop. A bound on the
//! hop count is a safety valve against redirect loops: when it is
//! reached the last observed URL is the result, not an error.

use vstd::prelude::*;

use crate::spotify::spec_spotify_short_domain;
use crate::text::{contains_seq, str_chars, str_contains_chars};

verus! {

/// Hops after which resolution stops and keeps the URL it has.
pub const MAX_REDIRECT_DEPTH: u32 = 5;

/// The URL still belongs to the shortening host.
pub open spec fn is_short_url(u: Seq<char>) -> bool {
    contains_seq(u, spec_spotify_short_domain())
}

/// The URL a redirect chain resolves to, starting at position `i`.
/// `chain[0]` is the URL resolution began with and `chain[k]` the URL
/// observed at hop `k`. At the hop bound the current URL is kept as is;
/// otherwise the next observed URL is followed while it is still a
/// shortened one.
pub open spec fn spec_resolve(chain: Seq<Seq<char>>, i: int) -> Seq<char>
    decreases chain.len() - i when 0 <= i < chain.len()
{
    if i >= MAX_REDIRECT_DEPTH as int {
        chain[i]
    } else if i + 1 >= chain.len() {
        chain[i]
    } else if is_short_url(chain[i + 1]) {
        spec_resolve(chain, i + 1)
    } else {
        chain[i + 1]
    }
}

/// Follows a chain of shortened links hop by hop. The caller fetches
/// `fetch_url` and reports each observed URL through `on_fetched` until
/// `done`; `result` is then the resolved URL.
pub struct ShortlinkResolver {
    url: String,
    depth: u32,
    finished: bool,
    trace: Ghost<Seq<Seq<char>>>,
}

impl ShortlinkResolver {
    /// The URLs seen so far: the starting URL, then one per hop.
    pub closed spec fn chain(&self) -> Seq<Seq<char>> {
        self.trace@
    }

    /// Whether resolution has finished.
    pub closed spec fn done(&self) -> bool {
        self.finished
    }

    /// The URL the resolver currently holds.
    pub closed spec fn current(&self) -> Seq<char> {
        self.url@
    }

    /// The resolver follows `spec_resolve` on the chain of observed URLs:
    /// once done, the held URL is the chain's resolution; while it is not
    /// done, however the chain goes on, the resolution is decided from
    /// the current position.
    pub closed spec fn wf(&self) -> bool {
        &&& self.trace@.len() == self.depth + 1
        &&& self.trace@.last() == self.url@
        &&& (!self.finished ==> self.depth < MAX_REDIRECT_DEPTH)
        &&& (!self.finished ==> forall|ext: Seq<Seq<char>>|
            #[trigger] spec_resolve(self.trace@ + ext, 0) == spec_resolve(
                self.trace@ + ext,
                self.depth as int,
            ))
        &&& (self.finished ==> self.url@ == spec_resolve(self.trace@, 0))
    }

    /// Begins resolution of `url`.
    pub fn start(url: String) -> (r: ShortlinkResolver)
        ensures
            r.wf(),
            !r.done(),
            r.chain() == seq![url@],
            r.current() == url@,
    {
        let ghost trace = seq![url@];
        let r = ShortlinkResolver { url, depth: 0, finished: false, trace: Ghost(trace) };
        proof {
            assert forall|ext: Seq<Seq<char>>|
                #[trigger] spec_resolve(trace + ext, 0) == spec_resolve(trace + ext, 0int) by {}
            assert(r.wf());
        }
        r
    }

    /// The URL the caller must fetch next.
    pub fn fetch_url(&self) -> (u: &String)
        ensures
            u@ == self.current(),
    {
        &self.url
    }

    /// Whether the caller still has a hop to fetch.
    pub fn needs_fetch(&self) -> (b: bool)
        requires
            self.wf(),
        ensures
            b == !self.done(),
    {
        !self.finished
    }

    /// Records the URL one GET of the current URL landed on. While the
    /// observed URL is still a shortened one and the hop bound is not
    /// reached, resolution continues from it; otherwise it is the result.
    pub fn on_fetched(&mut self, observed: String)
        requires
            old(self).wf(),
            !old(self).done(),
        ensures
            final(self).wf(),
            final(self).chain() == old(self).chain().push(observed@),
            final(self).current() == observed@,
            final(self).done() == (!is_short_url(observed@) || old(self).chain().len()
                >= MAX_REDIRECT_DEPTH),
    {
        let ghost old_trace = self.trace@;
        let ghost d = self.depth as int;
        let short = {
            let p = str_chars("spotify.link");
            proof {
                assert(p@ == spec_spotify_short_domain());
            }
            str_contains_chars(observed.as_str(), &p)
        };
        proof {
            let new_trace = old_trace.push(observed@);
            assert(old_trace + seq![observed@] =~= new_trace);
            // the old invariant, applied to the extension by the observed URL
            assert(spec_resolve(old_trace + seq![observed@], 0) == spec_resolve(
                old_trace + seq![observed@],
                d,
            ));
            assert((new_trace + Seq::<Seq<char>>::empty()) =~= new_trace);
            assert(new_trace[d + 1] == observed@);
            if short && self.depth + 1 < MAX_REDIRECT_DEPTH {
                assert forall|ext: Seq<Seq<char>>|
                    #[trigger] spec_resolve(new_trace + ext, 0) == spec_resolve(
                        new_trace + ext,
                        d + 1,
                    ) by {
                    assert(old_trace + (seq![observed@] + ext) =~= new_trace + ext);
                    assert(spec_resolve(old_trace + (seq![observed@] + ext), 0) == spec_resolve(
                        old_trace + (seq![observed@] + ext),
                        d,
                    ));
                    assert((new_trace + ext)[d + 1] == observed@);
                }
            } else {
                // finishing: the resolution of the recorded chain is the observed URL
                assert(spec_resolve(new_trace, 0) == spec_resolve(new_trace, d));
                if short {
                    assert(spec_resolve(new_trace, d) == spec_resolve(new_trace, d + 1));
                    assert(spec_resolve(new_trace, d + 1) == new_trace[d + 1]);
                }
            }
        }
        self.trace = Ghost(self.trace@.push(observed@));
        self.url = observed;
        if short && self.depth + 1 < MAX_REDIRECT_DEPTH {
            self.depth = self.depth + 1;
        } else {
            self.depth = self.depth + 1;
            self.finished = true;
        }
    }

    /// The resolved URL, once resolution is done.
    pub fn result(self) -> (r: String)
        requires
            self.wf(),
            self.done(),
        ensures
            r@ == spec_resolve(self.chain(), 0),
    {
        self.url
    }
}

/// A redirect chain of at most `MAX_REDIRECT_DEPTH` hops whose
/// intermediate URLs are shortened ones and whose final URL is not
/// resolves to that final URL.
pub proof fn resolve_reaches_final(chain: Seq<Seq<char>>)
    requires
        2 <= chain.len(),
        chain.len() - 1 <= MAX_REDIRECT_DEPTH,
        forall|k: int| 1 <= k < chain.len() - 1 ==> is_short_url(#[trigger] chain[k]),
        !is_short_url(chain.last()),
    ensures
        spec_resolve(chain, 0) == chain.last(),
{
    lemma_resolve_reaches_final_from(chain, 0);
}

proof fn lemma_resolve_reaches_final_from(chain: Seq<Seq<char>>, i: int)
    requires
        2 <= chain.len(),
        chain.len() - 1 <= MAX_REDIRECT_DEPTH,
        forall|k: int| 1 <= k < chain.len() - 1 ==> is_short_url(#[trigger] chain[k]),
        !is_short_url(chain.last()),
        0 <= i < chain.len() - 1,
    ensures
        spec_resolve(chain, i) == chain.last(),
    decreases chain.len() - i,
{
    if i + 1 < chain.len() - 1 {
        lemma_resolve_reaches_final_from(chain, i + 1);
    }
}

/// A redirect chain still shortened at the hop bound resolves to the URL
/// observed at that bound, whatever follows.
pub proof fn resolve_depth_capped(chain: Seq<Seq<char>>)
    requires
        chain.len() > MAX_REDIRECT_DEPTH + 1,
        forall|k: int| 1 <= k <= MAX_REDIRECT_DEPTH ==> is_short_url(#[trigger] chain[k]),
    ensures
        spec_resolve(chain, 0) == chain[MAX_REDIRECT_DEPTH as int],
{
    lemma_resolve_depth_capped_from(chain, 0);
}

proof fn lemma_resolve_depth_capped_from(chain: Seq<Seq<char>>, i: int)
    requires
        chain.len() > MAX_REDIRECT_DEPTH + 1,
        forall|k: int| 1 <= k <= MAX_REDIRECT_DEPTH ==> is_short_url(#[trigger] chain[k]),
        0 <= i <= MAX_REDIRECT_DEPTH,
    ensures
        spec_resolve(chain, i) == chain[MAX_REDIRECT_DEPTH as int],
    decreases MAX_REDIRECT_DEPTH - i,
{
    if i < MAX_REDIRECT_DEPTH {
        lemma_resolve_depth_capped_from(chain, i + 1);
    }
}

} // verus!
