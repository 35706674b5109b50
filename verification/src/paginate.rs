//! Walking a catalog's paged album listing. The caller performs the page
//! requests — the first with no cursor, each later one with the cursor
//! the previous response carried — and feeds every response in; the
//! accumulator is exactly the concatenation of the pages' items, in
//! order. A failed page request aborts the whole walk: the caller drops
//! the accumulator and reports an error, so no partial listing escapes.

use vstd::prelude::*;

verus! {

/// One response of the paged listing endpoint: the page's item ids and
/// the cursor for the next page, absent on the last page.
pub struct PageResponse {
    pub items: Vec<String>,
    pub next_cursor: Option<String>,
}

/// The items of a page, as sequences of characters.
pub open spec fn spec_page_items(p: PageResponse) -> Seq<Seq<char>> {
    p.items@.map_values(|s: String| s@)
}

/// The concatenation of the pages' item sequences, in page order.
pub open spec fn cat_pages(pages: Seq<Seq<Seq<char>>>) -> Seq<Seq<char>>
    decreases pages.len(),
{
    if pages.len() == 0 {
        Seq::empty()
    } else {
        cat_pages(pages.drop_last()) + pages.last()
    }
}

/// The total number of items across all pages.
pub open spec fn total_items(pages: Seq<Seq<Seq<char>>>) -> int
    decreases pages.len(),
{
    if pages.len() == 0 {
        0
    } else {
        total_items(pages.drop_last()) + pages.last().len()
    }
}

/// Concatenating all pages yields exactly the items of every page — as
/// many items as the pages hold together, each page's items contiguous
/// and in their original order.
pub proof fn lemma_cat_pages_complete(pages: Seq<Seq<Seq<char>>>, k: int)
    requires
        0 <= k < pages.len(),
    ensures
        cat_pages(pages).len() == total_items(pages),
        total_items(pages.take(k)) + pages[k].len() <= cat_pages(pages).len(),
        forall|j: int| 0 <= j < pages[k].len() ==> cat_pages(pages)[total_items(pages.take(k)) + j]
            == pages[k][j],
    decreases pages.len(),
{
    lemma_cat_pages_len(pages);
    lemma_cat_pages_len(pages.take(k));
    if k == pages.len() - 1 {
        assert(pages.take(k) =~= pages.drop_last());
        lemma_cat_pages_len(pages.drop_last());
        assert(pages.last() == pages[k]);
    } else {
        lemma_cat_pages_complete(pages.drop_last(), k);
        assert(pages.drop_last().take(k) =~= pages.take(k));
        assert(pages.drop_last()[k] == pages[k]);
        lemma_cat_pages_len(pages.drop_last());
    }
}

/// The concatenation holds as many items as the pages together.
pub proof fn lemma_cat_pages_len(pages: Seq<Seq<Seq<char>>>)
    ensures
        cat_pages(pages).len() == total_items(pages),
        total_items(pages) >= 0,
    decreases pages.len(),
{
    if pages.len() > 0 {
        lemma_cat_pages_len(pages.drop_last());
    }
}

/// However many pages an album was split into, a walk that absorbed
/// them holds exactly their items: as many as the pages carry together,
/// in page order.
pub proof fn pagination_collects_all(p: &AlbumPagination)
    requires
        p.wf(),
    ensures
        p.items() == cat_pages(p.pages()),
        p.items().len() == total_items(p.pages()),
{
    lemma_cat_pages_len(p.pages());
}

/// Accumulates the items of an album's pages. `next_cursor` is what the
/// next page request must carry; once `done`, `into_items` yields the
/// complete listing.
pub struct AlbumPagination {
    items: Vec<String>,
    cursor: Option<String>,
    finished: bool,
    pages: Ghost<Seq<Seq<Seq<char>>>>,
}

impl AlbumPagination {
    /// The items absorbed so far, in order.
    pub closed spec fn items(&self) -> Seq<Seq<char>> {
        self.items@.map_values(|s: String| s@)
    }

    /// The item sequences of the pages absorbed so far.
    pub closed spec fn pages(&self) -> Seq<Seq<Seq<char>>> {
        self.pages@
    }

    /// Whether the last page has been absorbed.
    pub closed spec fn done(&self) -> bool {
        self.finished
    }

    /// The cursor the next page request must carry; `None` on the first
    /// request.
    pub closed spec fn cursor(&self) -> Option<Seq<char>> {
        match self.cursor {
            Some(c) => Some(c@),
            None => None,
        }
    }

    /// The accumulator is exactly the concatenation of the absorbed
    /// pages' items.
    pub closed spec fn wf(&self) -> bool {
        self.items@.map_values(|s: String| s@) == cat_pages(self.pages@)
    }

    /// Begins a walk: nothing absorbed, first request carries no cursor.
    pub fn new() -> (r: AlbumPagination)
        ensures
            r.wf(),
            !r.done(),
            r.items() == Seq::<Seq<char>>::empty(),
            r.pages() == Seq::<Seq<Seq<char>>>::empty(),
            r.cursor() is None,
    {
        let r = AlbumPagination {
            items: Vec::new(),
            cursor: None,
            finished: false,
            pages: Ghost(Seq::empty()),
        };
        proof {
            assert(r.items@.map_values(|s: String| s@) =~= cat_pages(r.pages@));
        }
        r
    }

    /// The cursor to pass on the next page request.
    pub fn next_cursor(&self) -> (c: &Option<String>)
        ensures
            self.cursor() == (match c {
                Some(s) => Some(s@),
                None => None::<Seq<char>>,
            }),
    {
        &self.cursor
    }

    /// Whether the walk has absorbed the last page.
    pub fn is_done(&self) -> (b: bool)
        ensures
            b == self.done(),
    {
        self.finished
    }

    /// Absorbs one page response: appends its items and takes its cursor;
    /// a response without a cursor is the last page.
    pub fn absorb(&mut self, page: PageResponse)
        requires
            old(self).wf(),
            !old(self).done(),
        ensures
            final(self).wf(),
            final(self).pages() == old(self).pages().push(spec_page_items(page)),
            final(self).items() == old(self).items() + spec_page_items(page),
            final(self).done() == (page.next_cursor is None),
            final(self).cursor() == (match page.next_cursor {
                Some(c) => Some(c@),
                None => None::<Seq<char>>,
            }),
    {
        let ghost old_items = self.items@.map_values(|s: String| s@);
        let ghost page_items = spec_page_items(page);
        let PageResponse { mut items, next_cursor } = page;
        self.items.append(&mut items);
        self.finished = match &next_cursor {
            Some(_) => false,
            None => true,
        };
        self.cursor = next_cursor;
        proof {
            self.pages@ = self.pages@.push(page_items);
            assert(self.items@.map_values(|s: String| s@) =~= old_items + page_items);
            assert(self.pages@.drop_last() =~= self.pages@.subrange(0, self.pages@.len() - 1));
            assert(self.pages@.drop_last() =~= old(self).pages());
        }
    }

    /// The complete listing, once the last page is absorbed. The walk
    /// must have finished: an aborted walk yields nothing.
    pub fn into_items(self) -> (r: Vec<String>)
        requires
            self.wf(),
            self.done(),
        ensures
            r@.map_values(|s: String| s@) == cat_pages(self.pages()),
    {
        self.items
    }
}

} // verus!
