//! Offset/limit pagination over Shopify's cursor-based connections.
//!
//! Shopify hands out at most one page of `page_size` items per request and pages
//! forward by cursor. A window of `limit` items after `offset` is served by fetching
//! pages in order, skipping full pages that lie wholly before the offset, keeping the
//! rest, and finally cutting the window out of what was kept. The fetching is done by
//! the caller; `Pager` decides what to fetch next and what to do with each page.
use vstd::prelude::*;

use crate::text::owned;

verus! {

/// The window of items asked for and the number of pages that may be fetched for it.
#[derive(Clone, Copy, Debug, PartialEq, Eq, Structural)]
pub struct PageWindow {
    pub offset: u64,
    pub limit: u64,
    pub page_size: u64,
    pub max_pages: u64,
}

/// The number of page requests allowed for a window: `(limit + offset) / page_size`,
/// but at least one.
pub open spec fn max_pages_for(limit: u64, offset: u64, page_size: u64) -> u64 {
    let n = (limit + offset) / (page_size as int);
    if n < 1 { 1 } else { n as u64 }
}

/// The window for the optional `limit` and `offset` of a request: no offset is 0,
/// no limit is one page.
pub open spec fn window_for(limit: Option<u32>, offset: Option<u32>, page_size: u64) -> PageWindow {
    let o: u64 = match offset { Some(v) => v as u64, None => 0 };
    let l: u64 = match limit { Some(v) => v as u64, None => page_size };
    PageWindow { offset: o, limit: l, page_size, max_pages: max_pages_for(l, o, page_size) }
}

impl PageWindow {
    /// The bounds that every window satisfies.
    pub open spec fn wf(self) -> bool {
        &&& self.offset <= u32::MAX
        &&& self.limit <= u32::MAX
        &&& 0 < self.page_size <= u32::MAX
        &&& self.max_pages == max_pages_for(self.limit, self.offset, self.page_size)
    }

    /// The window for the optional `limit` and `offset` of a request.
    pub fn new(limit: Option<u32>, offset: Option<u32>, page_size: u32) -> (w: PageWindow)
        requires
            page_size > 0,
        ensures
            w == window_for(limit, offset, page_size as u64),
            w.wf(),
    {
        let o: u64 = match offset {
            Some(v) => v as u64,
            None => 0,
        };
        let l: u64 = match limit {
            Some(v) => v as u64,
            None => page_size as u64,
        };
        let n = (l + o) / (page_size as u64);
        let max_pages = if n < 1 { 1 } else { n };
        PageWindow { offset: o, limit: l, page_size: page_size as u64, max_pages }
    }

    /// The position, among the items kept, where the window starts.
    pub open spec fn start(self) -> int {
        self.offset as int % self.page_size as int
    }

    /// The position, among `len` items kept, where the window ends.
    pub open spec fn end(self, len: int) -> int {
        if self.start() + self.limit < len { self.start() + self.limit } else { len }
    }

    /// The items of the window out of the `items` kept.
    pub open spec fn select<T>(self, items: Seq<T>) -> Seq<T> {
        if self.start() >= self.end(items.len() as int) {
            Seq::empty()
        } else {
            items.subrange(self.start(), self.end(items.len() as int))
        }
    }

    /// Cuts the window out of the items kept from the pages.
    pub fn select_window<T>(&self, items: Vec<T>) -> (r: Vec<T>)
        requires
            self.wf(),
        ensures
            r@ == self.select(items@),
    {
        let start = self.offset % self.page_size;
        let len = items.len() as u64;
        let end = if start + self.limit < len { start + self.limit } else { len };
        if start >= end {
            return Vec::new();
        }
        let mut items = items;
        items.truncate(end as usize);
        let tail = items.split_off(start as usize);
        tail
    }
}

/// What to do with a page that came back.
#[derive(Clone, Copy, Debug, PartialEq, Eq, Structural)]
pub enum PageOutcome {
    /// The page was empty: nothing more to fetch.
    Stop,
    /// A full page wholly before the offset, with more to come: drop it.
    Skip,
    /// Keep the items of the page.
    Take,
}

/// The decision for page number `index` of the window, given how many items it held
/// and whether more pages follow.
pub open spec fn page_outcome(window: PageWindow, index: u64, edge_count: nat, has_next_page: bool) -> PageOutcome {
    if edge_count == 0 {
        PageOutcome::Stop
    } else if edge_count == window.page_size && window.page_size * (index + 1) <= window.offset && has_next_page {
        PageOutcome::Skip
    } else {
        PageOutcome::Take
    }
}

/// Drives the page requests for one window.
#[derive(Clone, Debug)]
pub struct Pager {
    pub window: PageWindow,
    /// The number of pages fetched so far.
    pub index: u64,
    /// The cursor to fetch the next page after (`None` for the first page).
    pub cursor: Option<String>,
    /// Whether no further page is to be fetched.
    pub done: bool,
}

impl Pager {
    pub open spec fn wf(self) -> bool {
        &&& self.window.wf()
        &&& self.index <= self.window.max_pages
    }

    /// Whether another page is to be fetched.
    pub open spec fn wants_more(self) -> bool {
        !self.done && self.index < self.window.max_pages
    }

    /// A pager for the window of the optional `limit` and `offset`, with pages of `page_size`.
    pub fn new(limit: Option<u32>, offset: Option<u32>, page_size: u32) -> (p: Pager)
        requires
            page_size > 0,
        ensures
            p.wf(),
            p.window == window_for(limit, offset, page_size as u64),
            p.index == 0,
            p.cursor is None,
            !p.done,
    {
        Pager { window: PageWindow::new(limit, offset, page_size), index: 0, cursor: None, done: false }
    }

    /// The cursor to fetch the next page after, or `None` when no page is to be fetched;
    /// `Some(None)` asks for the first page.
    pub fn next_request(&self) -> (r: Option<Option<String>>)
        ensures
            r is Some <==> self.wants_more(),
            r matches Some(c) ==> c == self.cursor,
    {
        if self.done || self.index >= self.window.max_pages {
            return None;
        }
        Some(self.cursor.clone())
    }

    /// Takes in the page just fetched: an empty page stops the pager; otherwise the
    /// cursor moves to the page's end cursor and the page is skipped (a full page before
    /// the offset with more to come) or taken; a taken last page stops the pager.
    pub fn on_page(&mut self, edge_count: usize, has_next_page: bool, end_cursor: Option<String>) -> (o: PageOutcome)
        requires
            old(self).wf(),
            old(self).wants_more(),
        ensures
            final(self).wf(),
            o == page_outcome(old(self).window, old(self).index, edge_count as nat, has_next_page),
            final(self).window == old(self).window,
            o == PageOutcome::Stop ==> final(self).done && final(self).index == old(self).index
                && final(self).cursor == old(self).cursor,
            o != PageOutcome::Stop ==> final(self).index == old(self).index + 1 && final(self).cursor == end_cursor,
            o == PageOutcome::Skip ==> final(self).done == old(self).done,
            o == PageOutcome::Take ==> final(self).done == !has_next_page,
    {
        if edge_count == 0 {
            self.done = true;
            return PageOutcome::Stop;
        }
        let page_size = self.window.page_size;
        let full = edge_count as u64 == page_size;
        assert(self.index < self.window.max_pages);
        assert(self.window.max_pages <= u64::MAX / 2) by (nonlinear_arith)
            requires
                self.window.max_pages == max_pages_for(self.window.limit, self.window.offset, self.window.page_size),
                self.window.limit <= u32::MAX,
                self.window.offset <= u32::MAX,
                self.window.page_size > 0,
        {}
        let next_index: u64 = self.index + 1;
        assert((page_size as u128) * (next_index as u128) <= u128::MAX) by (nonlinear_arith)
            requires
                page_size <= u32::MAX,
                next_index <= u64::MAX,
        {}
        let before_offset = (page_size as u128) * ((self.index + 1) as u128) <= self.window.offset as u128;
        self.cursor = end_cursor;
        self.index = self.index + 1;
        if full && before_offset && has_next_page {
            PageOutcome::Skip
        } else {
            if !has_next_page {
                self.done = true;
            }
            PageOutcome::Take
        }
    }
}

/// The `after` argument of a connection query: empty for the first page.
pub open spec fn after_text(cursor: Option<String>) -> Seq<char> {
    match cursor {
        Some(c) => "after: \""@ + c@ + "\""@,
        None => Seq::<char>::empty(),
    }
}

/// The `after` argument of a connection query: empty for the first page.
pub fn after_query(cursor: &Option<String>) -> (r: String)
    ensures
        r@ == after_text(*cursor),
{
    match cursor {
        None => String::new(),
        Some(c) => {
            let mut r = owned("after: \"");
            r.append(c.as_str());
            r.append("\"");
            r
        },
    }
}

/// A pager fetches no more pages than the window allows: every taken or skipped page
/// moves it one page on, and it asks for nothing at its limit.
pub proof fn lemma_pager_bounded(p: Pager)
    requires
        p.wf(),
        p.index == p.window.max_pages,
    ensures
        !p.wants_more(),
{
}

/// A skipped page is full, lies wholly before the offset and is not the last page.
pub proof fn lemma_skipped_page_lies_before_offset(window: PageWindow, index: u64, edge_count: nat, has_next_page: bool)
    requires
        page_outcome(window, index, edge_count, has_next_page) == PageOutcome::Skip,
    ensures
        edge_count == window.page_size,
        window.page_size * (index + 1) <= window.offset,
        has_next_page,
{
}

/// The window never holds more than `limit` items, nor more than were kept.
pub proof fn lemma_window_size<T>(window: PageWindow, items: Seq<T>)
    requires
        window.wf(),
    ensures
        window.select(items).len() <= window.limit,
        window.select(items).len() <= items.len(),
        window.start() + window.limit <= items.len() ==> window.select(items).len() == window.limit,
{
}

/// The items of page `index` of a listing served in pages of `page_size` items.
pub open spec fn listing_page<T>(all: Seq<T>, page_size: nat, index: nat) -> Seq<T> {
    let from = index * page_size;
    let to = (index + 1) * page_size;
    if from >= all.len() {
        Seq::empty()
    } else if to <= all.len() {
        all.subrange(from as int, to as int)
    } else {
        all.subrange(from as int, all.len() as int)
    }
}

/// Whether more pages of the listing follow page `index`.
pub open spec fn listing_has_next<T>(all: Seq<T>, page_size: nat, index: nat) -> bool {
    (index + 1) * page_size < all.len()
}

/// The items that a pager for `window` keeps, from page `index` on, when the listing
/// `all` is served in pages of the window's page size: each page fetched is stopped at,
/// skipped or taken as `Pager::on_page` decides, and a taken page without a next one is
/// the last fetched.
pub open spec fn paged_items<T>(window: PageWindow, all: Seq<T>, index: nat) -> Seq<T>
    decreases window.max_pages - index,
{
    if index >= window.max_pages {
        Seq::empty()
    } else {
        let page = listing_page(all, window.page_size as nat, index);
        let next = listing_has_next(all, window.page_size as nat, index);
        match page_outcome(window, index as u64, page.len(), next) {
            PageOutcome::Stop => Seq::empty(),
            PageOutcome::Skip => paged_items(window, all, index + 1),
            PageOutcome::Take => if next {
                page + paged_items(window, all, index + 1)
            } else {
                page
            },
        }
    }
}

/// A full page with more to come is skipped exactly when it lies wholly before the
/// offset: its last item comes before item number `offset`.
pub proof fn lemma_full_page_skipped_iff_before_offset(window: PageWindow, index: u64)
    requires
        window.page_size > 0,
    ensures
        page_outcome(window, index, window.page_size as nat, true) == PageOutcome::Skip
            <==> window.page_size * (index + 1) <= window.offset,
        page_outcome(window, index, window.page_size as nat, true) != PageOutcome::Skip ==>
            page_outcome(window, index, window.page_size as nat, true) == PageOutcome::Take,
{
}

proof fn lemma_paged_skip_phase<T>(window: PageWindow, all: Seq<T>, index: nat)
    requires
        window.wf(),
        window.offset < all.len(),
        index <= (window.offset as int) / (window.page_size as int) <= window.max_pages,
    ensures
        paged_items(window, all, index) == paged_items(window, all, ((window.offset as int) / (window.page_size as int)) as nat),
    decreases (window.offset as int) / (window.page_size as int) - index,
{
    let ps = window.page_size as int;
    let s = (window.offset as int) / ps;
    if index < s {
        assert((index + 1) * ps <= s * ps) by (nonlinear_arith)
            requires
                index + 1 <= s,
                ps > 0,
        ;
        assert(s * ps <= window.offset) by {
            vstd::arithmetic::div_mod::lemma_fundamental_div_mod(window.offset as int, ps);
            assert(window.offset as int % ps >= 0);
        }
        assert(index * ps < (index + 1) * ps) by (nonlinear_arith)
            requires
                ps > 0,
        ;
        assert(index * ps + ps == (index + 1) * ps) by (nonlinear_arith);
        assert(listing_page(all, ps as nat, index).len() == ps);
        assert(listing_has_next(all, ps as nat, index));
        assert(index <= u32::MAX);
        assert(ps * (index + 1) == (index + 1) * ps) by (nonlinear_arith);
        assert(window.page_size * ((index as u64) + 1) <= window.offset);
        lemma_paged_skip_phase(window, all, index + 1);
    }
}

proof fn lemma_paged_take_phase<T>(window: PageWindow, all: Seq<T>, index: nat)
    requires
        window.wf(),
        (window.offset as int) / (window.page_size as int) <= index <= window.max_pages,
    ensures
        ({
            let ps = window.page_size as int;
            let from = if index * ps < all.len() { index * ps } else { all.len() as int };
            let to = if window.max_pages * ps < all.len() { window.max_pages * ps } else { all.len() as int };
            paged_items(window, all, index) == all.subrange(from, to)
        }),
    decreases window.max_pages - index,
{
    let ps = window.page_size as int;
    let m = window.max_pages as int;
    let s = (window.offset as int) / ps;
    let to = if m * ps < all.len() { m * ps } else { all.len() as int };
    assert(index * ps <= m * ps) by (nonlinear_arith)
        requires
            index <= m,
            ps > 0,
    ;
    if index < window.max_pages {
        assert((index + 1) * ps <= m * ps) by (nonlinear_arith)
            requires
                index + 1 <= m,
                ps > 0,
        ;
        assert(index * ps + ps == (index + 1) * ps) by (nonlinear_arith);
        assert(window.offset < (s + 1) * ps) by {
            vstd::arithmetic::div_mod::lemma_fundamental_div_mod(window.offset as int, ps);
            assert(window.offset as int % ps < ps);
            assert(ps * s == s * ps) by (nonlinear_arith);
            assert((s + 1) * ps == s * ps + ps) by (nonlinear_arith);
        }
        assert((s + 1) * ps <= (index + 1) * ps) by (nonlinear_arith)
            requires
                s <= index,
                ps > 0,
        ;
        lemma_paged_take_phase(window, all, index + 1);
        if index * ps >= all.len() {
            assert(all.subrange(all.len() as int, to) =~= Seq::<T>::empty());
        } else {
            let page = listing_page(all, ps as nat, index);
            assert(page.len() > 0);
            assert(ps * (index + 1) == (index + 1) * ps) by (nonlinear_arith);
            assert(!(window.page_size * ((index as u64) + 1) <= window.offset));
            if listing_has_next(all, ps as nat, index) {
                assert(page =~= all.subrange(index * ps, (index + 1) * ps));
                assert(all.subrange(index * ps, to) =~= page + all.subrange((index + 1) * ps, to));
            } else {
                assert(all.subrange(index * ps, to) =~= page);
            }
        }
    } else {
        assert(all.subrange(to, to) =~= Seq::<T>::empty());
    }
}

/// Paging serves exactly the window asked for: for a well-formed window whose offset
/// lies within the listing and whose end `offset + limit` falls on a page boundary, the
/// items that a pager keeps from a listing served in full pages (all but the last), cut to
/// the window, are the items numbered `offset` to `offset + limit` of the listing (or to
/// its end). So the first item returned is item number `offset`: every full page before
/// it is skipped, none after it.
pub proof fn lemma_paging_gives_the_window<T>(window: PageWindow, all: Seq<T>)
    requires
        window.wf(),
        window.offset < all.len(),
        (window.offset + window.limit) % (window.page_size as int) == 0,
    ensures
        window.select(paged_items(window, all, 0)) == all.subrange(
            window.offset as int,
            if window.offset + window.limit < all.len() { window.offset + window.limit } else { all.len() as int },
        ),
{
    let ps = window.page_size as int;
    let m = window.max_pages as int;
    let s = (window.offset as int) / ps;
    let o = window.offset as int;
    let l = window.limit as int;
    vstd::arithmetic::div_mod::lemma_fundamental_div_mod(o, ps);
    vstd::arithmetic::div_mod::lemma_fundamental_div_mod(o + l, ps);
    assert(ps * s == s * ps) by (nonlinear_arith);
    assert(o % ps >= 0 && o % ps < ps);
    assert(s * ps <= o);
    // The pages allowed reach the end of the window.
    assert(m * ps >= o + l) by {
        if (o + l) / ps >= 1 {
            assert(m == (l + o) / ps);
            assert(o + l == ps * ((o + l) / ps));
            assert(ps * ((o + l) / ps) == m * ps) by (nonlinear_arith)
                requires
                    m == (o + l) / ps,
            ;
        } else {
            assert(o + l < ps) by {
                if o + l >= ps {
                    vstd::arithmetic::div_mod::lemma_div_is_ordered(ps, o + l, ps);
                    vstd::arithmetic::div_mod::lemma_div_by_self(ps);
                }
            }
            assert(m == 1);
        }
    }
    assert(s <= m) by {
        if s > m {
            assert(s * ps >= (m + 1) * ps) by (nonlinear_arith)
                requires
                    s >= m + 1,
                    ps > 0,
            ;
            assert((m + 1) * ps == m * ps + ps) by (nonlinear_arith);
        }
    }
    assert(s >= 0) by {
        vstd::arithmetic::div_mod::lemma_div_pos_is_pos(o, ps);
    }
    lemma_paged_skip_phase(window, all, 0);
    lemma_paged_take_phase(window, all, s as nat);
    let kept = paged_items(window, all, 0);
    let to = if m * ps < all.len() { m * ps } else { all.len() as int };
    assert(kept == all.subrange(s * ps, to));
    assert(window.start() == o - s * ps);
}

} // verus!
