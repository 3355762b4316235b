//! Paging through a remote collection.
//!
//! A paginated source answers requests of the form `(offset, limit)` with a
//! page of items. The cursor starts at offset 0 and advances by the length
//! of each page received, so every request's offset equals the cumulative
//! item count seen so far. The first empty page ends the sequence cleanly;
//! a fetch or decode failure ends it early (soft end of data, not an error).
//!
//! [`Fetcher`] holds the cursor state and makes the decisions; the caller
//! performs the page requests. [`paginate`] and [`collect_items`] run the
//! whole loop over a source whose answers are given up front, and carry the
//! contracts that pin down the request trace and the emitted items.

use vstd::prelude::*;

verus! {

/// One page request to a paginated source: `limit` items starting at `offset`.
#[derive(PartialEq, Eq, Structural, Clone, Copy, Debug)]
pub struct PageRequest {
    pub offset: usize,
    pub limit: usize,
}

/// Cursor state for paging through a remote collection.
pub struct Fetcher {
    offset: usize,
    done: bool,
}

/// The total number of items in the first `i` pages, where `sizes` gives
/// each page's item count.
pub open spec fn items_before(sizes: Seq<usize>, i: int) -> int
    decreases i,
{
    if i <= 0 {
        0
    } else {
        items_before(sizes, i - 1) + sizes[i - 1]
    }
}

/// The number of pages before the first empty one, or the number of pages
/// given if none is empty.
pub open spec fn pages_until_empty(sizes: Seq<usize>) -> int
    decreases sizes.len(),
{
    if sizes.len() == 0 {
        0
    } else if sizes[0] == 0 {
        0
    } else {
        1 + pages_until_empty(sizes.drop_first())
    }
}

impl Fetcher {
    /// The cumulative number of items received so far.
    pub closed spec fn spec_offset(&self) -> usize {
        self.offset
    }

    /// Whether the source is exhausted: an empty page or a failure was seen.
    pub closed spec fn spec_done(&self) -> bool {
        self.done
    }

    /// A fresh cursor, positioned at the start of the collection.
    pub fn new() -> (f: Fetcher)
        ensures
            f.spec_offset() == 0,
            !f.spec_done(),
    {
        Fetcher { offset: 0, done: false }
    }

    pub fn is_done(&self) -> (b: bool)
        ensures
            b == self.spec_done(),
    {
        self.done
    }

    pub fn offset(&self) -> (o: usize)
        ensures
            o == self.spec_offset(),
    {
        self.offset
    }

    /// The request for the next page: offsets are requested in strictly
    /// increasing order, each equal to the item count seen so far.
    pub fn next_request(&self, limit: usize) -> (r: PageRequest)
        requires
            !self.spec_done(),
        ensures
            r.offset == self.spec_offset(),
            r.limit == limit,
    {
        PageRequest { offset: self.offset, limit }
    }

    /// Record that the pending request was answered with `n_items` items.
    /// An empty page ends the sequence; otherwise the cursor advances.
    pub fn record_page(&mut self, n_items: usize)
        requires
            !old(self).spec_done(),
            old(self).spec_offset() + n_items <= usize::MAX,
        ensures
            final(self).spec_done() == (n_items == 0),
            final(self).spec_offset() == old(self).spec_offset() + n_items,
    {
        if n_items == 0 {
            self.done = true;
        } else {
            self.offset = self.offset + n_items;
        }
    }

    /// Record that the pending request failed: the failure is treated as a
    /// soft end of data, not as an error of the run.
    pub fn record_failure(&mut self)
        ensures
            final(self).spec_done(),
            final(self).spec_offset() == old(self).spec_offset(),
    {
        self.done = true;
    }
}

/// `items_before` grows by one page's count at a time, so it never
/// decreases as more pages are counted.
proof fn lemma_items_before_monotone(sizes: Seq<usize>, i: int, j: int)
    requires
        0 <= i <= j,
    ensures
        items_before(sizes, i) <= items_before(sizes, j),
    decreases j - i,
{
    if i < j {
        lemma_items_before_monotone(sizes, i, j - 1);
    }
}

/// Across nonempty pages the cumulative count strictly grows.
proof fn lemma_items_before_strict(sizes: Seq<usize>, i: int, j: int)
    requires
        0 <= i < j <= sizes.len(),
        forall|m: int| i <= m < j ==> sizes[m] != 0,
    ensures
        items_before(sizes, i) < items_before(sizes, j),
    decreases j - i,
{
    if i < j - 1 {
        lemma_items_before_strict(sizes, i, j - 1);
    }
}

/// The pages before the first empty one are exactly the nonempty prefix:
/// every page before the cut is nonempty, and the page at the cut, if any,
/// is empty.
proof fn lemma_until_empty_bounds(sizes: Seq<usize>)
    ensures
        0 <= pages_until_empty(sizes) <= sizes.len(),
        forall|j: int| 0 <= j < pages_until_empty(sizes) ==> sizes[j] != 0,
        pages_until_empty(sizes) < sizes.len() ==> sizes[pages_until_empty(sizes)] == 0,
    decreases sizes.len(),
{
    if sizes.len() > 0 && sizes[0] != 0 {
        let rest = sizes.drop_first();
        lemma_until_empty_bounds(rest);
        assert(pages_until_empty(sizes) == 1 + pages_until_empty(rest));
        assert forall|j: int| 0 <= j < pages_until_empty(sizes) implies sizes[j] != 0 by {
            if j > 0 {
                assert(rest[j - 1] == sizes[j]);
            }
        }
        if pages_until_empty(sizes) < sizes.len() {
            assert(sizes[pages_until_empty(sizes)] == rest[pages_until_empty(rest)]);
        }
    }
}

/// If the first `i` pages are nonempty, the first empty page is not among
/// them.
proof fn lemma_until_empty_at_least(sizes: Seq<usize>, i: int)
    requires
        0 <= i <= sizes.len(),
        forall|j: int| 0 <= j < i ==> sizes[j] != 0,
    ensures
        pages_until_empty(sizes) >= i,
{
    lemma_until_empty_bounds(sizes);
    if pages_until_empty(sizes) < i {
        assert(sizes[pages_until_empty(sizes)] != 0);
    }
}

/// The request trace of one pagination run.
pub struct PageTrace {
    /// The offset of each page request made, in order.
    pub requests: Vec<usize>,
    /// The total number of items the source yielded.
    pub total: usize,
}

/// Run the pagination loop against a source whose page sizes are given up
/// front: page `i` answers the `i`-th request with `sizes[i]` items.
///
/// The trace requests pages at monotonically increasing offsets, each equal
/// to the cumulative item count seen so far, and stops with the request
/// answered by the first empty page (or when the given pages run out).
pub fn paginate(sizes: &Vec<usize>, limit: usize) -> (t: PageTrace)
    requires
        items_before(sizes@, sizes@.len() as int) <= usize::MAX,
    ensures
        t.requests@.len() == if pages_until_empty(sizes@) < sizes@.len() {
            pages_until_empty(sizes@) + 1
        } else {
            sizes@.len() as int
        },
        forall|i: int| 0 <= i < t.requests@.len() ==> t.requests@[i] == items_before(sizes@, i),
        forall|i: int, j: int|
            0 <= i < j < t.requests@.len() ==> t.requests@[i] < t.requests@[j],
        t.total == items_before(sizes@, pages_until_empty(sizes@)),
{
    let ghost k = pages_until_empty(sizes@);
    proof {
        lemma_until_empty_bounds(sizes@);
    }
    let mut fetcher = Fetcher::new();
    let mut requests: Vec<usize> = Vec::new();
    let mut i: usize = 0;
    while i < sizes.len() && !fetcher.is_done()
        invariant
            i <= sizes@.len(),
            items_before(sizes@, sizes@.len() as int) <= usize::MAX,
            requests@.len() == i as int,
            forall|j: int| 0 <= j < i ==> requests@[j] == items_before(sizes@, j),
            fetcher.spec_offset() == items_before(sizes@, i as int),
            !fetcher.spec_done() ==> forall|j: int| 0 <= j < i ==> sizes@[j] != 0,
            fetcher.spec_done() ==> i == k + 1 && k < sizes@.len(),
            0 <= k <= sizes@.len(),
            forall|j: int| 0 <= j < k ==> sizes@[j] != 0,
            k < sizes@.len() ==> sizes@[k] == 0,
        decreases sizes@.len() - i,
    {
        let request = fetcher.next_request(limit);
        requests.push(request.offset);
        let n_items = sizes[i];
        proof {
            lemma_items_before_monotone(sizes@, i + 1, sizes@.len() as int);
        }
        fetcher.record_page(n_items);
        i = i + 1;
        proof {
            if !fetcher.spec_done() {
                lemma_until_empty_at_least(sizes@, i as int);
            }
        }
    }
    proof {
        if !fetcher.spec_done() {
            lemma_until_empty_at_least(sizes@, i as int);
            assert(k == i as int);
        } else {
            assert(items_before(sizes@, k + 1) == items_before(sizes@, k) + sizes@[k]);
        }
        assert forall|a: int, b: int|
            0 <= a < b < requests@.len() implies requests@[a] < requests@[b] by {
            lemma_items_before_strict(sizes@, a, b);
        }
    }
    PageTrace { requests, total: fetcher.offset() }
}

/// The items of the first `i` pages, in page order.
pub open spec fn items_upto<T>(pages: Seq<Vec<T>>, i: int) -> Seq<T>
    decreases i,
{
    if i <= 0 {
        Seq::empty()
    } else {
        items_upto(pages, i - 1) + pages[i - 1]@
    }
}

/// Each page's item count.
pub open spec fn page_sizes<T>(pages: Seq<Vec<T>>) -> Seq<usize> {
    pages.map_values(|p: Vec<T>| p@.len() as usize)
}

/// Run the pagination loop against a source whose pages are given up front,
/// and emit every item of every page before the first empty one, flattened
/// in page order, together with the request trace.
pub fn collect_items<T>(pages: Vec<Vec<T>>, limit: usize) -> (r: (Vec<T>, Vec<usize>))
    requires
        items_before(page_sizes(pages@), pages@.len() as int) <= usize::MAX,
    ensures
        r.0@ == items_upto(pages@, pages_until_empty(page_sizes(pages@))),
        r.1@.len() == if pages_until_empty(page_sizes(pages@)) < pages@.len() {
            pages_until_empty(page_sizes(pages@)) + 1
        } else {
            pages@.len() as int
        },
        forall|i: int| 0 <= i < r.1@.len() ==> r.1@[i] == items_before(page_sizes(pages@), i),
{
    let ghost orig = pages@;
    let ghost sizes = page_sizes(pages@);
    let ghost k = pages_until_empty(sizes);
    proof {
        lemma_until_empty_bounds(sizes);
    }
    let mut pages = pages;
    let mut fetcher = Fetcher::new();
    let mut requests: Vec<usize> = Vec::new();
    let mut items: Vec<T> = Vec::new();
    let ghost mut i: int = 0;
    while pages.len() > 0 && !fetcher.is_done()
        invariant
            pages@ == orig.skip(i),
            sizes == page_sizes(orig),
            i <= orig.len(),
            items_before(sizes, orig.len() as int) <= usize::MAX,
            requests@.len() == i,
            forall|j: int| 0 <= j < i ==> requests@[j] == items_before(sizes, j),
            fetcher.spec_offset() == items_before(sizes, i),
            items@ == items_upto(orig, if fetcher.spec_done() { k } else { i }),
            !fetcher.spec_done() ==> forall|j: int| 0 <= j < i ==> sizes[j] != 0,
            fetcher.spec_done() ==> i == k + 1 && k < orig.len(),
            0 <= k <= orig.len(),
            forall|j: int| 0 <= j < k ==> sizes[j] != 0,
            k < orig.len() ==> sizes[k] == 0,
        decreases orig.len() - i,
    {
        let request = fetcher.next_request(limit);
        requests.push(request.offset);
        let mut page = pages.remove(0);
        let n_items = page.len();
        proof {
            assert(orig.skip(i)[0] == orig[i]);
            assert(orig.skip(i).remove(0) =~= orig.skip(i + 1));
            assert(sizes[i] == n_items);
            lemma_items_before_monotone(sizes, i + 1, orig.len() as int);
        }
        fetcher.record_page(n_items);
        if n_items > 0 {
            items.append(&mut page);
        }
        proof { i = i + 1; }
        proof {
            if !fetcher.spec_done() {
                lemma_until_empty_at_least(sizes, i);
                assert(items@ == items_upto(orig, i));
            } else {
                assert(items@ == items_upto(orig, k));
            }
        }
    }
    proof {
        if !fetcher.spec_done() {
            lemma_until_empty_at_least(sizes, i);
            assert(k == i);
        }
    }
    (items, requests)
}

} // verus!
