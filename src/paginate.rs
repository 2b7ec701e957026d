//! The paginator: a list query spread over pages, fetched one page after the
//! other and gathered into one list.
//!
//! Pages are requested as 1, 2, 3, ... until the page just fetched is the last
//! one that the service reports, the count being read anew from every page.
//! A ceiling on the number of pages keeps a service that never stops
//! reporting further pages from holding the query forever. A failed page
//! fails the whole query: what was gathered before it is dropped.

use vstd::prelude::*;

use crate::error::QueryError;
use crate::filters::{field_key, FilterSet};
use crate::text::{decimal, decimal_string, join_comma};

verus! {

/// The page with which every list query starts.
pub const DEFAULT_PAGE: u32 = 1;

/// The number of items per page that a list query asks for.
pub const DEFAULT_ROWS: u32 = 50;

/// The most pages that one list query fetches.
pub const MAX_PAGES: u32 = 100000;

/// One page of a list, as the service reports it.
#[derive(Debug)]
pub struct ListPage<T> {
    /// the items on this page, in order
    pub items: Vec<T>,
    /// the number of this page, from 1
    pub page: u32,
    /// how many pages the whole list has
    pub pages: u32,
    /// the page size
    pub rows_per_page: u32,
    /// how many items the whole list has
    pub total: u32,
}

/// One request to make: a path below the service's address and the query
/// parameters to send with it.
#[derive(Debug)]
pub struct PageRequest {
    pub path: String,
    pub args: Vec<(String, String)>,
}

/// The items of `pages`, page after page, each page's items in their order.
pub open spec fn flatten<T>(pages: Seq<Seq<T>>) -> Seq<T>
    decreases pages.len(),
{
    if pages.len() == 0 {
        Seq::empty()
    } else {
        flatten(pages.drop_last()) + pages.last()
    }
}

/// How many items `pages` hold together.
pub open spec fn total_items<T>(pages: Seq<Seq<T>>) -> nat
    decreases pages.len(),
{
    if pages.len() == 0 {
        0
    } else {
        total_items(pages.drop_last()) + pages.last().len()
    }
}

/// Where the items of page `i` begin in the gathered list.
pub open spec fn page_offset<T>(pages: Seq<Seq<T>>, i: int) -> nat {
    total_items(pages.take(i))
}

/// The pagination law: whatever the number of pages and their sizes, the
/// gathered list holds exactly as many items as the pages together, and item
/// `j` of page `i` stands at position `page_offset(pages, i) + j`: pages in
/// order, and the order within each page kept.
pub proof fn lemma_flatten_keeps_order<T>(pages: Seq<Seq<T>>)
    ensures
        flatten(pages).len() == total_items(pages),
        forall|i: int, j: int|
            0 <= i < pages.len() && 0 <= j < pages[i].len() ==> flatten(pages)[page_offset(
                pages,
                i,
            ) + j] == #[trigger] pages[i][j],
    decreases pages.len(),
{
    if pages.len() > 0 {
        let init = pages.drop_last();
        lemma_flatten_keeps_order(init);
        assert forall|i: int, j: int|
            0 <= i < pages.len() && 0 <= j < pages[i].len() implies flatten(pages)[page_offset(
            pages,
            i,
        ) + j] == #[trigger] pages[i][j] by {
            assert(pages.take(i) =~= init.take(i)) by {
                if i < pages.len() - 1 {
                } else {
                    assert(init.take(i) =~= init);
                }
            }
            if i < pages.len() - 1 {
                assert(init[i] == pages[i]);
                lemma_offset_fits(init, i);
            } else {
                assert(init.take(i) =~= init);
            }
        }
    }
}

/// Page `i` ends within the gathered items.
proof fn lemma_offset_fits<T>(pages: Seq<Seq<T>>, i: int)
    requires
        0 <= i < pages.len(),
    ensures
        page_offset(pages, i) + pages[i].len() <= total_items(pages),
    decreases pages.len(),
{
    if i < pages.len() - 1 {
        assert(pages.drop_last().take(i) =~= pages.take(i));
        lemma_offset_fits(pages.drop_last(), i);
    } else {
        assert(pages.take(i) =~= pages.drop_last());
    }
}

/// Where a list query stands, seen abstractly.
pub enum PageVerdict<T> {
    /// page `next_page` is to be fetched; `fetched` holds the item lists so far
    Pending { next_page: nat, fetched: Seq<Seq<T>> },
    /// the query ended with these items
    Complete(Seq<T>),
    /// the query failed
    Failed(QueryError),
}

/// Where a list query stands after the result `result` of fetching page
/// `next_page`, with the item lists `fetched` before it and a ceiling of
/// `max_pages` pages.
pub open spec fn page_step<T>(
    next_page: nat,
    max_pages: nat,
    fetched: Seq<Seq<T>>,
    result: Result<ListPage<T>, QueryError>,
) -> PageVerdict<T> {
    match result {
        Err(e) => PageVerdict::Failed(e),
        Ok(p) => if p.pages as nat <= next_page {
            PageVerdict::Complete(flatten(fetched.push(p.items@)))
        } else if next_page >= max_pages {
            PageVerdict::Failed(QueryError::PageLimitExceeded { fetched: next_page as u32 })
        } else {
            PageVerdict::Pending { next_page: next_page + 1, fetched: fetched.push(p.items@) }
        },
    }
}

/// Where a list query stands after the fetch results `results`, in order,
/// handed to it from verdict `v`. Once it has ended, later results do not count.
pub open spec fn page_run<T>(v: PageVerdict<T>, max_pages: nat, results: Seq<Result<ListPage<T>, QueryError>>) -> PageVerdict<T>
    decreases results.len(),
{
    match v {
        PageVerdict::Pending { next_page, fetched } => if results.len() == 0 {
            v
        } else {
            page_run(page_step(next_page, max_pages, fetched, results[0]), max_pages, results.drop_first())
        },
        _ => v,
    }
}

/// The pages as fetch results that succeeded.
pub open spec fn fetched_ok<T>(pages: Seq<ListPage<T>>) -> Seq<Result<ListPage<T>, QueryError>> {
    pages.map_values(|p: ListPage<T>| Ok::<ListPage<T>, QueryError>(p))
}

/// The item lists of the pages.
pub open spec fn page_items<T>(pages: Seq<ListPage<T>>) -> Seq<Seq<T>> {
    pages.map_values(|p: ListPage<T>| p.items@)
}

/// A run that is at page `k + 1` with the first `k` pages gathered, and that
/// is handed the remaining pages and then anything else, completes with the
/// items of all pages.
proof fn lemma_run_completes<T>(
    pages: Seq<ListPage<T>>,
    k: nat,
    max_pages: nat,
    extra: Seq<Result<ListPage<T>, QueryError>>,
)
    requires
        k < pages.len(),
        pages.len() <= max_pages,
        forall|i: int| 0 <= i < pages.len() ==> #[trigger] pages[i].pages == pages.len(),
    ensures
        page_run(
            PageVerdict::Pending { next_page: k + 1, fetched: page_items(pages).take(k as int) },
            max_pages,
            fetched_ok(pages).skip(k as int) + extra,
        ) == PageVerdict::<T>::Complete(flatten(page_items(pages))),
    decreases pages.len() - k,
{
    let results = fetched_ok(pages).skip(k as int) + extra;
    let fetched = page_items(pages).take(k as int);
    assert(results[0] == Ok::<ListPage<T>, QueryError>(pages[k as int]));
    let next = page_step(k + 1, max_pages, fetched, results[0]);
    let v = PageVerdict::<T>::Pending { next_page: k + 1, fetched };
    assert(results.len() > 0);
    assert(page_run(v, max_pages, results) == page_run(next, max_pages, results.drop_first()));
    assert(pages[k as int].pages == pages.len());
    assert(fetched.push(pages[k as int].items@) =~= page_items(pages).take((k + 1) as int));
    if k + 1 == pages.len() {
        assert(page_items(pages).take((k + 1) as int) =~= page_items(pages));
        assert(next == PageVerdict::<T>::Complete(flatten(page_items(pages))));
        assert(page_run(next, max_pages, results.drop_first()) == next);
    } else {
        assert(results.drop_first() =~= fetched_ok(pages).skip((k + 1) as int) + extra);
        assert(next == PageVerdict::<T>::Pending {
            next_page: (k + 2) as nat,
            fetched: page_items(pages).take((k + 1) as int),
        });
        lemma_run_completes(pages, k + 1, max_pages, extra);
    }
}

/// The pagination law for a whole query. When the service answers page
/// `i` with `pages[i - 1]` and every page reports the same count of pages,
/// at least one and within the ceiling, a fresh query completes with the
/// items of all pages, page after page and each page's order kept, as many as
/// the pages hold together (whatever totals they report), after exactly that
/// many fetches: results handed in after the last page are never read.
pub proof fn lemma_query_gathers_all_pages<T>(
    pages: Seq<ListPage<T>>,
    max_pages: nat,
    extra: Seq<Result<ListPage<T>, QueryError>>,
)
    requires
        pages.len() >= 1,
        pages.len() <= max_pages,
        forall|i: int| 0 <= i < pages.len() ==> #[trigger] pages[i].pages == pages.len(),
    ensures
        page_run(
            PageVerdict::Pending { next_page: 1, fetched: Seq::empty() },
            max_pages,
            fetched_ok(pages) + extra,
        ) == PageVerdict::<T>::Complete(flatten(page_items(pages))),
        flatten(page_items(pages)).len() == total_items(page_items(pages)),
{
    assert(page_items(pages).take(0) =~= Seq::<Seq<T>>::empty());
    assert(fetched_ok(pages).skip(0) =~= fetched_ok(pages));
    lemma_run_completes(pages, 0, max_pages, extra);
    lemma_flatten_keeps_order(page_items(pages));
}

/// A run at page `k + 1` below the ceiling, handed pages that all report more
/// pages than the ceiling, fails at the ceiling.
proof fn lemma_run_hits_ceiling<T>(
    pages: Seq<ListPage<T>>,
    k: nat,
    max_pages: nat,
    extra: Seq<Result<ListPage<T>, QueryError>>,
)
    requires
        k < max_pages,
        max_pages <= pages.len(),
        max_pages <= u32::MAX,
        forall|i: int| 0 <= i < pages.len() ==> #[trigger] pages[i].pages > max_pages,
    ensures
        page_run(
            PageVerdict::Pending { next_page: k + 1, fetched: page_items(pages).take(k as int) },
            max_pages,
            fetched_ok(pages).skip(k as int) + extra,
        ) == PageVerdict::<T>::Failed(QueryError::PageLimitExceeded { fetched: max_pages as u32 }),
    decreases max_pages - k,
{
    let results = fetched_ok(pages).skip(k as int) + extra;
    let fetched = page_items(pages).take(k as int);
    assert(results[0] == Ok::<ListPage<T>, QueryError>(pages[k as int]));
    let next = page_step(k + 1, max_pages, fetched, results[0]);
    let v = PageVerdict::<T>::Pending { next_page: k + 1, fetched };
    assert(page_run(v, max_pages, results) == page_run(next, max_pages, results.drop_first()));
    assert(pages[k as int].pages > max_pages);
    if k + 1 == max_pages {
        assert(next == PageVerdict::<T>::Failed(QueryError::PageLimitExceeded { fetched: max_pages as u32 }));
        assert(page_run(next, max_pages, results.drop_first()) == next);
    } else {
        assert(fetched.push(pages[k as int].items@) =~= page_items(pages).take((k + 1) as int));
        assert(results.drop_first() =~= fetched_ok(pages).skip((k + 1) as int) + extra);
        lemma_run_hits_ceiling(pages, k + 1, max_pages, extra);
    }
}

/// The ceiling law: when every page reports more pages than the ceiling, a
/// fresh query fails once it has fetched as many pages as the ceiling allows,
/// and keeps none of their items.
pub proof fn lemma_query_stops_at_ceiling<T>(
    pages: Seq<ListPage<T>>,
    max_pages: nat,
    extra: Seq<Result<ListPage<T>, QueryError>>,
)
    requires
        1 <= max_pages <= u32::MAX,
        pages.len() == max_pages,
        forall|i: int| 0 <= i < pages.len() ==> #[trigger] pages[i].pages > max_pages,
    ensures
        page_run(
            PageVerdict::Pending { next_page: 1, fetched: Seq::empty() },
            max_pages,
            fetched_ok(pages) + extra,
        ) == PageVerdict::<T>::Failed(QueryError::PageLimitExceeded { fetched: max_pages as u32 }),
{
    assert(page_items(pages).take(0) =~= Seq::<Seq<T>>::empty());
    assert(fetched_ok(pages).skip(0) =~= fetched_ok(pages));
    lemma_run_hits_ceiling(pages, 0, max_pages, extra);
}

/// A list query in progress.
pub struct Paginator<T> {
    path: String,
    filters: FilterSet,
    rows_per_page: u32,
    max_pages: u32,
    page: u32,
    items: Vec<T>,
    fetched: Ghost<Seq<Seq<T>>>,
}

/// What to do next about a list query.
pub enum PageStep<T> {
    /// fetch the page that `paginator.request()` names, and hand the result
    /// to `paginator.on_page`
    Fetch(Paginator<T>),
    /// the query is finished: every item of every page, in order
    Complete(Vec<T>),
    /// the query failed; nothing of it is kept
    Failed(QueryError),
}

impl<T> PageStep<T> {
    /// The verdict that this step stands for.
    pub open spec fn verdict(&self) -> PageVerdict<T> {
        match self {
            PageStep::Fetch(p) => PageVerdict::Pending { next_page: p.next_page(), fetched: p.fetched() },
            PageStep::Complete(items) => PageVerdict::Complete(items@),
            PageStep::Failed(e) => PageVerdict::Failed(*e),
        }
    }
}

impl<T> Paginator<T> {
    /// The item lists of the pages fetched so far, in order.
    pub closed spec fn fetched(&self) -> Seq<Seq<T>> {
        self.fetched@
    }

    /// The number of the page to fetch next.
    pub closed spec fn next_page(&self) -> nat {
        self.page as nat
    }

    /// The most pages that this query fetches.
    pub closed spec fn max_pages(&self) -> nat {
        self.max_pages as nat
    }

    /// The page size that this query asks for.
    pub closed spec fn rows_per_page(&self) -> u32 {
        self.rows_per_page
    }

    /// The path of the list endpoint.
    pub closed spec fn path(&self) -> Seq<char> {
        self.path@
    }

    /// The criteria of the query.
    pub closed spec fn filters(&self) -> FilterSet {
        self.filters
    }

    pub closed spec fn wf(&self) -> bool {
        &&& self.page >= 1
        &&& self.page <= self.max_pages
        &&& self.fetched@.len() == self.page - 1
        &&& self.items@ == flatten(self.fetched@)
        &&& self.filters.wf()
    }

    /// Starts a list query on `path` with criteria `filters`, asking for
    /// `rows_per_page` items per page and fetching at most `max_pages` pages.
    pub fn new(path: String, filters: FilterSet, rows_per_page: u32, max_pages: u32) -> (r: Paginator<T>)
        requires
            filters.wf(),
            max_pages >= 1,
        ensures
            r.wf(),
            r.fetched() == Seq::<Seq<T>>::empty(),
            r.next_page() == 1,
            r.max_pages() == max_pages,
            r.rows_per_page() == rows_per_page,
            r.path() == path@,
            r.filters() == filters,
    {
        Paginator {
            path,
            filters,
            rows_per_page,
            max_pages,
            page: DEFAULT_PAGE,
            items: Vec::new(),
            fetched: Ghost(Seq::empty()),
        }
    }

    /// The request for the next page: the criteria as parameters, then the
    /// page number and the page size.
    pub fn request(&self) -> (r: PageRequest)
        requires
            self.wf(),
        ensures
            r.path@ == self.path(),
            r.args@.len() == self.filters().entries().len() + 2,
            forall|i: int|
                0 <= i < self.filters().entries().len() ==> r.args@[i].0@ == field_key(
                    #[trigger] self.filters().entries()[i].0,
                ) && r.args@[i].1@ == join_comma(self.filters().entries()[i].1),
            r.args@[r.args@.len() - 2].0@ == "page"@,
            r.args@[r.args@.len() - 2].1@ == decimal(self.next_page()),
            r.args@[r.args@.len() - 1].0@ == "rows_per_page"@,
            r.args@[r.args@.len() - 1].1@ == decimal(self.rows_per_page() as nat),
    {
        let mut args = self.filters.render();
        args.push((String::from_str("page"), decimal_string(self.page)));
        args.push((String::from_str("rows_per_page"), decimal_string(self.rows_per_page)));
        PageRequest { path: self.path.clone(), args }
    }

    /// Takes the result of fetching the page that `request` named.
    ///
    /// A failure fails the query. A page adds its items to those gathered;
    /// the query is complete when that page is the last one that the page
    /// reports, fails when further pages are reported but the ceiling is
    /// reached, and asks for the following page otherwise.
    pub fn on_page(self, result: Result<ListPage<T>, QueryError>) -> (r: PageStep<T>)
        requires
            self.wf(),
        ensures
            r.verdict() == page_step(self.next_page(), self.max_pages(), self.fetched(), result),
            match result {
                Err(e) => r == PageStep::<T>::Failed(e),
                Ok(p) => if p.pages as nat <= self.next_page() {
                    r matches PageStep::Complete(items) && items@ == flatten(self.fetched().push(p.items@))
                } else if self.next_page() >= self.max_pages() {
                    r == PageStep::<T>::Failed(QueryError::PageLimitExceeded { fetched: self.next_page() as u32 })
                } else {
                    r matches PageStep::Fetch(next) && next.wf()
                        && next.fetched() == self.fetched().push(p.items@)
                        && next.next_page() == self.next_page() + 1
                        && next.max_pages() == self.max_pages()
                        && next.rows_per_page() == self.rows_per_page()
                        && next.path() == self.path()
                        && next.filters() == self.filters()
                },
            },
    {
        match result {
            Err(e) => PageStep::Failed(e),
            Ok(p) => {
                let ListPage { items: mut page_items, page: _, pages, rows_per_page: _, total: _ } = p;
                let ghost page_view = page_items@;
                let ghost fetched = self.fetched@.push(page_view);
                let mut items = self.items;
                items.append(&mut page_items);
                assert(fetched.drop_last() =~= self.fetched@);
                if pages <= self.page {
                    PageStep::Complete(items)
                } else if self.page >= self.max_pages {
                    PageStep::Failed(QueryError::PageLimitExceeded { fetched: self.page })
                } else {
                    PageStep::Fetch(Paginator {
                        path: self.path,
                        filters: self.filters,
                        rows_per_page: self.rows_per_page,
                        max_pages: self.max_pages,
                        page: self.page + 1,
                        items,
                        fetched: Ghost(fetched),
                    })
                }
            },
        }
    }
}

} // verus!
