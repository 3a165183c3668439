//! Reading a paginated resource to its end.
//!
//! The archive hands out its resources page by page: each page names, with
//! its last edge, the cursor to ask the next page with, and says whether
//! another page follows. `CursorFetch` keeps what a caller has to remember
//! between two requests; the caller makes the requests.

use vstd::prelude::*;
use crate::shared::{cursor_text, QueryConnection};

verus! {

/// What a fetch holds between two requests, as plain values.
pub struct FetchModel<T> {
    /// The cursor to ask the next page with.
    pub cursor: Option<Seq<char>>,
    /// The items received so far, in the order of their arrival.
    pub items: Seq<T>,
    /// The total that the latest page announced.
    pub total_count: nat,
    /// Whether another page is to be asked for.
    pub more: bool,
}

/// The state of a fetch before its first request.
pub open spec fn fetch_start<T>() -> FetchModel<T> {
    FetchModel { cursor: None, items: Seq::empty(), total_count: 0, more: true }
}

/// The state of a fetch after `page` has arrived.
pub open spec fn fetch_step<T>(state: FetchModel<T>, page: QueryConnection<T>) -> FetchModel<T> {
    FetchModel {
        cursor: page.cursor_after(state.cursor),
        items: state.items + page.nodes(),
        total_count: page.total_count as nat,
        more: page.page_info.has_next_page,
    }
}

/// The state of a fetch that started in `state` and was handed `pages` in
/// turn; pages that come after the one that ended the fetch are not read.
pub open spec fn fetch_run<T>(state: FetchModel<T>, pages: Seq<QueryConnection<T>>) -> FetchModel<
    T,
>
    decreases pages.len(),
{
    if pages.len() == 0 || !state.more {
        state
    } else {
        fetch_run(fetch_step(state, pages.first()), pages.drop_first())
    }
}

/// The items of `pages`, page after page.
pub open spec fn all_nodes<T>(pages: Seq<QueryConnection<T>>) -> Seq<T>
    decreases pages.len(),
{
    if pages.len() == 0 {
        Seq::empty()
    } else {
        pages.first().nodes() + all_nodes(pages.drop_first())
    }
}

/// Whether `pages` is one resource cut into pages: there is a page, every
/// page but the last announces a successor, and the last announces none.
pub open spec fn well_paged<T>(pages: Seq<QueryConnection<T>>) -> bool {
    &&& pages.len() > 0
    &&& forall|i: int| 0 <= i < pages.len() - 1 ==> (#[trigger] pages[i]).page_info.has_next_page
    &&& !pages.last().page_info.has_next_page
}

/// A fetch in progress.
pub struct CursorFetch<T> {
    pub cursor: Option<String>,
    pub items: Vec<T>,
    pub total_count: usize,
    pub more: bool,
}

impl<T> View for CursorFetch<T> {
    type V = FetchModel<T>;

    open spec fn view(&self) -> FetchModel<T> {
        FetchModel {
            cursor: cursor_text(self.cursor),
            items: self.items@,
            total_count: self.total_count as nat,
            more: self.more,
        }
    }
}

impl<T> CursorFetch<T> {
    /// A fetch that has asked for nothing yet.
    pub fn new() -> (fetch: Self)
        ensures
            fetch@ == fetch_start::<T>(),
    {
        CursorFetch { cursor: None, items: Vec::new(), total_count: 0, more: true }
    }

    /// Whether another page is to be asked for.
    pub fn has_more(&self) -> (more: bool)
        ensures
            more == self@.more,
    {
        self.more
    }

    /// The cursor to ask the next page with.
    pub fn next_cursor(&self) -> (cursor: Option<String>)
        ensures
            cursor_text(cursor) == self@.cursor,
    {
        match &self.cursor {
            Some(text) => Some(text.clone()),
            None => None,
        }
    }

    /// Takes in the page that the latest request brought, and says whether
    /// another page is to be asked for.
    pub fn accept(&mut self, page: QueryConnection<T>) -> (more: bool)
        ensures
            final(self)@ == fetch_step(old(self)@, page),
            more == page.page_info.has_next_page,
    {
        let QueryConnection { edges, page_info, total_count } = page;
        let ghost before = self@;
        let ghost all = edges@;
        for edge in it: edges
            invariant
                it.seq() == all,
                self.items@ == before.items + crate::shared::nodes_of(all.take(it.index() as int)),
                cursor_text(self.cursor) == if it.index() == 0 {
                    before.cursor
                } else {
                    cursor_text(all[it.index() - 1].cursor)
                },
        {
            proof {
                let i = it.index() as int;
                assert(all.take(i + 1) =~= all.take(i).push(all[i]));
                assert(crate::shared::nodes_of(all.take(i + 1)) =~= crate::shared::nodes_of(
                    all.take(i),
                ).push(all[i].node));
            }
            self.cursor = edge.cursor;
            self.items.push(edge.node);
        }
        proof {
            assert(all.take(all.len() as int) =~= all);
        }
        self.total_count = total_count;
        self.more = page_info.has_next_page;
        self.more
    }

    /// Ends the fetch and hands out what it has gathered.
    pub fn into_items(self) -> (items: Vec<T>)
        ensures
            items@ == self@.items,
    {
        self.items
    }
}

/// Reads `pages`, the answers to a fetch's requests in the order in which
/// they arrived, and returns the items of the resource in their order.
/// Reading stops at the first page that announces no successor.
pub fn collect_from_cursor<T>(pages: Vec<QueryConnection<T>>) -> (items: Vec<T>)
    ensures
        items@ == fetch_run(fetch_start(), pages@).items,
        well_paged(pages@) ==> items@ == all_nodes(pages@),
{
    let ghost all = pages@;
    let mut fetch = CursorFetch::new();
    proof {
        assert(all.skip(0) =~= all);
    }
    for page in it: pages
        invariant
            it.seq() == all,
            fetch_run(fetch@, all.skip(it.index() as int)) == fetch_run(fetch_start(), all),
    {
        proof {
            let i = it.index() as int;
            assert(all.skip(i).first() == all[i]);
            assert(all.skip(i).drop_first() =~= all.skip(i + 1));
        }
        if fetch.has_more() {
            fetch.accept(page);
        } else {
            proof {
                lemma_fetch_run_ended(fetch@, all.skip(it.index() + 1));
            }
        }
    }
    proof {
        if well_paged(all) {
            lemma_fetch_returns_every_item(all);
        }
    }
    fetch.into_items()
}

/// A fetch that has ended reads no further page.
pub proof fn lemma_fetch_run_ended<T>(state: FetchModel<T>, pages: Seq<QueryConnection<T>>)
    requires
        !state.more,
    ensures
        fetch_run(state, pages) == state,
{
}

/// From any state that still asks for pages, a fetch over one resource cut
/// into pages adds every item of it, in order, and then ends.
pub proof fn lemma_fetch_run_appends<T>(state: FetchModel<T>, pages: Seq<QueryConnection<T>>)
    requires
        state.more,
        well_paged(pages),
    ensures
        fetch_run(state, pages).items == state.items + all_nodes(pages),
        !fetch_run(state, pages).more,
        fetch_run(state, pages).total_count == pages.last().total_count,
    decreases pages.len(),
{
    let next = fetch_step(state, pages.first());
    let rest = pages.drop_first();
    if pages.len() == 1 {
        assert(rest.len() == 0);
        assert(all_nodes(rest) =~= Seq::<T>::empty());
        assert(state.items + all_nodes(pages) =~= next.items);
    } else {
        assert(pages[0].page_info.has_next_page);
        assert(rest.last() == pages.last());
        assert forall|i: int| 0 <= i < rest.len() - 1 implies (#[trigger] rest[i]).page_info.has_next_page by {
            assert(rest[i] == pages[i + 1]);
        }
        lemma_fetch_run_appends(next, rest);
        assert(state.items + all_nodes(pages) =~= next.items + all_nodes(rest));
    }
}

/// A fetch over a resource that was cut into pages returns exactly the
/// items of the resource, in their order, and ends with the last page.
pub proof fn lemma_fetch_returns_every_item<T>(pages: Seq<QueryConnection<T>>)
    requires
        well_paged(pages),
    ensures
        fetch_run(fetch_start(), pages).items == all_nodes(pages),
        !fetch_run(fetch_start(), pages).more,
{
    lemma_fetch_run_appends(fetch_start(), pages);
    assert(fetch_start::<T>().items + all_nodes(pages) =~= all_nodes(pages));
}

/// Where the pages are cut does not matter: two ways of paging a resource
/// that hold the same items in the same order are fetched to the same
/// result.
pub proof fn lemma_fetch_ignores_page_size<T>(
    one: Seq<QueryConnection<T>>,
    other: Seq<QueryConnection<T>>,
)
    requires
        well_paged(one),
        well_paged(other),
        all_nodes(one) == all_nodes(other),
    ensures
        fetch_run(fetch_start(), one).items == fetch_run(fetch_start(), other).items,
        fetch_run(fetch_start(), one).items.len() == all_nodes(one).len(),
{
    lemma_fetch_returns_every_item(one);
    lemma_fetch_returns_every_item(other);
}

} // verus!
