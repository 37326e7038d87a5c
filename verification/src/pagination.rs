//! The cursor pagination protocol, client side: a caller loops over a
//! search operation, each time feeding the prior response's cursor back
//! into the next request, until the response says no more pages exist. The
//! decision of whether and with which token to continue is made here; the
//! spec model below describes the whole loop over a sequence of pages and
//! proves that it stops at the first terminal page having gathered every
//! item seen, in page order.

use vstd::prelude::*;
use crate::resources::shared::Cursor;
use crate::resources::shared::PaginationInfo;

verus! {

/// The token with which the loop continues after a response carrying this
/// pagination metadata: the cursor, when the metadata is present, says more
/// pages exist and carries one; `None` — stop — otherwise. In particular a
/// page claiming more pages but carrying no cursor is terminal, so the
/// loop cannot run forever on it.
pub open spec fn spec_next_cursor(pagination: Option<PaginationInfo>) -> Option<String> {
    match pagination {
        Some(info) => if info.has_more {
            info.cursor
        } else {
            None
        },
        None => None,
    }
}

impl<T> Cursor<T> {
    /// The token to request the next page with, or `None` when this page is
    /// terminal.
    pub fn next_cursor(&self) -> (r: Option<&String>)
        ensures
            match r {
                Some(c) => spec_next_cursor(self.pagination) == Some(*c),
                None => spec_next_cursor(self.pagination) is None,
            },
    {
        match &self.pagination {
            Some(info) => if info.has_more {
                match &info.cursor {
                    Some(c) => Some(c),
                    None => None,
                }
            } else {
                None
            },
            None => None,
        }
    }
}

impl crate::resources::shared::ChatsCursor {
    /// The token to request the next page of chats with, or `None` when
    /// this page is terminal.
    pub fn next_cursor(&self) -> (r: Option<&String>)
        ensures
            match r {
                Some(c) => spec_next_cursor(self.pagination) == Some(*c),
                None => spec_next_cursor(self.pagination) is None,
            },
    {
        match &self.pagination {
            Some(info) => if info.has_more {
                match &info.cursor {
                    Some(c) => Some(c),
                    None => None,
                }
            } else {
                None
            },
            None => None,
        }
    }
}

/// How many requests a client driving the pagination loop issues, given the
/// sequence of pages the server would answer with: one per page until and
/// including the first terminal page (or until the sequence is exhausted).
pub open spec fn spec_pages_fetched<T>(pages: Seq<Cursor<T>>) -> nat
    decreases pages.len(),
{
    if pages.len() == 0 {
        0
    } else if spec_next_cursor(pages[0].pagination) is Some {
        1 + spec_pages_fetched(pages.drop_first())
    } else {
        1
    }
}

/// The items the loop gathers: each fetched page's items concatenated in
/// page order.
pub open spec fn spec_items_gathered<T>(pages: Seq<Cursor<T>>) -> Seq<T>
    decreases pages.len(),
{
    if pages.len() == 0 {
        Seq::empty()
    } else if spec_next_cursor(pages[0].pagination) is Some {
        pages[0].items@ + spec_items_gathered(pages.drop_first())
    } else {
        pages[0].items@
    }
}

/// The items of the first `k` pages concatenated in page order.
pub open spec fn spec_concat_items<T>(pages: Seq<Cursor<T>>, k: int) -> Seq<T>
    decreases k,
{
    if k <= 0 || pages.len() == 0 {
        Seq::empty()
    } else {
        pages[0].items@ + spec_concat_items(pages.drop_first(), k - 1)
    }
}

/// Pagination loop termination: when the first `k` pages carry a cursor and
/// claim more, and page `k` is terminal, the loop issues exactly `k + 1`
/// requests and gathers exactly the items of those `k + 1` pages, in page
/// order.
pub proof fn lemma_pagination_loop<T>(pages: Seq<Cursor<T>>, k: int)
    requires
        0 <= k < pages.len(),
        forall|i: int| 0 <= i < k ==> spec_next_cursor(#[trigger] pages[i].pagination) is Some,
        spec_next_cursor(pages[k].pagination) is None,
    ensures
        spec_pages_fetched(pages) == k + 1,
        spec_items_gathered(pages) == spec_concat_items(pages, k + 1),
    decreases k,
{
    if k == 0 {
        assert(spec_concat_items(pages.drop_first(), 0) == Seq::<T>::empty());
        assert(spec_concat_items(pages, 1) == pages[0].items@ + spec_concat_items(
            pages.drop_first(),
            0,
        ));
        assert(spec_items_gathered(pages) =~= spec_concat_items(pages, 1));
    } else {
        assert(spec_next_cursor(pages[0].pagination) is Some);
        assert(forall|i: int|
            0 <= i < k - 1 ==> spec_next_cursor(
                #[trigger] pages.drop_first()[i].pagination,
            ) is Some);
        assert(pages.drop_first()[k - 1] == pages[k]);
        lemma_pagination_loop(pages.drop_first(), k - 1);
    }
}

/// The loop never issues more requests than there are pages.
pub proof fn lemma_pages_fetched_bounded<T>(pages: Seq<Cursor<T>>)
    ensures
        spec_pages_fetched(pages) <= pages.len(),
    decreases pages.len(),
{
    if pages.len() > 0 && spec_next_cursor(pages[0].pagination) is Some {
        lemma_pages_fetched_bounded(pages.drop_first());
    }
}

} // verus!
