//! The pagination loop shared by every listing: send a request with the
//! current continuation token (none at first), keep what the page holds,
//! and stop after the page that carries no token.
use vstd::prelude::*;

verus! {

/// The state of a pagination run: what was gathered, the token for the next
/// request, and whether the last page has come.
pub struct PaginatorView<T> {
    pub items: Seq<T>,
    pub token: Option<Seq<char>>,
    pub done: bool,
}

/// A run that has sent no request yet.
pub open spec fn start_view<T>() -> PaginatorView<T> {
    PaginatorView { items: Seq::empty(), token: None, done: false }
}

pub open spec fn token_view(t: Option<String>) -> Option<Seq<char>> {
    match t {
        Some(s) => Some(s@),
        None => None,
    }
}

/// The run after one page of `items` that chains to `next`.
pub open spec fn page_step<T>(v: PaginatorView<T>, items: Seq<T>, next: Option<Seq<char>>) -> PaginatorView<T> {
    PaginatorView { items: v.items + items, token: next, done: next is None }
}

/// The run after each of `pages` in turn.
pub open spec fn feed_pages<T>(v: PaginatorView<T>, pages: Seq<(Seq<T>, Option<Seq<char>>)>) -> PaginatorView<T>
    decreases pages.len(),
{
    if pages.len() == 0 {
        v
    } else {
        let before = feed_pages(v, pages.drop_last());
        page_step(before, pages.last().0, pages.last().1)
    }
}

/// The items of all `pages`, in page order.
pub open spec fn concat_pages<T>(pages: Seq<(Seq<T>, Option<Seq<char>>)>) -> Seq<T>
    decreases pages.len(),
{
    if pages.len() == 0 {
        Seq::empty()
    } else {
        concat_pages(pages.drop_last()) + pages.last().0
    }
}

/// Drives a paginated listing: tells which token to send, gathers each
/// page's items in order, and knows when the last page has come.
pub struct Paginator<T> {
    items: Vec<T>,
    token: Option<String>,
    done: bool,
}

impl<T> View for Paginator<T> {
    type V = PaginatorView<T>;

    closed spec fn view(&self) -> PaginatorView<T> {
        PaginatorView { items: self.items@, token: token_view(self.token), done: self.done }
    }
}

impl<T> Paginator<T> {
    /// A run that has sent no request; the first goes without a token.
    pub fn new() -> (r: Paginator<T>)
        ensures
            r@ == start_view::<T>(),
    {
        let r = Paginator { items: Vec::new(), token: None, done: false };
        assert(r@.items =~= Seq::<T>::empty());
        r
    }

    /// Whether the page without a continuation token has come.
    pub fn is_done(&self) -> (r: bool)
        ensures
            r == self@.done,
    {
        self.done
    }

    /// The token to send with the next request, if any.
    pub fn next_token(&self) -> (r: Option<&String>)
        ensures
            match r {
                Some(t) => self@.token == Some(t@),
                None => self@.token is None,
            },
    {
        match &self.token {
            Some(t) => Some(t),
            None => None,
        }
    }

    /// Takes one page: its items are kept after those gathered so far, and
    /// its continuation token is the one for the next request; a page
    /// without one ends the run.
    pub fn on_page(&mut self, items: Vec<T>, next: Option<String>)
        requires
            !old(self)@.done,
        ensures
            final(self)@ == page_step(old(self)@, items@, token_view(next)),
    {
        let mut items = items;
        self.items.append(&mut items);
        self.done = next.is_none();
        self.token = next;
    }

    /// Everything gathered, in page order.
    pub fn into_items(self) -> (r: Vec<T>)
        ensures
            r@ == self@.items,
    {
        self.items
    }
}

/// Run against a backend that answers with `pages` in turn, where every page
/// but the last carries a continuation token: each request carries the
/// token of the page before it (the first none), the items gathered are
/// those of all pages in page order, and the run ends exactly after the
/// page without a token. With no page yet, nothing is gathered.
pub proof fn lemma_pages_concatenate<T>(pages: Seq<(Seq<T>, Option<Seq<char>>)>)
    requires
        forall|i: int| 0 <= i < pages.len() - 1 ==> (#[trigger] pages[i]).1 is Some,
    ensures
        feed_pages(start_view::<T>(), pages).items == concat_pages(pages),
        feed_pages(start_view::<T>(), pages).done == (pages.len() > 0 && pages.last().1 is None),
        forall|i: int|
            0 <= i < pages.len() ==> !(#[trigger] feed_pages(start_view::<T>(), pages.take(i))).done,
        forall|i: int|
            0 < i < pages.len() ==> (#[trigger] feed_pages(start_view::<T>(), pages.take(i))).token
                == pages[i - 1].1,
        pages.len() > 0 ==> feed_pages(start_view::<T>(), pages.take(0)).token is None,
    decreases pages.len(),
{
    if pages.len() > 0 {
        let init = pages.drop_last();
        assert forall|i: int| 0 <= i < init.len() - 1 implies (#[trigger] init[i]).1 is Some by {
            assert(init[i] == pages[i]);
        }
        lemma_pages_concatenate(init);
        assert(pages.take(0) =~= Seq::<(Seq<T>, Option<Seq<char>>)>::empty());
        assert forall|i: int| 0 <= i < pages.len() implies !(#[trigger] feed_pages(
            start_view::<T>(),
            pages.take(i),
        )).done by {
            if i < init.len() {
                assert(pages.take(i) =~= init.take(i));
            } else {
                assert(pages.take(i) =~= init);
                if i > 0 {
                    assert(init.take(i - 1) =~= init.drop_last());
                    assert(init[i - 1] == pages[i - 1]);
                }
            }
        }
        assert forall|i: int| 0 < i < pages.len() implies (#[trigger] feed_pages(
            start_view::<T>(),
            pages.take(i),
        )).token == pages[i - 1].1 by {
            if i < init.len() {
                assert(pages.take(i) =~= init.take(i));
                assert(init[i - 1] == pages[i - 1]);
            } else {
                assert(pages.take(i) =~= init);
                assert(init.last() == pages[i - 1]);
            }
        }
    }
}

} // verus!
