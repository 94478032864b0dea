//! Reading a query's results page by page, `first` items at a time.
//!
//! The query takes its page through the variables `$first` and `$offset`. A
//! page shorter than `first` is the last one; a failed fetch ends the read.
use vstd::prelude::*;

verus! {

/// Where a paged read stands.
pub struct Paging {
    first: usize,
    offset: usize,
    last_page: bool,
    failed: bool,
}

/// The mathematical value of a [`Paging`].
pub struct PagingView {
    /// The size of a full page.
    pub first: nat,
    /// How many items were taken so far.
    pub offset: nat,
    /// The last page was fetched.
    pub last_page: bool,
    /// A fetch failed.
    pub failed: bool,
}

impl View for Paging {
    type V = PagingView;

    closed spec fn view(&self) -> PagingView {
        PagingView {
            first: self.first as nat,
            offset: self.offset as nat,
            last_page: self.last_page,
            failed: self.failed,
        }
    }
}

impl Paging {
    /// A read of pages of `first` items, from the start.
    pub fn new(first: usize) -> (r: Paging)
        requires
            first > 0,
        ensures
            r@ == (PagingView { first: first as nat, offset: 0, last_page: false, failed: false }),
    {
        Paging { first, offset: 0, last_page: false, failed: false }
    }

    /// The size of a full page.
    pub fn first(&self) -> (r: usize)
        ensures
            r == self@.first,
    {
        self.first
    }

    /// How many items were taken so far: the offset of the next page.
    pub fn offset(&self) -> (r: usize)
        ensures
            r == self@.offset,
    {
        self.offset
    }

    /// The offset of the page to fetch when `buffered` items of the previous
    /// pages are left: none while items are left, after the last page, or
    /// after a failure.
    pub fn next_fetch(&self, buffered: usize) -> (r: Option<usize>)
        ensures
            r is Some <==> buffered == 0 && !self@.last_page && !self@.failed,
            r is Some ==> r->0 == self@.offset,
    {
        if buffered == 0 && !self.last_page && !self.failed {
            Some(self.offset)
        } else {
            None
        }
    }

    /// Records a fetched page of `len` items: it is the last one when it is
    /// shorter than a full page.
    pub fn page_fetched(&mut self, len: usize)
        ensures
            final(self)@ == (PagingView { last_page: len < old(self)@.first, ..old(self)@ }),
    {
        self.last_page = len < self.first;
    }

    /// Records a failed fetch, which ends the read.
    pub fn page_failed(&mut self)
        ensures
            final(self)@ == (PagingView { failed: true, ..old(self)@ }),
    {
        self.failed = true;
    }

    /// Records that one item was taken.
    pub fn item_taken(&mut self)
        requires
            old(self)@.offset < usize::MAX,
        ensures
            final(self)@ == (PagingView { offset: old(self)@.offset + 1, ..old(self)@ }),
    {
        self.offset = self.offset + 1;
    }
}

} // verus!
