//! Listing across pages: which page to ask for next, when to stop, and the
//! items gathered so far. The caller fetches each page and hands it back.
use vstd::prelude::*;

use crate::client::{opt_chars, ExecutionFilter, ExecutionFilterView, WorkflowFilter, WorkflowFilterView};
use crate::domain::execution::copy_opt_string;

verus! {

/// Page size used when the filter sets none.
pub const DEFAULT_PAGE_LIMIT: u32 = 100;

/// The state of a listing across pages.
pub struct Pager<T> {
    cursor: Option<String>,
    limit: u32,
    pages_left: usize,
    done: bool,
    items: Vec<T>,
}

/// The abstract state of a listing: the cursor of the next page, the page
/// size, how many more pages may be fetched, whether the last page said
/// there is no next one, and the items so far.
pub struct PagerView<T> {
    pub cursor: Option<Seq<char>>,
    pub limit: u32,
    pub pages_left: nat,
    pub done: bool,
    pub items: Seq<T>,
}

impl<T> View for Pager<T> {
    type V = PagerView<T>;

    closed spec fn view(&self) -> PagerView<T> {
        PagerView {
            cursor: opt_chars(self.cursor),
            limit: self.limit,
            pages_left: self.pages_left as nat,
            done: self.done,
            items: self.items@,
        }
    }
}

impl<T> PagerView<T> {
    /// No further page is to be fetched.
    pub open spec fn finished(self) -> bool {
        self.done || self.pages_left == 0
    }
}

/// The cursor a page hands on: a non-empty next cursor, or none.
pub open spec fn next_cursor_of(next: Option<Seq<char>>) -> Option<Seq<char>> {
    match next {
        Some(c) => if c.len() > 0 {
            Some(c)
        } else {
            None
        },
        None => None,
    }
}

/// The listing after a fetched page: its items added, one page fewer left,
/// and its next cursor followed, or the listing ended when it has none.
pub open spec fn page_recorded<T>(p: PagerView<T>, data: Seq<T>, next: Option<Seq<char>>) -> PagerView<T> {
    PagerView {
        cursor: match next_cursor_of(next) {
            Some(c) => Some(c),
            None => p.cursor,
        },
        limit: p.limit,
        pages_left: (p.pages_left - 1) as nat,
        done: next_cursor_of(next) is None,
        items: p.items + data,
    }
}

/// `filter` asking for the page at `cursor` with `limit` items.
pub open spec fn workflow_page(filter: WorkflowFilterView, cursor: Option<Seq<char>>, limit: u32) -> WorkflowFilterView {
    WorkflowFilterView { cursor, limit: Some(limit), ..filter }
}

/// `filter` asking for the page at `cursor` with `limit` items.
pub open spec fn execution_page(filter: ExecutionFilterView, cursor: Option<Seq<char>>, limit: u32) -> ExecutionFilterView {
    ExecutionFilterView { cursor, limit: Some(limit), ..filter }
}

fn copy_workflow_filter(f: &WorkflowFilter) -> (r: WorkflowFilter)
    ensures
        r@ == f@,
{
    WorkflowFilter {
        active: f.active,
        tags: copy_opt_string(&f.tags),
        name: copy_opt_string(&f.name),
        project_id: copy_opt_string(&f.project_id),
        limit: f.limit,
        cursor: copy_opt_string(&f.cursor),
    }
}

fn copy_execution_filter(f: &ExecutionFilter) -> (r: ExecutionFilter)
    ensures
        r@ == f@,
{
    ExecutionFilter {
        status: copy_opt_string(&f.status),
        workflow_id: copy_opt_string(&f.workflow_id),
        project_id: copy_opt_string(&f.project_id),
        limit: f.limit,
        cursor: copy_opt_string(&f.cursor),
        include_data: f.include_data,
    }
}

impl<T> Pager<T> {
    /// A listing that starts at `cursor`, asks for `limit` items a page (100
    /// when unset) and fetches at most `max_pages` pages.
    pub fn new(cursor: Option<String>, limit: Option<u32>, max_pages: usize) -> (r: Self)
        ensures
            r@.cursor == opt_chars(cursor),
            r@.limit == match limit {
                Some(l) => l,
                None => DEFAULT_PAGE_LIMIT,
            },
            r@.pages_left == max_pages,
            !r@.done,
            r@.items == Seq::<T>::empty(),
    {
        let limit = match limit {
            Some(l) => l,
            None => DEFAULT_PAGE_LIMIT,
        };
        Pager { cursor, limit, pages_left: max_pages, done: false, items: Vec::new() }
    }

    /// No further page is to be fetched.
    pub fn is_finished(&self) -> (r: bool)
        ensures
            r == self@.finished(),
    {
        self.done || self.pages_left == 0
    }

    /// The workflow filter for the next page, or `None` when the listing is
    /// finished.
    pub fn next_workflow_page(&self, filter: &WorkflowFilter) -> (r: Option<WorkflowFilter>)
        ensures
            match r {
                Some(f) => !self@.finished() && f@ == workflow_page(filter@, self@.cursor, self@.limit),
                None => self@.finished(),
            },
    {
        if self.is_finished() {
            return None;
        }
        let mut f = copy_workflow_filter(filter);
        f.cursor = copy_opt_string(&self.cursor);
        f.limit = Some(self.limit);
        Some(f)
    }

    /// The execution filter for the next page, or `None` when the listing
    /// is finished.
    pub fn next_execution_page(&self, filter: &ExecutionFilter) -> (r: Option<ExecutionFilter>)
        ensures
            match r {
                Some(f) => !self@.finished() && f@ == execution_page(filter@, self@.cursor, self@.limit),
                None => self@.finished(),
            },
    {
        if self.is_finished() {
            return None;
        }
        let mut f = copy_execution_filter(filter);
        f.cursor = copy_opt_string(&self.cursor);
        f.limit = Some(self.limit);
        Some(f)
    }

    /// Takes in a fetched page: its items are added, and its next cursor is
    /// followed, or the listing ends when it has none.
    pub fn record_page(&mut self, data: Vec<T>, next_cursor: Option<String>)
        requires
            !old(self)@.finished(),
        ensures
            final(self)@.items == old(self)@.items + data@,
            final(self)@.pages_left == old(self)@.pages_left - 1,
            final(self)@.limit == old(self)@.limit,
            final(self)@.done == (next_cursor_of(opt_chars(next_cursor)) is None),
            !final(self)@.done ==> final(self)@.cursor == next_cursor_of(opt_chars(next_cursor)),
            final(self)@.done ==> final(self)@.cursor == old(self)@.cursor,
            final(self)@ == page_recorded(old(self)@, data@, opt_chars(next_cursor)),
    {
        let mut data = data;
        self.items.append(&mut data);
        self.pages_left = self.pages_left - 1;
        match next_cursor {
            Some(c) => {
                if !c.as_str().is_empty() {
                    self.cursor = Some(c);
                } else {
                    self.done = true;
                }
            },
            None => {
                self.done = true;
            },
        }
    }

    /// Takes in the outcome of fetching a page. A page is recorded as
    /// `record_page` does. A failure ends the listing, so no further page is
    /// asked for, keeps the items so far, and is handed back: the listing
    /// ends with that error.
    pub fn record_outcome<E>(&mut self, outcome: Result<(Vec<T>, Option<String>), E>) -> (r: Option<E>)
        requires
            !old(self)@.finished(),
        ensures
            match outcome {
                Ok(page) => r is None && final(self)@ == page_recorded(old(self)@, page.0@, opt_chars(page.1)),
                Err(e) => r == Some(e) && final(self)@ == (PagerView { done: true, ..old(self)@ })
                    && final(self)@.finished(),
            },
    {
        match outcome {
            Ok((data, next_cursor)) => {
                self.record_page(data, next_cursor);
                None
            },
            Err(e) => {
                self.done = true;
                Some(e)
            },
        }
    }

    /// The items of every page fetched, in order.
    pub fn into_items(self) -> (r: Vec<T>)
        ensures
            r@ == self@.items,
    {
        self.items
    }
}

} // verus!
